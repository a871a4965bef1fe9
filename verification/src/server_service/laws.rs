//! What holds of every start command, whatever comes of its actions.

use vstd::prelude::*;
use crate::provider::ProviderStartFailure;
use crate::server_service::start::{
    provider_failed, start_awaits, start_command_step, Effect, StartEvent,
    StartPhase, StartRequest, StatusView,
};
use crate::minecraft::status_text;

verus! {

/// Whether a command in that phase keeps other starts out.
pub open spec fn holds_lease(phase: StartPhase<Seq<char>>) -> bool {
    !(phase is Deferring || phase is ReadingActive || phase is Replying || phase is Admitting || phase
        is Pruning || phase is Over)
}

/// Whether the run of a command in that phase has begun and its end is not
/// recorded.
pub open spec fn has_open_run(phase: StartPhase<Seq<char>>) -> bool {
    holds_lease(phase) && !(phase is TellingFailure)
}

/// How many of the effects let the next start in.
pub open spec fn releases(effects: Seq<Effect<Seq<char>>>) -> nat {
    effects.filter(|effect: Effect<Seq<char>>| effect is Release).len()
}

/// How many of the effects record the end of a run.
pub open spec fn ends(effects: Seq<Effect<Seq<char>>>) -> nat {
    effects.filter(|effect: Effect<Seq<char>>| effect is End).len()
}

proof fn lemma_counts_of_none()
    ensures
        releases(Seq::empty()) == 0,
        ends(Seq::empty()) == 0,
{
    reveal(Seq::filter);
}

proof fn lemma_counts_of_push(before: Seq<Effect<Seq<char>>>, last: Effect<Seq<char>>)
    ensures
        releases(before.push(last)) == releases(before) + if last is Release {
            1nat
        } else {
            0
        },
        ends(before.push(last)) == ends(before) + if last is End {
            1nat
        } else {
            0
        },
{
    reveal(Seq::filter);
    assert(before.push(last).drop_last() =~= before);
}

proof fn lemma_counts_of_one(effect: Effect<Seq<char>>)
    ensures
        releases(seq![effect]) == if effect is Release {
            1nat
        } else {
            0
        },
        ends(seq![effect]) == if effect is End {
            1nat
        } else {
            0
        },
{
    lemma_counts_of_none();
    lemma_counts_of_push(Seq::empty(), effect);
    assert(Seq::empty().push(effect) =~= seq![effect]);
}

proof fn lemma_counts_of_two(first: Effect<Seq<char>>, second: Effect<Seq<char>>)
    ensures
        releases(seq![first, second]) == (if first is Release {
            1nat
        } else {
            0
        }) + (if second is Release {
            1nat
        } else {
            0
        }),
        ends(seq![first, second]) == (if first is End {
            1nat
        } else {
            0
        }) + (if second is End {
            1nat
        } else {
            0
        }),
{
    lemma_counts_of_one(first);
    lemma_counts_of_push(seq![first], second);
    assert(seq![first].push(second) =~= seq![first, second]);
}

/// Everything that a step does is a list of at most two effects.
proof fn lemma_counts(effects: Seq<Effect<Seq<char>>>)
    requires
        effects.len() <= 2,
    ensures
        releases(effects) == (if effects.len() > 0 && effects[0] is Release {
            1nat
        } else {
            0
        }) + (if effects.len() > 1 && effects[1] is Release {
            1nat
        } else {
            0
        }),
        ends(effects) == (if effects.len() > 0 && effects[0] is End {
            1nat
        } else {
            0
        }) + (if effects.len() > 1 && effects[1] is End {
            1nat
        } else {
            0
        }),
{
    lemma_counts_of_none();
    if effects.len() == 0 {
        assert(effects =~= Seq::empty());
    } else if effects.len() == 1 {
        lemma_counts_of_one(effects[0]);
        assert(effects =~= seq![effects[0]]);
    } else {
        lemma_counts_of_two(effects[0], effects[1]);
        assert(effects =~= seq![effects[0], effects[1]]);
    }
}

/// A command keeps other starts out from its admission until it lets the next
/// one in, which it does exactly once, and it does not end before.
pub proof fn every_admitted_start_is_released_once(
    request: StartRequest<Seq<char>>,
    phase: StartPhase<Seq<char>>,
    event: StartEvent<Seq<char>, StatusView>,
    now_ms: u128,
)
    requires
        start_awaits(phase, event),
    ensures
        ({
            let (next, effects, action) = start_command_step(request, phase, event, now_ms);
            &&& releases(effects) == if holds_lease(phase) && !holds_lease(next) {
                1nat
            } else {
                0
            }
            &&& !holds_lease(phase) && holds_lease(next) ==> phase is Admitting && event is Admitted
            &&& (action is Finish <==> next is Over)
        }),
{
    let (next, effects, action) = start_command_step(request, phase, event, now_ms);
    lemma_counts(effects);
}

/// The end of a run is recorded at most once, and never of one that has not
/// begun; a run whose end is not recorded when the next start is let in is one
/// whose first answer could not be sent.
pub proof fn every_run_ends_once(
    request: StartRequest<Seq<char>>,
    phase: StartPhase<Seq<char>>,
    event: StartEvent<Seq<char>, StatusView>,
    now_ms: u128,
)
    requires
        start_awaits(phase, event),
    ensures
        ({
            let (next, effects, action) = start_command_step(request, phase, event, now_ms);
            &&& ends(effects) <= 1
            &&& ends(effects) == 1 ==> has_open_run(phase) && !has_open_run(next)
            &&& has_open_run(phase) && !has_open_run(next) && !(phase is Acknowledging || phase
                is Announcing) ==> ends(effects) == 1
        }),
{
    let (next, effects, action) = start_command_step(request, phase, event, now_ms);
    lemma_counts(effects);
}

/// How far a command is from asking the provider: a command that has asked does
/// not come back.
pub open spec fn before_provider(phase: StartPhase<Seq<char>>) -> bool {
    phase is Deferring || phase is ReadingActive || phase is Admitting || phase is Acknowledging || phase
        is Announcing || phase is Preflight
}

/// The provider is asked for a start at most once in a command, only after its
/// admission, and only where the server was found offline, could not be asked,
/// or was not to be asked.
pub proof fn provider_is_asked_at_most_once(
    request: StartRequest<Seq<char>>,
    phase: StartPhase<Seq<char>>,
    event: StartEvent<Seq<char>, StatusView>,
    now_ms: u128,
)
    requires
        start_awaits(phase, event),
    ensures
        ({
            let (next, effects, action) = start_command_step(request, phase, event, now_ms);
            &&& action is StartProvider ==> before_provider(phase) && holds_lease(phase)
                && !before_provider(next)
            &&& before_provider(next) ==> before_provider(phase)
            &&& action is StartProvider ==> request.options.force || (event
                matches StartEvent::Status { status } && (status matches Ok(seen)
                ==> seen.offline_like()))
        }),
{
}

/// What is said in public of a failed start depends neither on the provider's
/// message nor on where its artifact lies.
pub proof fn failure_messages_stay_private(
    request: StartRequest<Seq<char>>,
    known: Option<Seq<char>>,
    failure: ProviderStartFailure<Seq<char>>,
    message: Seq<char>,
    artifact: Option<Seq<char>>,
)
    ensures
        provider_failed(request, known, failure).2 == provider_failed(
            request,
            known,
            ProviderStartFailure { message, detail_artifact_path: artifact, ..failure },
        ).2,
{
}

/// A failure after which the server may have been started is followed by a look
/// at the server, and is not taken for a failed start; any other failure ends
/// the run as failed, with its class.
pub proof fn only_start_changes_are_verified(
    request: StartRequest<Seq<char>>,
    known: Option<Seq<char>>,
    failure: ProviderStartFailure<Seq<char>>,
)
    ensures
        failure.uncertain_mutation.starts_server() <==> provider_failed(request, known, failure).0
            is TellingCheck,
        !failure.uncertain_mutation.starts_server() ==> (provider_failed(request, known, failure).0
            matches StartPhase::TellingEnd { end } && end.outcome == "Failed"@ && end.error_class
            == Some(failure.error_class)),
{
}

/// A run is recorded as online only where a look at the server saw it online; a
/// start whose confirmation was lost is recorded as submitted only where a look
/// saw the server neither offline nor out of reach.
pub proof fn success_is_seen(
    request: StartRequest<Seq<char>>,
    phase: StartPhase<Seq<char>>,
    event: StartEvent<Seq<char>, StatusView>,
    now_ms: u128,
)
    requires
        start_awaits(phase, event),
        phase is Waiting || phase is Checking,
    ensures
        ({
            let (next, effects, action) = start_command_step(request, phase, event, now_ms);
            next matches StartPhase::TellingEnd { end } ==> {
                &&& phase is Waiting && end.error_class is None ==> (event
                    matches StartEvent::Status { status: Ok(seen) } && seen is Online
                    && end.minecraft_status == Some(status_text(seen)))
                &&& phase is Checking && end.error_class is None ==> (event
                    matches StartEvent::Status { status: Ok(seen) } && !seen.offline_like()
                    && end.minecraft_status == Some(status_text(seen)))
            }
        }),
{
}

/// The looks at the server end at the deadline: whatever a look at or after it
/// shows, no further look follows in the same phase.
pub proof fn looks_end_at_the_deadline(
    request: StartRequest<Seq<char>>,
    phase: StartPhase<Seq<char>>,
    event: StartEvent<Seq<char>, StatusView>,
    now_ms: u128,
)
    requires
        start_awaits(phase, event),
        match phase {
            StartPhase::Waiting { deadline_ms, .. } => now_ms >= deadline_ms,
            StartPhase::Checking { deadline_ms, .. } => now_ms >= deadline_ms,
            _ => false,
        },
    ensures
        ({
            let (next, effects, action) = start_command_step(request, phase, event, now_ms);
            next is TellingEnd || (phase is Checking && next is TellingWait)
        }),
{
}

} // verus!
