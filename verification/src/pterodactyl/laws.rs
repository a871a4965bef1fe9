//! What holds of every start through the panel, whatever the panel answers.

use vstd::prelude::*;
use crate::provider::{ProviderMutation, ProviderStartFailure, StartOutcome};
use crate::pterodactyl::allocation::{wake_awaits, wake_step, WakeFlow, WakeNext, WakePhase};
use crate::pterodactyl::panel::{answers, PanelAction, PanelEvent, PanelStep, PostReply};
use crate::pterodactyl::power::{power_awaits, power_step, PowerNext, PowerPhase};
use crate::pterodactyl::start::{
    fresh_start, opening_step, start_awaits, start_step, StartFlow, StartPhase,
};
use crate::pterodactyl::{is_server_error, shown_state, state_action, PterodactylResources, StateAction};

verus! {

/// The outcome of an action and the time at which it came.
pub type Outcome = (PanelEvent<Seq<char>, Seq<u8>>, u64);

/// Where a start stands, and its last step, after the given outcomes.
pub open spec fn reached(
    power_enabled: bool,
    wait_ms: u64,
    outcomes: Seq<Outcome>,
) -> (StartFlow<Seq<char>>, PanelStep<Seq<char>>)
    decreases outcomes.len(),
{
    if outcomes.len() == 0 {
        (fresh_start(power_enabled, wait_ms), opening_step())
    } else {
        let before = reached(power_enabled, wait_ms, outcomes.drop_last());
        start_step(before.0, outcomes.last().0, outcomes.last().1)
    }
}

/// What a start has asked for after the first `n` outcomes.
pub open spec fn asked(
    power_enabled: bool,
    wait_ms: u64,
    outcomes: Seq<Outcome>,
    n: int,
) -> PanelAction<Seq<char>> {
    reached(power_enabled, wait_ms, outcomes.take(n)).1.action
}

/// Whether each outcome is one of the action that was asked for before it.
pub open spec fn is_run(power_enabled: bool, wait_ms: u64, outcomes: Seq<Outcome>) -> bool {
    forall|n: int|
        0 <= n < outcomes.len() ==> answers(
            (#[trigger] outcomes[n]).0,
            asked(power_enabled, wait_ms, outcomes, n),
        )
}

// ---------------------------------------------------------------------------
// One step
// ---------------------------------------------------------------------------

/// The action whose outcome a wake waits for.
spec fn wake_pending(flow: WakeFlow<Seq<char>>, action: PanelAction<Seq<char>>) -> bool {
    match flow.phase {
        WakePhase::FirstStatus => action == (PanelAction::ReadSleepStatus {
            server_uuid: flow.server_uuid,
            limit_ms: None,
        }),
        WakePhase::Confirming { .. } | WakePhase::Polling { .. } => action matches PanelAction::ReadSleepStatus {
            limit_ms,
            ..
        } && limit_ms is Some,
        WakePhase::Posting { .. } => action is PostWake,
        WakePhase::ConfirmPause { .. } | WakePhase::Pausing { .. } => action is Pause,
        WakePhase::Refused { .. } | WakePhase::Saving { .. } | WakePhase::GivingUp { .. } => action
            is SaveState,
        WakePhase::Over => false,
    }
}

/// The action whose outcome a power request waits for.
spec fn power_pending(phase: PowerPhase<Seq<char>>, action: PanelAction<Seq<char>>) -> bool {
    match phase {
        PowerPhase::Posting => action is PostPower,
        PowerPhase::Verifying { .. } => action matches PanelAction::ReadResources { limit_ms }
            && limit_ms is Some,
        PowerPhase::VerifyPause { .. } => action is Pause,
        PowerPhase::Over => false,
    }
}

/// The action whose outcome a start waits for.
#[verifier::opaque]
spec fn pending(flow: StartFlow<Seq<char>>, action: PanelAction<Seq<char>>) -> bool {
    match flow.phase {
        StartPhase::Details | StartPhase::ConflictDetails { .. } => action is ReadDetails,
        StartPhase::Waking { wake, .. } => wake_pending(wake, action) && wake.power_enabled
            == flow.power_enabled,
        StartPhase::Resources { .. } | StartPhase::StoppingResources { .. } => action
            == (PanelAction::<Seq<char>>::ReadResources { limit_ms: None }),
        StartPhase::StoppingPause { .. } => action is Pause,
        StartPhase::Powering { power, .. } => power_pending(power, action) && flow.power_enabled,
        StartPhase::PowerSaved { .. } => action is SaveState && flow.power_enabled,
        StartPhase::DetailsSaved { .. } | StartPhase::ResourcesSaved { .. }
        | StartPhase::PoweredSaved => action is SaveState,
        StartPhase::Over => action is Finish,
    }
}

#[verifier::spinoff_prover]
proof fn lemma_wake_pending(flow: WakeFlow<Seq<char>>, event: PanelEvent<Seq<char>, Seq<u8>>, now: u64)
    requires
        wake_awaits(flow, event),
    ensures
        ({
            let step = wake_step(flow, event, now);
            step.next matches WakeNext::Ask { action } ==> {
                &&& wake_pending(WakeFlow { phase: step.phase, ..flow }, action)
                &&& !(action is PostPower)
                &&& action is PostWake ==> flow.phase is FirstStatus && flow.power_enabled
                &&& !(action is ReadDetails)
                &&& !(step.phase is FirstStatus)
            }
        }),
{
}

#[verifier::spinoff_prover]
proof fn lemma_power_pending(phase: PowerPhase<Seq<char>>, event: PanelEvent<Seq<char>, Seq<u8>>, now: u64)
    requires
        power_awaits(phase, event),
    ensures
        ({
            let step = power_step(phase, event, now);
            step.next matches PowerNext::Ask { action } ==> {
                &&& power_pending(step.phase, action)
                &&& !(action is PostPower)
                &&& !(action is PostWake)
                &&& !(action is ReadDetails)
            }
        }),
{
}

/// Whether a start has sent its power request, or never will.
#[verifier::opaque]
spec fn past_power(flow: StartFlow<Seq<char>>) -> bool {
    flow.phase is Powering || flow.phase is PoweredSaved || flow.phase is Over
}

/// How many of its at most two wakes a start has behind it.
#[verifier::opaque]
spec fn wakes_begun(flow: StartFlow<Seq<char>>) -> int {
    match flow.phase {
        StartPhase::Details | StartPhase::DetailsSaved { .. } => 0,
        StartPhase::Waking { wake, after_conflict } => if wake.phase is FirstStatus {
            if after_conflict { 2int } else { 0int }
        } else {
            if after_conflict { 3int } else { 1int }
        },
        StartPhase::Resources { after_conflict } => if after_conflict { 3 } else { 1 },
        StartPhase::ConflictDetails { .. } => 1,
        _ => 3,
    }
}

#[verifier::spinoff_prover]
proof fn lemma_step(
    flow: StartFlow<Seq<char>>,
    action: PanelAction<Seq<char>>,
    event: PanelEvent<Seq<char>, Seq<u8>>,
    now: u64,
)
    requires
        pending(flow, action),
        answers(event, action),
    ensures
        start_awaits(flow, event),
        ({
            let (next, step) = start_step(flow, event, now);
            &&& pending(next, step.action)
            &&& next.power_enabled == flow.power_enabled
            &&& next.wait_ms == flow.wait_ms
            &&& past_power(flow) ==> past_power(next)
            &&& step.action is PostPower ==> !past_power(flow) && past_power(next) && flow.power_enabled
            &&& 0 <= wakes_begun(flow) <= wakes_begun(next) <= 3
            &&& step.action is PostWake ==> flow.power_enabled && wakes_begun(flow) % 2 == 0
                && wakes_begun(next) == wakes_begun(flow) + 1
        }),
{
    reveal(start_step);
    reveal(pending);
    reveal(past_power);
    reveal(wakes_begun);
    match flow.phase {
        StartPhase::Waking { wake, .. } => {
            assert(wake_awaits(wake, event));
            lemma_wake_pending(wake, event, now);
        },
        StartPhase::Powering { power, .. } => {
            assert(power_awaits(power, event));
            lemma_power_pending(power, event, now);
        },
        _ => {},
    }
}

#[verifier::spinoff_prover]
proof fn lemma_fresh(power_enabled: bool, wait_ms: u64)
    ensures
        pending(fresh_start(power_enabled, wait_ms), opening_step().action),
        is_modest(fresh_start(power_enabled, wait_ms)),
        !(opening_step().action is PostPower),
{
    reveal(pending);
    reveal(is_modest);
}

// ---------------------------------------------------------------------------
// Whole runs
// ---------------------------------------------------------------------------

#[verifier::spinoff_prover]
proof fn lemma_reached(power_enabled: bool, wait_ms: u64, outcomes: Seq<Outcome>, n: int)
    requires
        is_run(power_enabled, wait_ms, outcomes),
        0 <= n <= outcomes.len(),
    ensures
        ({
            let (flow, step) = reached(power_enabled, wait_ms, outcomes.take(n));
            &&& pending(flow, step.action)
            &&& flow.power_enabled == power_enabled
            &&& step.action is PostPower ==> past_power(flow)
        }),
        n < outcomes.len() ==> ({
            let (flow, step) = reached(power_enabled, wait_ms, outcomes.take(n));
            reached(power_enabled, wait_ms, outcomes.take(n + 1)) == start_step(
                flow,
                outcomes[n].0,
                outcomes[n].1,
            )
        }),
    decreases n,
{
    lemma_fresh(power_enabled, wait_ms);
    if n > 0 {
        lemma_reached(power_enabled, wait_ms, outcomes, n - 1);
        let (flow, step) = reached(power_enabled, wait_ms, outcomes.take(n - 1));
        assert(answers(outcomes[n - 1].0, asked(power_enabled, wait_ms, outcomes, n - 1)));
        lemma_step(flow, step.action, outcomes[n - 1].0, outcomes[n - 1].1);
        assert(outcomes.take(n).drop_last() =~= outcomes.take(n - 1));
    }
    if n < outcomes.len() {
        assert(outcomes.take(n + 1).drop_last() =~= outcomes.take(n));
    }
}

#[verifier::spinoff_prover]
proof fn lemma_forward(power_enabled: bool, wait_ms: u64, outcomes: Seq<Outcome>, m: int, n: int)
    requires
        is_run(power_enabled, wait_ms, outcomes),
        0 <= m <= n <= outcomes.len(),
    ensures
        past_power(reached(power_enabled, wait_ms, outcomes.take(m)).0) ==> past_power(
            reached(power_enabled, wait_ms, outcomes.take(n)).0,
        ),
        wakes_begun(reached(power_enabled, wait_ms, outcomes.take(m)).0) <= wakes_begun(
            reached(power_enabled, wait_ms, outcomes.take(n)).0,
        ),
    decreases n - m,
{
    if m < n {
        lemma_forward(power_enabled, wait_ms, outcomes, m, n - 1);
        lemma_reached(power_enabled, wait_ms, outcomes, n - 1);
        let (flow, step) = reached(power_enabled, wait_ms, outcomes.take(n - 1));
        assert(answers(outcomes[n - 1].0, asked(power_enabled, wait_ms, outcomes, n - 1)));
        lemma_step(flow, step.action, outcomes[n - 1].0, outcomes[n - 1].1);
    }
}

/// Whether `action` is what a start in `flow` waits for the outcome of, in the
/// course of a run.
pub closed spec fn waits_for(flow: StartFlow<Seq<char>>, action: PanelAction<Seq<char>>) -> bool {
    pending(flow, action)
}

/// A run goes from step to step.
pub(crate) proof fn lemma_run_step(power_enabled: bool, wait_ms: u64, outcomes: Seq<Outcome>, n: int)
    requires
        is_run(power_enabled, wait_ms, outcomes),
        0 <= n <= outcomes.len(),
    ensures
        ({
            let (flow, step) = reached(power_enabled, wait_ms, outcomes.take(n));
            &&& waits_for(flow, step.action)
            &&& flow.power_enabled == power_enabled
            &&& flow.wait_ms == wait_ms
            &&& n < outcomes.len() ==> answers(outcomes[n].0, step.action) && reached(
                power_enabled,
                wait_ms,
                outcomes.take(n + 1),
            ) == start_step(flow, outcomes[n].0, outcomes[n].1)
        }),
    decreases n,
{
    lemma_reached(power_enabled, wait_ms, outcomes, n);
    if n < outcomes.len() {
        assert(answers(outcomes[n].0, asked(power_enabled, wait_ms, outcomes, n)));
    }
    if n > 0 {
        lemma_run_step(power_enabled, wait_ms, outcomes, n - 1);
        let (flow, step) = reached(power_enabled, wait_ms, outcomes.take(n - 1));
        lemma_step(flow, step.action, outcomes[n - 1].0, outcomes[n - 1].1);
    }
}

/// What a start waits for says where it stands.
#[verifier::spinoff_prover]
pub(crate) proof fn lemma_pending(flow: StartFlow<Seq<char>>, action: PanelAction<Seq<char>>)
    requires
        waits_for(flow, action),
    ensures
        action is ReadDetails ==> flow.phase is Details || flow.phase is ConflictDetails,
        action matches PanelAction::ReadResources { limit_ms } ==> if limit_ms is None {
            flow.phase is Resources || flow.phase is StoppingResources
        } else {
            flow.phase matches StartPhase::Powering { power: PowerPhase::Verifying { .. }, .. }
        },
        action matches PanelAction::ReadSleepStatus { server_uuid, limit_ms } ==> (flow.phase matches StartPhase::Waking {
            wake,
            ..
        } && wake.power_enabled == flow.power_enabled && (limit_ms is None ==> wake.phase is FirstStatus
            && wake.server_uuid == server_uuid) && (limit_ms is Some ==> wake.phase is Confirming
            || wake.phase is Polling)),
        action is PostWake ==> (flow.phase matches StartPhase::Waking { wake, .. } && wake.phase is Posting),
        action is PostPower ==> (flow.phase matches StartPhase::Powering { power: PowerPhase::Posting, .. }),
        action is Finish ==> flow.phase is Over,
        flow.phase is Over ==> action is Finish,
{
    reveal(pending);
}

/// Where a start stands says what it waits for.
#[verifier::spinoff_prover]
pub(crate) proof fn lemma_phases(flow: StartFlow<Seq<char>>, action: PanelAction<Seq<char>>)
    requires
        waits_for(flow, action),
    ensures
        forall|event: PanelEvent<Seq<char>, Seq<u8>>| #[trigger] answers(event, action) ==> start_awaits(flow, event),
        flow.phase is DetailsSaved || flow.phase is ResourcesSaved || flow.phase is PowerSaved
            || flow.phase is PoweredSaved ==> action is SaveState,
        flow.phase is Details || flow.phase is ConflictDetails ==> action is ReadDetails,
        flow.phase is Resources || flow.phase is StoppingResources ==> action is ReadResources,
        flow.phase is StoppingPause ==> action is Pause,
        flow.phase is Over ==> action is Finish,
{
    reveal(pending);
}

/// Only a conflict over the power state has the listing read again.
#[verifier::spinoff_prover]
pub(crate) proof fn lemma_only_conflicts_read_again(
    flow: StartFlow<Seq<char>>,
    action: PanelAction<Seq<char>>,
    event: PanelEvent<Seq<char>, Seq<u8>>,
    now: u64,
)
    requires
        waits_for(flow, action),
        answers(event, action),
        start_step(flow, event, now).1.action is ReadDetails,
    ensures
        action == (PanelAction::<Seq<char>>::ReadResources { limit_ms: None }),
        event matches PanelEvent::Resources { reply: Err(failure) } && failure.error_class
            == "ProviderStateConflict"@ && start_step(flow, event, now).0.phase == (StartPhase::ConflictDetails { failure }),
{
    reveal(start_step);
    reveal(pending);
    match flow.phase {
        StartPhase::Waking { wake, .. } => {
            lemma_wake_pending(wake, event, now);
        },
        StartPhase::Powering { power, .. } => {
            lemma_power_pending(power, event, now);
        },
        _ => {},
    }
}

/// Whatever an action comes back with, the start can go on from it: the
/// outcomes of what it asked for are outcomes that it takes.
#[verifier::spinoff_prover]
pub proof fn every_outcome_is_awaited(
    power_enabled: bool,
    wait_ms: u64,
    outcomes: Seq<Outcome>,
    event: PanelEvent<Seq<char>, Seq<u8>>,
)
    requires
        is_run(power_enabled, wait_ms, outcomes),
        answers(event, reached(power_enabled, wait_ms, outcomes).1.action),
    ensures
        start_awaits(reached(power_enabled, wait_ms, outcomes).0, event),
{
    assert(outcomes.take(outcomes.len() as int) =~= outcomes);
    lemma_reached(power_enabled, wait_ms, outcomes, outcomes.len() as int);
    let (flow, step) = reached(power_enabled, wait_ms, outcomes);
    lemma_step(flow, step.action, event, 0);
}

/// A start sends at most one power request.
#[verifier::spinoff_prover]
pub proof fn power_is_requested_at_most_once(
    power_enabled: bool,
    wait_ms: u64,
    outcomes: Seq<Outcome>,
    m: int,
    n: int,
)
    requires
        is_run(power_enabled, wait_ms, outcomes),
        0 <= m < n <= outcomes.len(),
        asked(power_enabled, wait_ms, outcomes, m) is PostPower,
    ensures
        !(asked(power_enabled, wait_ms, outcomes, n) is PostPower),
{
    lemma_reached(power_enabled, wait_ms, outcomes, m);
    assert(past_power(reached(power_enabled, wait_ms, outcomes.take(m)).0));
    lemma_forward(power_enabled, wait_ms, outcomes, m, n - 1);
    lemma_reached(power_enabled, wait_ms, outcomes, n - 1);
    let (flow, step) = reached(power_enabled, wait_ms, outcomes.take(n - 1));
    assert(answers(outcomes[n - 1].0, asked(power_enabled, wait_ms, outcomes, n - 1)));
    lemma_step(flow, step.action, outcomes[n - 1].0, outcomes[n - 1].1);
}

/// With power actions disabled a start asks neither for a wake nor for power.
#[verifier::spinoff_prover]
pub proof fn disabled_power_changes_nothing(wait_ms: u64, outcomes: Seq<Outcome>, n: int)
    requires
        is_run(false, wait_ms, outcomes),
        0 <= n <= outcomes.len(),
    ensures
        !(asked(false, wait_ms, outcomes, n) is PostPower),
        !(asked(false, wait_ms, outcomes, n) is PostWake),
{
    if n > 0 {
        lemma_reached(false, wait_ms, outcomes, n - 1);
        let (flow, step) = reached(false, wait_ms, outcomes.take(n - 1));
        assert(answers(outcomes[n - 1].0, asked(false, wait_ms, outcomes, n - 1)));
        lemma_step(flow, step.action, outcomes[n - 1].0, outcomes[n - 1].1);
    }
}

/// The listing that a start reads a second time separates its wake requests: a
/// start that has asked for a wake asks for another one only after a conflict
/// made it read the listing again, and never for a third.
#[verifier::spinoff_prover]
pub proof fn wake_is_not_replayed(
    power_enabled: bool,
    wait_ms: u64,
    outcomes: Seq<Outcome>,
    k: int,
    m: int,
    n: int,
)
    requires
        is_run(power_enabled, wait_ms, outcomes),
        0 <= k < m < n <= outcomes.len(),
        asked(power_enabled, wait_ms, outcomes, k) is PostWake,
        asked(power_enabled, wait_ms, outcomes, m) is PostWake,
    ensures
        !(asked(power_enabled, wait_ms, outcomes, n) is PostWake),
        exists|j: int| k < j < m && #[trigger] asked(power_enabled, wait_ms, outcomes, j) is ReadDetails,
{
    lemma_wake_counts(power_enabled, wait_ms, outcomes, k);
    lemma_wake_counts(power_enabled, wait_ms, outcomes, m);
    lemma_forward(power_enabled, wait_ms, outcomes, k, m - 1);
    lemma_forward(power_enabled, wait_ms, outcomes, m, n - 1);
    let at_k = reached(power_enabled, wait_ms, outcomes.take(k));
    let at_m = reached(power_enabled, wait_ms, outcomes.take(m - 1));
    assert(wakes_begun(at_k.0) == 1 && wakes_begun(at_m.0) == 2);
    assert(k != m - 1);
    if asked(power_enabled, wait_ms, outcomes, n) is PostWake {
        lemma_wake_counts(power_enabled, wait_ms, outcomes, n);
        assert(false);
    }
    lemma_conflict_between(power_enabled, wait_ms, outcomes, k, m - 1);
    let j = choose|j: int|
        k <= j <= m - 1 && #[trigger] asked(power_enabled, wait_ms, outcomes, j) is ReadDetails;
    assert(asked(power_enabled, wait_ms, outcomes, k) is PostWake);
    assert(j != k);
    assert(k < j < m && asked(power_enabled, wait_ms, outcomes, j) is ReadDetails);
}

#[verifier::spinoff_prover]
proof fn lemma_wake_counts(power_enabled: bool, wait_ms: u64, outcomes: Seq<Outcome>, n: int)
    requires
        is_run(power_enabled, wait_ms, outcomes),
        0 <= n <= outcomes.len(),
        asked(power_enabled, wait_ms, outcomes, n) is PostWake,
    ensures
        n > 0,
        ({
            let before = wakes_begun(reached(power_enabled, wait_ms, outcomes.take(n - 1)).0);
            let after = wakes_begun(reached(power_enabled, wait_ms, outcomes.take(n)).0);
            (before == 0 || before == 2) && after == before + 1
        }),
{
    if n > 0 {
        lemma_reached(power_enabled, wait_ms, outcomes, n - 1);
        let (flow, step) = reached(power_enabled, wait_ms, outcomes.take(n - 1));
        assert(answers(outcomes[n - 1].0, asked(power_enabled, wait_ms, outcomes, n - 1)));
        lemma_step(flow, step.action, outcomes[n - 1].0, outcomes[n - 1].1);
    }
}

#[verifier::spinoff_prover]
proof fn lemma_conflict_between(power_enabled: bool, wait_ms: u64, outcomes: Seq<Outcome>, m: int, n: int)
    requires
        is_run(power_enabled, wait_ms, outcomes),
        0 <= m < n <= outcomes.len(),
        wakes_begun(reached(power_enabled, wait_ms, outcomes.take(m)).0) == 1,
        wakes_begun(reached(power_enabled, wait_ms, outcomes.take(n)).0) == 2,
    ensures
        exists|j: int| m <= j <= n && #[trigger] asked(power_enabled, wait_ms, outcomes, j) is ReadDetails,
    decreases n - m,
{
    lemma_reached(power_enabled, wait_ms, outcomes, n - 1);
    let (flow, step) = reached(power_enabled, wait_ms, outcomes.take(n - 1));
    assert(answers(outcomes[n - 1].0, asked(power_enabled, wait_ms, outcomes, n - 1)));
    lemma_step(flow, step.action, outcomes[n - 1].0, outcomes[n - 1].1);
    lemma_forward(power_enabled, wait_ms, outcomes, m, n - 1);
    if wakes_begun(flow) == 2 {
        lemma_conflict_between(power_enabled, wait_ms, outcomes, m, n - 1);
        let j = choose|j: int| m <= j <= n - 1 && #[trigger] asked(power_enabled, wait_ms, outcomes, j) is ReadDetails;
        assert(asked(power_enabled, wait_ms, outcomes, j) is ReadDetails);
    } else {
        lemma_only_conflict_wakes_again(flow, step.action, outcomes[n - 1].0, outcomes[n - 1].1);
        assert(asked(power_enabled, wait_ms, outcomes, n - 1) is ReadDetails);
    }
}

#[verifier::spinoff_prover]
proof fn lemma_only_conflict_wakes_again(
    flow: StartFlow<Seq<char>>,
    action: PanelAction<Seq<char>>,
    event: PanelEvent<Seq<char>, Seq<u8>>,
    now: u64,
)
    requires
        pending(flow, action),
        answers(event, action),
        wakes_begun(flow) == 1,
        wakes_begun(start_step(flow, event, now).0) == 2,
    ensures
        action is ReadDetails,
{
    reveal(start_step);
    reveal(pending);
    reveal(wakes_begun);
    match flow.phase {
        StartPhase::Waking { wake, .. } => {
            assert(wake_awaits(wake, event));
            lemma_wake_pending(wake, event, now);
        },
        _ => {},
    }
}

// ---------------------------------------------------------------------------
// What a failed start says of the server
// ---------------------------------------------------------------------------

/// Whether a failed read, or a request that was not sent, is reported as what
/// it is: something that changed nothing.
pub open spec fn is_honest(event: PanelEvent<Seq<char>, Seq<u8>>) -> bool {
    match event {
        PanelEvent::Details { reply: Err(failure) } => failure.uncertain_mutation
            == ProviderMutation::Nothing,
        PanelEvent::Resources { reply: Err(failure) } => failure.uncertain_mutation
            == ProviderMutation::Nothing,
        PanelEvent::SleepStatus { reply: Err(failure) } => failure.uncertain_mutation
            == ProviderMutation::Nothing,
        PanelEvent::Posted { reply: PostReply::NotSent { failure } } => failure.uncertain_mutation
            == ProviderMutation::Nothing,
        _ => true,
    }
}

/// Whether a request that may change something was left in doubt: no answer, or
/// a server error.
pub open spec fn leaves_doubt(event: PanelEvent<Seq<char>, Seq<u8>>) -> bool {
    match event {
        PanelEvent::Posted { reply: PostReply::Broken } => true,
        PanelEvent::Posted { reply: PostReply::Answered { status, .. } } => is_server_error(status),
        _ => false,
    }
}

/// Whether `action` ends the start with a failure for which `holds` holds.
pub open spec fn ends_in_failure(
    action: PanelAction<Seq<char>>,
    holds: spec_fn(ProviderStartFailure<Seq<char>>) -> bool,
) -> bool {
    match action {
        PanelAction::Finish { end: Err(failure) } => holds(failure),
        _ => false,
    }
}

/// Whether the failure says that the server may have been started.
pub open spec fn claims_start() -> spec_fn(ProviderStartFailure<Seq<char>>) -> bool {
    |failure: ProviderStartFailure<Seq<char>>| failure.uncertain_mutation.starts_server()
}

/// Whether the failure does not say that a power request may have taken effect.
pub open spec fn denies_power() -> spec_fn(ProviderStartFailure<Seq<char>>) -> bool {
    |failure: ProviderStartFailure<Seq<char>>|
        failure.uncertain_mutation != ProviderMutation::PowerStart
}

/// No failure that a start holds before its power request claims a start.
#[verifier::opaque]
spec fn is_modest(flow: StartFlow<Seq<char>>) -> bool {
    match flow.phase {
        StartPhase::ConflictDetails { failure } => !failure.uncertain_mutation.starts_server(),
        StartPhase::Waking { wake, .. } => match wake.phase {
            WakePhase::Confirming { doubt } => !doubt.failure.uncertain_mutation.starts_server(),
            WakePhase::ConfirmPause { doubt } => !doubt.failure.uncertain_mutation.starts_server(),
            _ => true,
        },
        _ => true,
    }
}

#[verifier::spinoff_prover]
proof fn lemma_modest_step(
    flow: StartFlow<Seq<char>>,
    action: PanelAction<Seq<char>>,
    event: PanelEvent<Seq<char>, Seq<u8>>,
    now: u64,
)
    requires
        pending(flow, action),
        answers(event, action),
        is_honest(event),
        is_modest(flow),
    ensures
        ({
            let (next, step) = start_step(flow, event, now);
            &&& is_modest(next)
            &&& ends_in_failure(step.action, claims_start()) ==> flow.phase is Powering
            &&& next.phase is Powering && !(flow.phase is Powering) ==> step.action is PostPower
        }),
{
    reveal(start_step);
    reveal(pending);
    reveal(is_modest);
}

#[verifier::spinoff_prover]
proof fn lemma_modest_run(power_enabled: bool, wait_ms: u64, outcomes: Seq<Outcome>, n: int)
    requires
        is_run(power_enabled, wait_ms, outcomes),
        0 <= n <= outcomes.len(),
        forall|i: int| 0 <= i < outcomes.len() ==> is_honest((#[trigger] outcomes[i]).0),
    ensures
        is_modest(reached(power_enabled, wait_ms, outcomes.take(n)).0),
        reached(power_enabled, wait_ms, outcomes.take(n)).0.phase is Powering || ends_in_failure(
            asked(power_enabled, wait_ms, outcomes, n),
            claims_start(),
        ) ==> exists|m: int| 0 <= m <= n && #[trigger] asked(power_enabled, wait_ms, outcomes, m) is PostPower,
    decreases n,
{
    lemma_fresh(power_enabled, wait_ms);
    if n > 0 {
        lemma_modest_run(power_enabled, wait_ms, outcomes, n - 1);
        lemma_reached(power_enabled, wait_ms, outcomes, n - 1);
        let (flow, step) = reached(power_enabled, wait_ms, outcomes.take(n - 1));
        assert(answers(outcomes[n - 1].0, asked(power_enabled, wait_ms, outcomes, n - 1)));
        lemma_modest_step(flow, step.action, outcomes[n - 1].0, outcomes[n - 1].1);
        if flow.phase is Powering {
            let m = choose|m: int|
                0 <= m <= n - 1 && #[trigger] asked(power_enabled, wait_ms, outcomes, m) is PostPower;
            assert(0 <= m <= n && asked(power_enabled, wait_ms, outcomes, m) is PostPower);
        } else if reached(power_enabled, wait_ms, outcomes.take(n)).0.phase is Powering {
            assert(asked(power_enabled, wait_ms, outcomes, n) is PostPower);
        }
    }
}

/// A failed start says that the server may have been started only where it
/// sent a power request: no trouble with a read, a wake or an allocation, its
/// timeout included, is taken for a start.
#[verifier::spinoff_prover]
pub proof fn start_is_claimed_only_after_power(
    power_enabled: bool,
    wait_ms: u64,
    outcomes: Seq<Outcome>,
    n: int,
)
    requires
        is_run(power_enabled, wait_ms, outcomes),
        0 <= n <= outcomes.len(),
        forall|i: int| 0 <= i < outcomes.len() ==> is_honest((#[trigger] outcomes[i]).0),
        ends_in_failure(asked(power_enabled, wait_ms, outcomes, n), claims_start()),
    ensures
        exists|m: int| 0 <= m < n && #[trigger] asked(power_enabled, wait_ms, outcomes, m) is PostPower,
{
    lemma_modest_run(power_enabled, wait_ms, outcomes, n);
    let m = choose|m: int|
        0 <= m <= n && #[trigger] asked(power_enabled, wait_ms, outcomes, m) is PostPower;
    assert(m != n);
}

/// The power request of the start is in doubt, or was accepted after all.
#[verifier::opaque]
spec fn in_doubt(flow: StartFlow<Seq<char>>, action: PanelAction<Seq<char>>) -> bool {
    match flow.phase {
        StartPhase::Powering { power: PowerPhase::Verifying { doubt }, .. } =>
            doubt.failure.uncertain_mutation == ProviderMutation::PowerStart,
        StartPhase::Powering { power: PowerPhase::VerifyPause { doubt }, .. } =>
            doubt.failure.uncertain_mutation == ProviderMutation::PowerStart,
        StartPhase::PoweredSaved => true,
        StartPhase::Over => !ends_in_failure(action, denies_power()),
        _ => false,
    }
}

#[verifier::spinoff_prover]
proof fn lemma_doubt_step(
    flow: StartFlow<Seq<char>>,
    action: PanelAction<Seq<char>>,
    event: PanelEvent<Seq<char>, Seq<u8>>,
    now: u64,
)
    requires
        pending(flow, action),
        answers(event, action),
    ensures
        ({
            let (next, step) = start_step(flow, event, now);
            &&& in_doubt(flow, action) ==> in_doubt(next, step.action)
            &&& action is PostPower && leaves_doubt(event) ==> in_doubt(next, step.action)
        }),
{
    reveal(start_step);
    reveal(pending);
    reveal(in_doubt);
}

/// Once a power request is in doubt, every failure of the start says that the
/// server may have been started, whatever the verification ran into.
#[verifier::spinoff_prover]
pub proof fn doubt_about_power_is_kept(
    power_enabled: bool,
    wait_ms: u64,
    outcomes: Seq<Outcome>,
    m: int,
    n: int,
)
    requires
        is_run(power_enabled, wait_ms, outcomes),
        0 <= m < n <= outcomes.len(),
        asked(power_enabled, wait_ms, outcomes, m) is PostPower,
        leaves_doubt(outcomes[m].0),
    ensures
        !ends_in_failure(asked(power_enabled, wait_ms, outcomes, n), denies_power()),
{
    lemma_doubt_run(power_enabled, wait_ms, outcomes, m, n);
}

#[verifier::spinoff_prover]
proof fn lemma_doubt_run(
    power_enabled: bool,
    wait_ms: u64,
    outcomes: Seq<Outcome>,
    m: int,
    n: int,
)
    requires
        is_run(power_enabled, wait_ms, outcomes),
        0 <= m < n <= outcomes.len(),
        asked(power_enabled, wait_ms, outcomes, m) is PostPower,
        leaves_doubt(outcomes[m].0),
    ensures
        ({
            let (flow, step) = reached(power_enabled, wait_ms, outcomes.take(n));
            in_doubt(flow, step.action) && !ends_in_failure(step.action, denies_power())
        }),
    decreases n - m,
{
    if m < n - 1 {
        lemma_doubt_run(power_enabled, wait_ms, outcomes, m, n - 1);
    }
    lemma_reached(power_enabled, wait_ms, outcomes, n - 1);
    lemma_reached(power_enabled, wait_ms, outcomes, n);
    let (flow, step) = reached(power_enabled, wait_ms, outcomes.take(n - 1));
    assert(answers(outcomes[n - 1].0, asked(power_enabled, wait_ms, outcomes, n - 1)));
    lemma_doubt_step(flow, step.action, outcomes[n - 1].0, outcomes[n - 1].1);
    let (next, asks) = reached(power_enabled, wait_ms, outcomes.take(n));
    lemma_doubt_is_told(next, asks.action);
}

#[verifier::spinoff_prover]
proof fn lemma_doubt_is_told(flow: StartFlow<Seq<char>>, action: PanelAction<Seq<char>>)
    requires
        pending(flow, action),
        in_doubt(flow, action),
    ensures
        !ends_in_failure(action, denies_power()),
{
    reveal(pending);
    reveal(in_doubt);
}

// ---------------------------------------------------------------------------
// What a successful start says of the server
// ---------------------------------------------------------------------------

/// Whether `action` ends the start with a success of that kind.
pub open spec fn ends_in_success(action: PanelAction<Seq<char>>, outcome: StartOutcome) -> bool {
    action matches PanelAction::Finish { end: Ok(result) } && result.outcome == outcome
}

/// Whether a look showed the server running or starting.
pub open spec fn shows_active(event: PanelEvent<Seq<char>, Seq<u8>>) -> bool {
    event matches PanelEvent::Resources { reply: Ok(resources) } && state_action(resources.current_state)
        == StateAction::AlreadyActive
}

/// Whether a power request was answered with its acceptance.
pub open spec fn accepts_power(event: PanelEvent<Seq<char>, Seq<u8>>) -> bool {
    event matches PanelEvent::Posted { reply: PostReply::Answered { status, .. } } && status == 204
}

/// Whether the power request at `m` was confirmed before `n`: by its answer, or,
/// where it was left in doubt, by a later look that showed the server running or
/// starting.
pub open spec fn is_confirmed(outcomes: Seq<Outcome>, m: int, n: int) -> bool {
    &&& 0 <= m < n
    &&& accepts_power(outcomes[m].0) || (leaves_doubt(outcomes[m].0) && exists|k: int|
        m < k < n && shows_active(#[trigger] outcomes[k].0))
}

/// The power request of the start is known to have been accepted.
#[verifier::opaque]
spec fn knows_power(flow: StartFlow<Seq<char>>, action: PanelAction<Seq<char>>) -> bool {
    flow.phase is PoweredSaved || ends_in_success(action, StartOutcome::StartRequested)
}

/// The power request of the start has been sent and its fate is open.
#[verifier::opaque]
spec fn is_powering(flow: StartFlow<Seq<char>>) -> bool {
    flow.phase is Powering
}

#[verifier::spinoff_prover]
proof fn lemma_confirm_step(
    flow: StartFlow<Seq<char>>,
    action: PanelAction<Seq<char>>,
    event: PanelEvent<Seq<char>, Seq<u8>>,
    now: u64,
)
    requires
        pending(flow, action),
        answers(event, action),
    ensures
        ({
            let (next, step) = start_step(flow, event, now);
            &&& is_powering(next) && !(step.action is PostPower) ==> is_powering(flow) && (action is PostPower
                ==> leaves_doubt(event))
            &&& knows_power(next, step.action) && !knows_power(flow, action) ==> is_powering(flow) && if action is PostPower {
                accepts_power(event)
            } else {
                shows_active(event)
            }
        }),
{
    reveal(start_step);
    reveal(pending);
    reveal(knows_power);
    reveal(is_powering);
}

#[verifier::spinoff_prover]
proof fn lemma_confirm_run(power_enabled: bool, wait_ms: u64, outcomes: Seq<Outcome>, n: int)
    requires
        is_run(power_enabled, wait_ms, outcomes),
        0 <= n <= outcomes.len(),
    ensures
        is_powering(reached(power_enabled, wait_ms, outcomes.take(n)).0) && !(asked(
            power_enabled,
            wait_ms,
            outcomes,
            n,
        ) is PostPower) ==> exists|m: int|
            0 <= m < n && leaves_doubt(outcomes[m].0) && #[trigger] asked(
                power_enabled,
                wait_ms,
                outcomes,
                m,
            ) is PostPower,
        ({
            let (flow, step) = reached(power_enabled, wait_ms, outcomes.take(n));
            knows_power(flow, step.action) ==> exists|m: int|
                is_confirmed(outcomes, m, n) && #[trigger] asked(power_enabled, wait_ms, outcomes, m) is PostPower
        }),
    decreases n,
{
    if n <= 0 {
        reveal(is_powering);
        reveal(knows_power);
    } else {
        lemma_confirm_run(power_enabled, wait_ms, outcomes, n - 1);
        lemma_reached(power_enabled, wait_ms, outcomes, n - 1);
        let (flow, step) = reached(power_enabled, wait_ms, outcomes.take(n - 1));
        let (next, asks) = reached(power_enabled, wait_ms, outcomes.take(n));
        let event = outcomes[n - 1].0;
        assert(answers(event, asked(power_enabled, wait_ms, outcomes, n - 1)));
        lemma_confirm_step(flow, step.action, event, outcomes[n - 1].1);
        if is_powering(next) && !(asked(power_enabled, wait_ms, outcomes, n) is PostPower) {
            if asked(power_enabled, wait_ms, outcomes, n - 1) is PostPower {
                assert(leaves_doubt(outcomes[n - 1].0));
            } else {
                let m = choose|m: int|
                    0 <= m < n - 1 && leaves_doubt(outcomes[m].0) && #[trigger] asked(
                        power_enabled,
                        wait_ms,
                        outcomes,
                        m,
                    ) is PostPower;
                assert(asked(power_enabled, wait_ms, outcomes, m) is PostPower);
            }
        }
        if knows_power(next, asks.action) {
            if knows_power(flow, step.action) {
                let m = choose|m: int|
                    is_confirmed(outcomes, m, n - 1) && #[trigger] asked(
                        power_enabled,
                        wait_ms,
                        outcomes,
                        m,
                    ) is PostPower;
                assert(is_confirmed(outcomes, m, n));
            } else if asked(power_enabled, wait_ms, outcomes, n - 1) is PostPower {
                assert(is_confirmed(outcomes, n - 1, n));
            } else {
                let m = choose|m: int|
                    0 <= m < n - 1 && leaves_doubt(outcomes[m].0) && #[trigger] asked(
                        power_enabled,
                        wait_ms,
                        outcomes,
                        m,
                    ) is PostPower;
                assert(shows_active(outcomes[n - 1].0));
                assert(is_confirmed(outcomes, m, n));
            }
        }
    }
}

/// A start that ends as requested sent exactly one power request. That request
/// was accepted; or it was lost or answered with a server error, and a look after
/// it showed the server running or starting.
#[verifier::spinoff_prover]
pub proof fn requested_starts_were_confirmed(
    power_enabled: bool,
    wait_ms: u64,
    outcomes: Seq<Outcome>,
    n: int,
)
    requires
        is_run(power_enabled, wait_ms, outcomes),
        0 <= n <= outcomes.len(),
        ends_in_success(asked(power_enabled, wait_ms, outcomes, n), StartOutcome::StartRequested),
    ensures
        exists|m: int| is_confirmed(outcomes, m, n) && #[trigger] asked(power_enabled, wait_ms, outcomes, m) is PostPower,
        forall|i: int, j: int|
            0 <= i <= n && 0 <= j <= n && #[trigger] asked(power_enabled, wait_ms, outcomes, i) is PostPower
                && #[trigger] asked(power_enabled, wait_ms, outcomes, j) is PostPower ==> i == j,
{
    reveal(knows_power);
    lemma_confirm_run(power_enabled, wait_ms, outcomes, n);
    assert forall|i: int, j: int|
        0 <= i <= n && 0 <= j <= n && #[trigger] asked(power_enabled, wait_ms, outcomes, i) is PostPower
            && #[trigger] asked(power_enabled, wait_ms, outcomes, j) is PostPower implies i == j by {
        if i < j {
            power_is_requested_at_most_once(power_enabled, wait_ms, outcomes, i, j);
        } else if j < i {
            power_is_requested_at_most_once(power_enabled, wait_ms, outcomes, j, i);
        }
    }
}

/// The power state that a start is about to decide on.
#[verifier::opaque]
spec fn deciding_on(flow: StartFlow<Seq<char>>) -> Option<PterodactylResources<Seq<char>>> {
    match flow.phase {
        StartPhase::ResourcesSaved { resources, .. } => Some(resources),
        _ => None,
    }
}

#[verifier::spinoff_prover]
proof fn lemma_active_step(
    flow: StartFlow<Seq<char>>,
    action: PanelAction<Seq<char>>,
    event: PanelEvent<Seq<char>, Seq<u8>>,
    now: u64,
)
    requires
        pending(flow, action),
        answers(event, action),
    ensures
        ({
            let (next, step) = start_step(flow, event, now);
            &&& deciding_on(next) matches Some(resources) ==> event == (PanelEvent::<Seq<char>, Seq<u8>>::Resources {
                reply: Ok(resources),
            })
            &&& step.action matches PanelAction::Finish { end: Ok(result) } ==> (result.outcome
                == StartOutcome::AlreadyActive ==> (deciding_on(flow) matches Some(resources) && state_action(
                resources.current_state,
            ) == StateAction::AlreadyActive && result.provider_status == shown_state(
                resources.current_state,
            )))
            &&& ends_in_success(step.action, StartOutcome::AlreadyActive) ==> !past_power(flow)
        }),
{
    reveal(start_step);
    reveal(pending);
    reveal(deciding_on);
    reveal(past_power);
}

/// A start that ends with a server that was active already sent no power
/// request, and reports the state that its last look showed, which was running or
/// starting.
#[verifier::spinoff_prover]
pub proof fn active_servers_were_left_alone(
    power_enabled: bool,
    wait_ms: u64,
    outcomes: Seq<Outcome>,
    n: int,
)
    requires
        is_run(power_enabled, wait_ms, outcomes),
        0 <= n <= outcomes.len(),
        ends_in_success(asked(power_enabled, wait_ms, outcomes, n), StartOutcome::AlreadyActive),
    ensures
        forall|m: int| 0 <= m <= n ==> !(#[trigger] asked(power_enabled, wait_ms, outcomes, m) is PostPower),
        n >= 2,
        shows_active(outcomes[n - 2].0),
        outcomes[n - 2].0 matches PanelEvent::Resources { reply: Ok(resources) } && (asked(
            power_enabled,
            wait_ms,
            outcomes,
            n,
        ) matches PanelAction::Finish { end: Ok(result) } && result.provider_status == shown_state(
            resources.current_state,
        )),
{
    assert(n > 0);
    lemma_reached(power_enabled, wait_ms, outcomes, n - 1);
    let (flow, step) = reached(power_enabled, wait_ms, outcomes.take(n - 1));
    assert(answers(outcomes[n - 1].0, asked(power_enabled, wait_ms, outcomes, n - 1)));
    lemma_active_step(flow, step.action, outcomes[n - 1].0, outcomes[n - 1].1);
    assert forall|m: int| 0 <= m <= n implies !(#[trigger] asked(power_enabled, wait_ms, outcomes, m) is PostPower) by {
        if m < n && asked(power_enabled, wait_ms, outcomes, m) is PostPower {
            lemma_reached(power_enabled, wait_ms, outcomes, m);
            lemma_forward(power_enabled, wait_ms, outcomes, m, n - 1);
        }
    }
    assert(n > 1) by {
        reveal(deciding_on);
    }
    lemma_reached(power_enabled, wait_ms, outcomes, n - 2);
    let (earlier, asks) = reached(power_enabled, wait_ms, outcomes.take(n - 2));
    assert(answers(outcomes[n - 2].0, asked(power_enabled, wait_ms, outcomes, n - 2)));
    lemma_active_step(earlier, asks.action, outcomes[n - 2].0, outcomes[n - 2].1);
}

} // verus!
