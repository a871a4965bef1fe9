//! What a start through the panel does about each answer, told over whole runs by
//! what was asked, what came back, and what was asked next.

use vstd::prelude::*;
use crate::provider::{ProviderMutation, ProviderProgressStage, ProviderStartFailure, StartOutcome};
use crate::pterodactyl::allocation::{report_due, wake_step, AllocationWait, WakeDoubt, WakeFlow, WakeNext, WakePhase};
use crate::pterodactyl::laws::{
    asked, is_run, lemma_only_conflicts_read_again, lemma_pending, lemma_phases, lemma_run_step, reached, waits_for, Outcome,
};
use crate::pterodactyl::panel::{answers, power_record, PanelAction, PanelEvent, PostReply};
use crate::pterodactyl::power::{power_step, PowerDoubt, PowerNext, PowerPhase};
use crate::pterodactyl::start::{opening_step, start_awaits, start_step, StartFlow, StartPhase};
use crate::pterodactyl::{
    allocation_ready, shown_state, state_action, status_detail, status_failure, timeout_detail, wake_confirmed, AllocationResult,
    PlaySleepStatus, PterodactylResources, PterodactylServer, StateAction,
};
use crate::terminal::duration_text;
use crate::text::{decimal, join, lower, trim};

verus! {

// ---------------------------------------------------------------------------
// Words of the panel
// ---------------------------------------------------------------------------

/// Whether the panel's `value` is the word, whatever its letters' case and the
/// whitespace around it.
pub open spec fn says(value: Seq<char>, word: Seq<char>) -> bool {
    lower(trim(value)) == word
}

/// Whether a power state is one in which the server runs or will.
pub open spec fn says_active(state: Seq<char>) -> bool {
    says(state, "running"@) || says(state, "starting"@)
}

/// Whether a power state is one in which the server can be started.
pub open spec fn says_off(state: Seq<char>) -> bool {
    says(state, "offline"@) || says(state, "stopped"@)
}

/// A running or starting server is active already, one that is offline or stopped
/// can be started, one that is stopping is waited for, and any other word is
/// unknown.
pub proof fn power_words_are_told_apart(state: Seq<char>)
    ensures
        says_active(state) <==> state_action(state) == StateAction::AlreadyActive,
        says_off(state) <==> state_action(state) == StateAction::RequestStart,
        says(state, "stopping"@) <==> state_action(state) == StateAction::WaitForStopping,
        says_active(state) ==> !says_off(state) && !says(state, "stopping"@),
        says_off(state) ==> !says(state, "stopping"@),
{
    reveal_strlit("running");
    reveal_strlit("starting");
    reveal_strlit("offline");
    reveal_strlit("stopped");
    reveal_strlit("stopping");
    assert("offline"@[0] == 'o' && "running"@[0] == 'r' && "stopped"@[0] == 's');
    assert("starting"@[2] == 'a' && "stopping"@[2] == 'o');
    assert("stopped"@.len() == 7 && "stopping"@.len() == 8);
}

/// An active server is shown as running or as starting.
pub proof fn active_states_are_shown(state: Seq<char>)
    ensures
        says(state, "running"@) ==> shown_state(state) == "Running"@,
        says(state, "starting"@) ==> shown_state(state) == "Starting"@,
{
    reveal_strlit("running");
    reveal_strlit("starting");
    reveal_strlit("Running");
    reveal_strlit("Starting");
    if says(state, "running"@) {
        assert(shown_state(state) =~= "Running"@);
    }
    if says(state, "starting"@) {
        assert(shown_state(state) =~= "Starting"@);
    }
}

// ---------------------------------------------------------------------------
// How a start fails
// ---------------------------------------------------------------------------

/// Whether a start ends with its own failure: the class, the message and the
/// record, and nothing left in doubt.
pub open spec fn fails_as(
    action: PanelAction<Seq<char>>,
    error_class: Seq<char>,
    message: Seq<char>,
    record: Option<Seq<char>>,
) -> bool {
    action matches PanelAction::Finish { end: Err(failure) } && failure.error_class == error_class
        && failure.message == message && failure.detail_artifact_path == record && failure.screenshot_path is None
        && failure.uncertain_mutation == ProviderMutation::Nothing && !failure.retryable
}

/// Whether a start ends with the failure of a request, as the request told it.
pub open spec fn fails_with(action: PanelAction<Seq<char>>, told: ProviderStartFailure<Seq<char>>) -> bool {
    action matches PanelAction::Finish { end: Err(failure) } && failure.error_class == told.error_class
        && failure.message == told.message && failure.uncertain_mutation == told.uncertain_mutation
        && failure.retryable == told.retryable
}

// ---------------------------------------------------------------------------
// The listing
// ---------------------------------------------------------------------------

/// The first listing decides: a server in limbo is looked at as one that sleeps,
/// even where it is suspended too; another suspended server is refused; of any
/// other the power state is read. Without a listing the start ends.
#[verifier::spinoff_prover]
pub proof fn first_listing_decides(power_enabled: bool, wait_ms: u64, outcomes: Seq<Outcome>)
    requires
        is_run(power_enabled, wait_ms, outcomes),
        outcomes.len() > 0,
    ensures
        asked(power_enabled, wait_ms, outcomes, 0) is ReadDetails,
        outcomes[0].0 matches PanelEvent::Details { reply } && match reply {
            Err(failure) => asked(power_enabled, wait_ms, outcomes, 1) == (PanelAction::<Seq<char>>::Finish {
                end: Err(failure),
            }),
            Ok(details) => {
                &&& asked(power_enabled, wait_ms, outcomes, 1) matches PanelAction::SaveState { artifact }
                &&& artifact.is_suspended == Some(details.is_suspended)
                &&& artifact.is_limbo == Some(details.is_limbo)
                &&& outcomes.len() > 1 ==> (outcomes[1].0 matches PanelEvent::Saved { path } && {
                    let then = asked(power_enabled, wait_ms, outcomes, 2);
                    if details.is_limbo {
                        then == (PanelAction::<Seq<char>>::ReadSleepStatus {
                            server_uuid: details.uuid,
                            limit_ms: None,
                        })
                    } else if details.is_suspended {
                        fails_as(then, "ProviderSuspended"@, "The configured server is suspended"@, path)
                    } else {
                        then == (PanelAction::<Seq<char>>::ReadResources { limit_ms: None })
                    }
                })
            },
        },
{
    reveal(start_step);
    lemma_run_step(power_enabled, wait_ms, outcomes, 0);
    assert(outcomes.take(0) =~= Seq::<Outcome>::empty());
    if outcomes.len() > 1 {
        lemma_run_step(power_enabled, wait_ms, outcomes, 1);
    }
}

/// A listing that is read again decides too: a server that went to limbo is looked
/// at as one that sleeps; for any other the conflict that led here ends the start.
#[verifier::spinoff_prover]
pub proof fn second_listing_decides(power_enabled: bool, wait_ms: u64, outcomes: Seq<Outcome>, n: int)
    requires
        is_run(power_enabled, wait_ms, outcomes),
        0 < n < outcomes.len(),
        asked(power_enabled, wait_ms, outcomes, n) is ReadDetails,
    ensures
        asked(power_enabled, wait_ms, outcomes, n - 1) == (PanelAction::<Seq<char>>::ReadResources { limit_ms: None }),
        outcomes[n - 1].0 matches PanelEvent::Resources { reply: Err(conflict) } && conflict.error_class
            == "ProviderStateConflict"@ && (outcomes[n].0 matches PanelEvent::Details { reply } && match reply {
            Err(failure) => asked(power_enabled, wait_ms, outcomes, n + 1) == (PanelAction::<Seq<char>>::Finish {
                end: Err(failure),
            }),
            Ok(details) => if details.is_limbo {
                asked(power_enabled, wait_ms, outcomes, n + 1) == (PanelAction::<Seq<char>>::ReadSleepStatus {
                    server_uuid: details.uuid,
                    limit_ms: None,
                })
            } else {
                asked(power_enabled, wait_ms, outcomes, n + 1) == (PanelAction::<Seq<char>>::Finish {
                    end: Err(conflict),
                })
            },
        }),
{
    lemma_run_step(power_enabled, wait_ms, outcomes, n - 1);
    lemma_run_step(power_enabled, wait_ms, outcomes, n);
    let (flow, step) = reached(power_enabled, wait_ms, outcomes.take(n - 1));
    lemma_pending(flow, step.action);
    lemma_pending(
        reached(power_enabled, wait_ms, outcomes.take(n)).0,
        asked(power_enabled, wait_ms, outcomes, n),
    );
    lemma_only_conflicts_read_again(flow, step.action, outcomes[n - 1].0, outcomes[n - 1].1);
    reveal(start_step);
}

// ---------------------------------------------------------------------------
// The power state
// ---------------------------------------------------------------------------

/// How often a power state was read among the first `n` outcomes.
pub open spec fn power_states_read(outcomes: Seq<Outcome>, n: int) -> int
    decreases n,
{
    if n <= 0 {
        0
    } else {
        power_states_read(outcomes, n - 1) + if outcomes[n - 1].0 matches PanelEvent::Resources { reply: Ok(_) } {
            1int
        } else {
            0int
        }
    }
}

/// What a start has counted of the power states that it read.
#[verifier::opaque]
spec fn counts(flow: StartFlow<Seq<char>>, read: int) -> bool {
    match flow.phase {
        StartPhase::ResourcesSaved { waits, .. } => read == waits + 1 && waits <= 6,
        StartPhase::StoppingPause { waits } => read == waits && 0 < waits <= 6,
        StartPhase::StoppingResources { waits } => read == waits && 0 < waits <= 6,
        StartPhase::PowerSaved { .. } | StartPhase::Powering { .. } | StartPhase::PoweredSaved
        | StartPhase::Over => true,
        _ => read == 0,
    }
}

#[verifier::spinoff_prover]
proof fn lemma_counts_step(
    flow: StartFlow<Seq<char>>,
    action: PanelAction<Seq<char>>,
    event: PanelEvent<Seq<char>, Seq<u8>>,
    now: u64,
    read: int,
)
    requires
        waits_for(flow, action),
        answers(event, action),
        counts(flow, read),
    ensures
        counts(
            start_step(flow, event, now).0,
            if event matches PanelEvent::Resources { reply: Ok(_) } {
                read + 1
            } else {
                read
            },
        ),
{
    reveal(start_step);
    reveal(counts);
    lemma_phases(flow, action);
}

#[verifier::spinoff_prover]
proof fn lemma_counts(power_enabled: bool, wait_ms: u64, outcomes: Seq<Outcome>, n: int)
    requires
        is_run(power_enabled, wait_ms, outcomes),
        0 <= n <= outcomes.len(),
    ensures
        counts(reached(power_enabled, wait_ms, outcomes.take(n)).0, power_states_read(outcomes, n)),
    decreases n,
{
    if n == 0 {
        reveal(counts);
    } else {
        lemma_counts(power_enabled, wait_ms, outcomes, n - 1);
        lemma_run_step(power_enabled, wait_ms, outcomes, n - 1);
        let (flow, step) = reached(power_enabled, wait_ms, outcomes.take(n - 1));
        lemma_counts_step(
            flow,
            step.action,
            outcomes[n - 1].0,
            outcomes[n - 1].1,
            power_states_read(outcomes, n - 1),
        );
    }
}

#[verifier::spinoff_prover]
proof fn lemma_power_state_step(
    flow: StartFlow<Seq<char>>,
    action: PanelAction<Seq<char>>,
    resources: PterodactylResources<Seq<char>>,
    now: u64,
    read: int,
    path: Option<Seq<char>>,
    later: u64,
)
    requires
        action == (PanelAction::<Seq<char>>::ReadResources { limit_ms: None }),
        waits_for(flow, action),
        counts(flow, read),
    ensures
        ({
            let (next, step) = start_step(flow, PanelEvent::Resources { reply: Ok(resources) }, now);
            let (last, asks) = start_step(next, PanelEvent::Saved { path }, later);
            let then = asks.action;
            &&& step.action matches PanelAction::SaveState { artifact }
            &&& artifact.current_state == Some(resources.current_state)
            &&& artifact.is_suspended == Some(resources.is_suspended)
            &&& if resources.is_suspended && (read == 0 || read >= 6 || !says(resources.current_state, "stopping"@)) {
                fails_as(
                    then,
                    "ProviderSuspended"@,
                    if read == 0 {
                        "The configured server is suspended"@
                    } else {
                        "The configured server became suspended"@
                    },
                    path,
                )
            } else if says(resources.current_state, "stopping"@) && read < 6 {
                then == (PanelAction::<Seq<char>>::Pause { pause_ms: 5_000 }) && last.phase is StoppingPause
            } else if says(resources.current_state, "stopping"@) {
                fails_as(then, "ProviderStopping"@, "The server remained in stopping state"@, path)
            } else if says_active(resources.current_state) {
                then matches PanelAction::Finish { end: Ok(result) } && result.outcome == StartOutcome::AlreadyActive
                    && result.provider_status == (if says(resources.current_state, "running"@) {
                    "Running"@
                } else {
                    "Starting"@
                }) && result.detail_artifact_path == path
            } else if !says_off(resources.current_state) {
                fails_as(
                    then,
                    "ProviderStateUnknown"@,
                    "The provider returned an unsupported server state"@,
                    path,
                )
            } else if !flow.power_enabled {
                fails_as(
                    then,
                    "ProviderPowerDisabled"@,
                    "Pterodactyl power actions are disabled by configuration"@,
                    path,
                )
            } else {
                then is SaveState && last.phase is PowerSaved
            }
        }),
{
    lemma_pending(flow, action);
    power_words_are_told_apart(resources.current_state);
    active_states_are_shown(resources.current_state);
    reveal(start_step);
    reveal(counts);
}

/// A power state decides, once it is on record. A suspended server is refused. A
/// stopping one is looked at again after five seconds, six times at most. A
/// running or starting one is left alone. One that is off gets a power request,
/// however often it was looked at before, unless power is disabled. Any other
/// state ends the start.
#[verifier::spinoff_prover]
pub proof fn power_state_decides(
    power_enabled: bool,
    wait_ms: u64,
    outcomes: Seq<Outcome>,
    n: int,
    resources: PterodactylResources<Seq<char>>,
)
    requires
        is_run(power_enabled, wait_ms, outcomes),
        0 <= n < outcomes.len() - 1,
        asked(power_enabled, wait_ms, outcomes, n) == (PanelAction::<Seq<char>>::ReadResources { limit_ms: None }),
        outcomes[n].0 == (PanelEvent::<Seq<char>, Seq<u8>>::Resources { reply: Ok(resources) }),
    ensures
        asked(power_enabled, wait_ms, outcomes, n + 1) matches PanelAction::SaveState { artifact }
            && artifact.current_state == Some(resources.current_state) && artifact.is_suspended == Some(
            resources.is_suspended,
        ),
        outcomes[n + 1].0 matches PanelEvent::Saved { path } && {
            let read = power_states_read(outcomes, n);
            let state = resources.current_state;
            let then = asked(power_enabled, wait_ms, outcomes, n + 2);
            let next = asked(power_enabled, wait_ms, outcomes, n + 3);
            if resources.is_suspended && (read == 0 || read >= 6 || !says(state, "stopping"@)) {
                fails_as(
                    then,
                    "ProviderSuspended"@,
                    if read == 0 {
                        "The configured server is suspended"@
                    } else {
                        "The configured server became suspended"@
                    },
                    path,
                )
            } else if says(state, "stopping"@) && read < 6 {
                then == (PanelAction::<Seq<char>>::Pause { pause_ms: 5_000 }) && (n + 2 < outcomes.len() ==> next == (
                PanelAction::<Seq<char>>::ReadResources { limit_ms: None }))
            } else if says(state, "stopping"@) {
                fails_as(then, "ProviderStopping"@, "The server remained in stopping state"@, path)
            } else if says_active(state) {
                then matches PanelAction::Finish { end: Ok(result) } && result.outcome == StartOutcome::AlreadyActive
                    && result.provider_status == (if says(state, "running"@) {
                    "Running"@
                } else {
                    "Starting"@
                }) && result.detail_artifact_path == path
            } else if !says_off(state) {
                fails_as(
                    then,
                    "ProviderStateUnknown"@,
                    "The provider returned an unsupported server state"@,
                    path,
                )
            } else if !power_enabled {
                fails_as(
                    then,
                    "ProviderPowerDisabled"@,
                    "Pterodactyl power actions are disabled by configuration"@,
                    path,
                )
            } else {
                then is SaveState && (n + 2 < outcomes.len() ==> next is PostPower)
            }
        },
{
    lemma_counts(power_enabled, wait_ms, outcomes, n);
    lemma_run_step(power_enabled, wait_ms, outcomes, n);
    lemma_run_step(power_enabled, wait_ms, outcomes, n + 1);
    let (flow, step) = reached(power_enabled, wait_ms, outcomes.take(n));
    let event = outcomes[n + 1].0;
    let path = event->Saved_path;
    lemma_power_state_step(
        flow,
        step.action,
        resources,
        outcomes[n].1,
        power_states_read(outcomes, n),
        path,
        outcomes[n + 1].1,
    );
    assert(event == (PanelEvent::<Seq<char>, Seq<u8>>::Saved { path }));
    if n + 2 < outcomes.len() {
        lemma_run_step(power_enabled, wait_ms, outcomes, n + 2);
        reveal(start_step);
    }
}

/// A power state that cannot be read ends the start with what the request told,
/// unless it is the first conflict: then the listing is read again.
#[verifier::spinoff_prover]
pub proof fn unread_power_states_end_the_start(
    power_enabled: bool,
    wait_ms: u64,
    outcomes: Seq<Outcome>,
    n: int,
    failure: ProviderStartFailure<Seq<char>>,
)
    requires
        is_run(power_enabled, wait_ms, outcomes),
        0 <= n < outcomes.len(),
        asked(power_enabled, wait_ms, outcomes, n) == (PanelAction::<Seq<char>>::ReadResources { limit_ms: None }),
        outcomes[n].0 == (PanelEvent::<Seq<char>, Seq<u8>>::Resources { reply: Err(failure) }),
    ensures
        ({
            let then = asked(power_enabled, wait_ms, outcomes, n + 1);
            if failure.error_class == "ProviderStateConflict"@ && power_states_read(outcomes, n) == 0 && !read_again(
                power_enabled,
                wait_ms,
                outcomes,
                n,
            ) {
                then is ReadDetails
            } else {
                fails_with(then, failure)
            }
        }),
{
    lemma_counts(power_enabled, wait_ms, outcomes, n);
    lemma_run_step(power_enabled, wait_ms, outcomes, n);
    lemma_conflicts(power_enabled, wait_ms, outcomes, n);
    let (flow, step) = reached(power_enabled, wait_ms, outcomes.take(n));
    lemma_pending(flow, step.action);
    reveal(start_step);
    reveal(counts);
    reveal(after_conflict);
}

/// Whether the listing was read again before `n`.
pub open spec fn read_again(power_enabled: bool, wait_ms: u64, outcomes: Seq<Outcome>, n: int) -> bool {
    exists|k: int| 0 < k < n && #[trigger] asked(power_enabled, wait_ms, outcomes, k) is ReadDetails
}

/// What a start knows of a conflict behind it.
#[verifier::opaque]
spec fn after_conflict(flow: StartFlow<Seq<char>>) -> Option<bool> {
    match flow.phase {
        StartPhase::Details | StartPhase::DetailsSaved { .. } => Some(false),
        StartPhase::Waking { after_conflict, .. } => Some(after_conflict),
        StartPhase::Resources { after_conflict } => Some(after_conflict),
        StartPhase::ConflictDetails { .. } => Some(true),
        _ => None,
    }
}

#[verifier::spinoff_prover]
proof fn lemma_conflict_step(
    flow: StartFlow<Seq<char>>,
    action: PanelAction<Seq<char>>,
    event: PanelEvent<Seq<char>, Seq<u8>>,
    now: u64,
)
    requires
        waits_for(flow, action),
        answers(event, action),
    ensures
        after_conflict(start_step(flow, event, now).0) matches Some(behind) ==> {
            &&& after_conflict(flow) is Some
            &&& behind == (after_conflict(flow) == Some(true) || start_step(flow, event, now).1.action is ReadDetails)
        },
{
    reveal(start_step);
    reveal(after_conflict);
    lemma_phases(flow, action);
    if start_step(flow, event, now).1.action is ReadDetails {
        lemma_only_conflicts_read_again(flow, action, event, now);
    }
}

#[verifier::spinoff_prover]
proof fn lemma_conflicts(power_enabled: bool, wait_ms: u64, outcomes: Seq<Outcome>, n: int)
    requires
        is_run(power_enabled, wait_ms, outcomes),
        0 <= n <= outcomes.len(),
    ensures
        after_conflict(reached(power_enabled, wait_ms, outcomes.take(n)).0) matches Some(behind) ==> (behind
            <==> read_again(power_enabled, wait_ms, outcomes, n + 1)),
        asked(power_enabled, wait_ms, outcomes, n) is ReadDetails || (read_again(power_enabled, wait_ms, outcomes, n)
            <==> read_again(power_enabled, wait_ms, outcomes, n + 1)),
    decreases n,
{
    if n == 0 {
        reveal(after_conflict);
    } else {
        lemma_conflicts(power_enabled, wait_ms, outcomes, n - 1);
        lemma_run_step(power_enabled, wait_ms, outcomes, n - 1);
        let (flow, step) = reached(power_enabled, wait_ms, outcomes.take(n - 1));
        lemma_conflict_step(flow, step.action, outcomes[n - 1].0, outcomes[n - 1].1);
    }
    if read_again(power_enabled, wait_ms, outcomes, n) {
        let k = choose|k: int| 0 < k < n && #[trigger] asked(power_enabled, wait_ms, outcomes, k) is ReadDetails;
        assert(0 < k < n + 1 && asked(power_enabled, wait_ms, outcomes, k) is ReadDetails);
    }
    if read_again(power_enabled, wait_ms, outcomes, n + 1) {
        let k = choose|k: int| 0 < k < n + 1 && #[trigger] asked(power_enabled, wait_ms, outcomes, k) is ReadDetails;
        assert(k == n || (0 < k < n && asked(power_enabled, wait_ms, outcomes, k) is ReadDetails));
    }
}

/// A start gives up a stopping server only where the last power state that it read
/// is stopping and it has waited six times: seven readings in all.
#[verifier::spinoff_prover]
pub proof fn stopping_is_given_up_after_six_waits(
    power_enabled: bool,
    wait_ms: u64,
    outcomes: Seq<Outcome>,
    n: int,
)
    requires
        is_run(power_enabled, wait_ms, outcomes),
        0 < n <= outcomes.len(),
        outcomes[n - 1].0 is Saved,
        asked(power_enabled, wait_ms, outcomes, n) matches PanelAction::Finish { end: Err(failure) } && failure.error_class
            == "ProviderStopping"@,
    ensures
        n >= 2,
        outcomes[n - 2].0 matches PanelEvent::Resources { reply: Ok(resources) } && says(
            resources.current_state,
            "stopping"@,
        ),
        power_states_read(outcomes, n) == 7,
{
    lemma_counts(power_enabled, wait_ms, outcomes, n - 1);
    lemma_run_step(power_enabled, wait_ms, outcomes, n - 1);
    let (flow, step) = reached(power_enabled, wait_ms, outcomes.take(n - 1));
    reveal(counts);
    if n == 1 {
        assert(outcomes.take(0) =~= Seq::<Outcome>::empty());
        lemma_stopping_ends(flow, step.action, outcomes[n - 1].0, outcomes[n - 1].1);
    } else {
        lemma_run_step(power_enabled, wait_ms, outcomes, n - 2);
        let (before, asks) = reached(power_enabled, wait_ms, outcomes.take(n - 2));
        lemma_recorded_state(before, asks.action, outcomes[n - 2].0, outcomes[n - 2].1);
        lemma_stopping_ends(flow, step.action, outcomes[n - 1].0, outcomes[n - 1].1);
        power_words_are_told_apart(flow.phase->ResourcesSaved_resources.current_state);
    }
}

proof fn lemma_stopping_is_its_own_class()
    ensures
        "ProviderStopping"@ != "ProviderSuspended"@,
        "ProviderStopping"@ != "ProviderPowerDisabled"@,
        "ProviderStopping"@ != "ProviderStateUnknown"@,
        "ProviderStopping"@ != "ProviderAllocationDisabled"@,
        "ProviderStopping"@ != "ProviderAllocationBlocked"@,
        "ProviderStopping"@ != "ProviderAllocationStateUnknown"@,
        "ProviderStopping"@ != "ProviderAllocationTimeout"@,
{
    reveal_strlit("ProviderStopping");
    reveal_strlit("ProviderSuspended");
    reveal_strlit("ProviderPowerDisabled");
    reveal_strlit("ProviderStateUnknown");
    reveal_strlit("ProviderAllocationDisabled");
    reveal_strlit("ProviderAllocationBlocked");
    reveal_strlit("ProviderAllocationStateUnknown");
    reveal_strlit("ProviderAllocationTimeout");
    assert("ProviderStopping"@.len() == 16);
    assert("ProviderSuspended"@.len() == 17);
    assert("ProviderPowerDisabled"@.len() == 21);
    assert("ProviderStateUnknown"@.len() == 20);
    assert("ProviderAllocationDisabled"@.len() == 26);
    assert("ProviderAllocationBlocked"@.len() == 25);
    assert("ProviderAllocationStateUnknown"@.len() == 30);
    assert("ProviderAllocationTimeout"@.len() == 25);
}

/// A refused allocation that is called a stopping server, of which there is none.
spec fn refused_as_stopping(flow: StartFlow<Seq<char>>) -> bool {
    flow.phase matches StartPhase::Waking { wake, .. } && (wake.phase matches WakePhase::Refused { error_class, .. }
        && error_class == "ProviderStopping"@)
}

#[verifier::spinoff_prover]
proof fn lemma_stopping_ends(
    flow: StartFlow<Seq<char>>,
    action: PanelAction<Seq<char>>,
    event: PanelEvent<Seq<char>, Seq<u8>>,
    now: u64,
)
    requires
        waits_for(flow, action),
        answers(event, action),
        event is Saved,
        start_step(flow, event, now).1.action matches PanelAction::Finish { end: Err(failure) } && failure.error_class
            == "ProviderStopping"@,
        !refused_as_stopping(flow),
    ensures
        flow.phase matches StartPhase::ResourcesSaved { resources, waits } && waits >= 6 && state_action(
            resources.current_state,
        ) == StateAction::WaitForStopping,
{
    reveal(start_step);
    lemma_phases(flow, action);
    lemma_stopping_is_its_own_class();
}

#[verifier::spinoff_prover]
proof fn lemma_recorded_state(
    flow: StartFlow<Seq<char>>,
    action: PanelAction<Seq<char>>,
    event: PanelEvent<Seq<char>, Seq<u8>>,
    now: u64,
)
    requires
        waits_for(flow, action),
        answers(event, action),
    ensures
        start_step(flow, event, now).0.phase matches StartPhase::ResourcesSaved { resources, .. } ==> event == (
        PanelEvent::<Seq<char>, Seq<u8>>::Resources { reply: Ok(resources) }),
        !refused_as_stopping(start_step(flow, event, now).0),
{
    reveal(start_step);
    lemma_phases(flow, action);
    lemma_stopping_is_its_own_class();
}

// ---------------------------------------------------------------------------
// The power request
// ---------------------------------------------------------------------------

/// Whether a start ends with its own failure of that class and message, and with
/// that much left in doubt.
pub open spec fn ends_as(
    action: PanelAction<Seq<char>>,
    error_class: Seq<char>,
    message: Seq<char>,
    doubt: ProviderMutation,
) -> bool {
    action matches PanelAction::Finish { end: Err(failure) } && failure.error_class == error_class
        && failure.message == message && failure.uncertain_mutation == doubt && !failure.retryable
}

/// The time until the sixty seconds after `now` are over, as far as the clock
/// reaches.
pub open spec fn minute_from(now: u64) -> int {
    if now > u64::MAX - 60_000 {
        u64::MAX - now
    } else {
        60_000
    }
}

/// The answer to the power request decides. 204 is its acceptance, and the start
/// ends as requested once that is on record. Where the connection broke or the
/// server erred, the power state is looked at for up to a minute. Any other answer,
/// and a request that was not sent, ends the start with nothing left in doubt.
#[verifier::spinoff_prover]
pub proof fn power_answer_decides(
    power_enabled: bool,
    wait_ms: u64,
    outcomes: Seq<Outcome>,
    n: int,
    reply: PostReply<Seq<char>, Seq<u8>>,
)
    requires
        is_run(power_enabled, wait_ms, outcomes),
        0 <= n < outcomes.len(),
        asked(power_enabled, wait_ms, outcomes, n) is PostPower,
        outcomes[n].0 == (PanelEvent::<Seq<char>, Seq<u8>>::Posted { reply }),
        outcomes[n].1 < u64::MAX,
    ensures
        ({
            let then = asked(power_enabled, wait_ms, outcomes, n + 1);
            let look = PanelAction::<Seq<char>>::ReadResources { limit_ms: Some(minute_from(outcomes[n].1) as u64) };
            match reply {
                PostReply::NotSent { failure } => fails_with(then, failure),
                PostReply::Broken => then == look,
                PostReply::Answered { status, .. } => if status == 204 {
                    &&& then matches PanelAction::SaveState { artifact }
                    &&& artifact.current_state == Some("starting"@)
                    &&& artifact.power_requested
                    &&& n + 1 < outcomes.len() ==> (asked(power_enabled, wait_ms, outcomes, n + 2) matches PanelAction::Finish {
                        end: Ok(result),
                    } && result.outcome == StartOutcome::StartRequested && result.provider_status == "Start requested"@)
                } else if 500 <= status < 600 {
                    then == look
                } else {
                    then matches PanelAction::Finish { end: Err(failure) } && failure.uncertain_mutation
                        == ProviderMutation::Nothing && failure.retryable == (status == 429) && (status == 401
                        ==> failure.error_class == "ProviderAuthentication"@) && (status == 404 ==> failure.error_class
                        == "ProviderServerUnavailable"@) && (status == 409 ==> failure.error_class
                        == "ProviderStateConflict"@) && (status == 429 ==> failure.error_class == "ProviderRateLimited"@)
                        && (status < 400 ==> failure.error_class == "ProviderProtocol"@)
                },
            }
        }),
{
    reveal(start_step);
    lemma_run_step(power_enabled, wait_ms, outcomes, n);
    let (flow, step) = reached(power_enabled, wait_ms, outcomes.take(n));
    lemma_pending(flow, step.action);
    if n + 1 < outcomes.len() {
        lemma_run_step(power_enabled, wait_ms, outcomes, n + 1);
    }
}

/// A look at a request in doubt decides. A running or starting server was started.
/// One that is not, or a look that may be repeated, is followed by another look
/// after five seconds, twelve looks in all and no longer than the minute lasts.
/// Otherwise the start ends, and the doubt about the power request stays.
#[verifier::spinoff_prover]
pub proof fn verifying_look_decides(
    doubt: PowerDoubt<Seq<char>>,
    event: PanelEvent<Seq<char>, Seq<u8>>,
    now: u64,
)
    requires
        event is Resources || event is TimedOut,
    ensures
        ({
            let step = power_step(PowerPhase::Verifying { doubt }, event, now);
            match event {
                PanelEvent::Resources { reply } => {
                    if reply matches Ok(resources) && says_active(resources.current_state) {
                        step.next is Accepted
                    } else if reply matches Err(failure) && !failure.retryable {
                        step.next == (PowerNext::Failed {
                            failure: ProviderStartFailure {
                                uncertain_mutation: ProviderMutation::PowerStart,
                                ..reply->Err_0
                            },
                        })
                    } else if doubt.attempt < 11 && now < doubt.deadline {
                        &&& step.next == (PowerNext::<Seq<char>>::Ask {
                            action: PanelAction::Pause {
                                pause_ms: if doubt.deadline - now < 5_000 {
                                    (doubt.deadline - now) as u64
                                } else {
                                    5_000
                                },
                            },
                        })
                        &&& step.phase == (PowerPhase::VerifyPause {
                            doubt: PowerDoubt { attempt: (doubt.attempt + 1) as u64, ..doubt },
                        })
                    } else {
                        step.next == (PowerNext::Failed { failure: doubt.failure })
                    }
                },
                _ => step.next == (PowerNext::Failed { failure: doubt.failure }),
            }
        }),
{
    if let PanelEvent::Resources { reply: Ok(resources) } = event {
        power_words_are_told_apart(resources.current_state);
    }
}

/// After the pause between two looks the server is looked at again, for as long as
/// the minute lasts.
#[verifier::spinoff_prover]
pub proof fn verifying_goes_on_after_its_pause(doubt: PowerDoubt<Seq<char>>, now: u64)
    ensures
        ({
            let step = power_step(PowerPhase::VerifyPause { doubt }, PanelEvent::Paused, now);
            if now < doubt.deadline {
                &&& step.phase == (PowerPhase::Verifying { doubt })
                &&& step.next == (PowerNext::<Seq<char>>::Ask {
                    action: PanelAction::ReadResources { limit_ms: Some((doubt.deadline - now) as u64) },
                })
            } else {
                step.next == (PowerNext::Failed { failure: doubt.failure })
            }
        }),
{
}

/// Where the power request is left in doubt, the looks begin at the first and have
/// a minute, and the start remembers that the server may have been started.
#[verifier::spinoff_prover]
pub proof fn doubtful_power_is_verified_for_a_minute(reply: PostReply<Seq<char>, Seq<u8>>, now: u64)
    requires
        now < u64::MAX,
        reply matches PostReply::Answered { status, .. } ==> 500 <= status < 600,
        !(reply is NotSent),
    ensures
        power_step(PowerPhase::Posting, PanelEvent::Posted { reply }, now).phase matches PowerPhase::Verifying { doubt }
            && doubt.attempt == 0 && doubt.deadline == now + minute_from(now) && doubt.failure.uncertain_mutation
            == ProviderMutation::PowerStart && doubt.failure.error_class == (if reply is Broken {
            "ProviderPowerAmbiguous"@
        } else {
            "ProviderUnavailable"@
        }),
{
}

// ---------------------------------------------------------------------------
// The allocation
// ---------------------------------------------------------------------------

/// Why an allocation cannot go on: it is disabled, blocked, or in a phase that is
/// none of those that are known.
pub open spec fn cannot_go_on(status: PlaySleepStatus<Seq<char>>) -> Option<(Seq<char>, Seq<char>)> {
    if status.enabled == Some(false) {
        Some((
            "ProviderAllocationDisabled"@,
            "Play Hosting allocation is disabled for the configured server"@,
        ))
    } else if status.blocked == Some(true) || says(status.phase, "attention"@) {
        Some((
            "ProviderAllocationBlocked"@,
            "Play Hosting allocation requires attention before it can continue"@,
        ))
    } else if !says(status.phase, "active"@) && !says_coming(status.phase) && !says_asleep(status.phase) {
        Some((
            "ProviderAllocationStateUnknown"@,
            "Play Hosting returned an unsupported allocation phase"@,
        ))
    } else {
        None
    }
}

/// Whether the host is allocating the server.
pub open spec fn says_coming(phase: Seq<char>) -> bool {
    says(phase, "queued"@) || says(phase, "waking"@)
}

/// Whether the host has put the server to sleep.
pub open spec fn says_asleep(phase: Seq<char>) -> bool {
    says(phase, "suspended"@) || says(phase, "sleeping"@) || says(phase, "asleep"@)
}

/// Whether the host has allocated the server: it tells where the server is, or
/// says that it is active.
pub open spec fn is_allocated(status: PlaySleepStatus<Seq<char>>) -> bool {
    ||| (status.connection matches Some(connection) && trim(connection).len() > 0)
    ||| says(status.phase, "active"@)
}

proof fn lemma_allocation_words(status: PlaySleepStatus<Seq<char>>)
    ensures
        status_failure(status) == cannot_go_on(status),
        allocation_ready(status) <==> is_allocated(status),
        wake_confirmed(status) <==> is_allocated(status) || says_coming(status.phase) || says(
            status.phase,
            "attention"@,
        ),
{
    reveal_strlit("active");
    reveal_strlit("attention");
    assert(lower("active"@) =~= "active"@);
    assert(lower("attention"@) =~= "attention"@);
}

/// Whether a wake waits for its allocation since `now`, for as long as it may, and has
/// made no report yet.
pub open spec fn waits_from(wake: WakeFlow<Seq<char>>, now: u64, wait_ms: u64, wake_requested: bool) -> bool {
    &&& wake.phase matches WakePhase::Saving { wait }
    &&& wait.started_at == now
    &&& wait.deadline == now + wait_ms
    &&& wait.wake_requested == wake_requested
    &&& wait.last_error is None
    &&& wait.last_progress_at is None
    &&& wait.last_progress_phase is None
}

/// The first look at an allocation decides. One that cannot go on is recorded and
/// refused, with nothing left in doubt. One that is there leads to the power state.
/// One that is on its way is waited for. For a server that sleeps a wake is asked
/// for, unless power is disabled. Without a look the start ends.
#[verifier::spinoff_prover]
pub proof fn first_sleep_status_decides(
    power_enabled: bool,
    wait_ms: u64,
    outcomes: Seq<Outcome>,
    n: int,
    server_uuid: Seq<char>,
)
    requires
        is_run(power_enabled, wait_ms, outcomes),
        0 <= n < outcomes.len(),
        asked(power_enabled, wait_ms, outcomes, n) == (PanelAction::ReadSleepStatus { server_uuid, limit_ms: None }),
        outcomes[n].1 + wait_ms <= u64::MAX,
    ensures
        outcomes[n].0 matches PanelEvent::SleepStatus { reply } && {
            let then = asked(power_enabled, wait_ms, outcomes, n + 1);
            match reply {
                Err(failure) => fails_with(then, failure),
                Ok(status) => match cannot_go_on(status) {
                    Some((error_class, message)) => then is SaveState && (n + 1 < outcomes.len() ==> ends_as(
                        asked(power_enabled, wait_ms, outcomes, n + 2),
                        error_class,
                        message,
                        ProviderMutation::Nothing,
                    )),
                    None => if is_allocated(status) {
                        &&& then == (PanelAction::<Seq<char>>::ReadResources { limit_ms: None })
                        &&& reached(power_enabled, wait_ms, outcomes.take(n + 1)).0.minecraft_address == (
                        match status.connection {
                            Some(connection) => if trim(connection).len() > 0 {
                                Some(trim(connection))
                            } else {
                                None
                            },
                            None => None,
                        })
                    } else if says_coming(status.phase) {
                        &&& then matches PanelAction::SaveState { artifact } && !artifact.wake_requested && artifact.phase
                            == Some(status.phase)
                        &&& reached(power_enabled, wait_ms, outcomes.take(n + 1)).0.phase matches StartPhase::Waking {
                            wake,
                            ..
                        } && waits_from(wake, outcomes[n].1, wait_ms, false)
                    } else if power_enabled {
                        then == (PanelAction::PostWake { server_uuid })
                    } else {
                        ends_as(
                            then,
                            "ProviderPowerDisabled"@,
                            "Pterodactyl power actions are disabled by configuration"@,
                            ProviderMutation::Nothing,
                        )
                    },
                },
            }
        },
{
    reveal(start_step);
    lemma_run_step(power_enabled, wait_ms, outcomes, n);
    let (flow, step) = reached(power_enabled, wait_ms, outcomes.take(n));
    lemma_pending(flow, step.action);
    lemma_waking(power_enabled, wait_ms, outcomes, n);
    if let PanelEvent::SleepStatus { reply: Ok(status) } = outcomes[n].0 {
        lemma_allocation_words(status);
    }
    if n + 1 < outcomes.len() {
        lemma_run_step(power_enabled, wait_ms, outcomes, n + 1);
    }
}

/// A wake is given as much time as the start.
#[verifier::opaque]
spec fn has_its_time(flow: StartFlow<Seq<char>>) -> bool {
    flow.phase matches StartPhase::Waking { wake, .. } ==> wake.wait_ms == flow.wait_ms
}

#[verifier::spinoff_prover]
proof fn lemma_waking_step(
    flow: StartFlow<Seq<char>>,
    action: PanelAction<Seq<char>>,
    event: PanelEvent<Seq<char>, Seq<u8>>,
    now: u64,
)
    requires
        waits_for(flow, action),
        answers(event, action),
        has_its_time(flow),
    ensures
        has_its_time(start_step(flow, event, now).0),
{
    reveal(start_step);
    reveal(has_its_time);
    lemma_phases(flow, action);
}

#[verifier::spinoff_prover]
proof fn lemma_waking(power_enabled: bool, wait_ms: u64, outcomes: Seq<Outcome>, n: int)
    requires
        is_run(power_enabled, wait_ms, outcomes),
        0 <= n <= outcomes.len(),
    ensures
        reached(power_enabled, wait_ms, outcomes.take(n)).0.phase matches StartPhase::Waking { wake, .. } ==> wake.wait_ms
            == wait_ms,
        has_its_time(reached(power_enabled, wait_ms, outcomes.take(n)).0),
    decreases n,
{
    lemma_run_step(power_enabled, wait_ms, outcomes, n);
    if n > 0 {
        lemma_waking(power_enabled, wait_ms, outcomes, n - 1);
        lemma_run_step(power_enabled, wait_ms, outcomes, n - 1);
        let (flow, step) = reached(power_enabled, wait_ms, outcomes.take(n - 1));
        lemma_waking_step(flow, step.action, outcomes[n - 1].0, outcomes[n - 1].1);
    }
    reveal(has_its_time);
}

/// The answer to a wake request decides. Any success is its acceptance, and the
/// allocation is waited for. Where the connection broke or the server erred, the
/// allocation is looked at for up to a minute. Any other answer, and a request that
/// was not sent, ends the start with nothing left in doubt.
#[verifier::spinoff_prover]
pub proof fn wake_answer_decides(
    power_enabled: bool,
    wait_ms: u64,
    outcomes: Seq<Outcome>,
    n: int,
    server_uuid: Seq<char>,
    reply: PostReply<Seq<char>, Seq<u8>>,
)
    requires
        is_run(power_enabled, wait_ms, outcomes),
        0 <= n < outcomes.len(),
        asked(power_enabled, wait_ms, outcomes, n) == (PanelAction::PostWake { server_uuid }),
        outcomes[n].0 == (PanelEvent::<Seq<char>, Seq<u8>>::Posted { reply }),
        outcomes[n].1 < u64::MAX,
        outcomes[n].1 + wait_ms <= u64::MAX,
    ensures
        ({
            let then = asked(power_enabled, wait_ms, outcomes, n + 1);
            let look = PanelAction::ReadSleepStatus {
                server_uuid,
                limit_ms: Some(minute_from(outcomes[n].1) as u64),
            };
            match reply {
                PostReply::NotSent { failure } => fails_with(then, failure),
                PostReply::Broken => then == look,
                PostReply::Answered { status, .. } => if 200 <= status < 300 {
                    &&& then matches PanelAction::SaveState { artifact } && artifact.wake_requested
                    &&& reached(power_enabled, wait_ms, outcomes.take(n + 1)).0.phase matches StartPhase::Waking { wake, .. }
                        && waits_from(wake, outcomes[n].1, wait_ms, true)
                } else if 500 <= status < 600 {
                    then == look
                } else {
                    then matches PanelAction::Finish { end: Err(failure) } && failure.uncertain_mutation
                        == ProviderMutation::Nothing && failure.retryable == (status == 429)
                },
            }
        }),
{
    reveal(start_step);
    lemma_run_step(power_enabled, wait_ms, outcomes, n);
    let (flow, step) = reached(power_enabled, wait_ms, outcomes.take(n));
    lemma_pending(flow, step.action);
    lemma_waking(power_enabled, wait_ms, outcomes, n);
    lemma_posted_wakes(power_enabled, wait_ms, outcomes, n);
}

/// A wake speaks of one server.
#[verifier::opaque]
spec fn speaks_of_its_server(flow: StartFlow<Seq<char>>, action: PanelAction<Seq<char>>) -> bool {
    action matches PanelAction::PostWake { server_uuid } ==> (flow.phase matches StartPhase::Waking { wake, .. }
        ==> wake.server_uuid == server_uuid)
}

#[verifier::spinoff_prover]
proof fn lemma_posted_wakes(power_enabled: bool, wait_ms: u64, outcomes: Seq<Outcome>, n: int)
    requires
        is_run(power_enabled, wait_ms, outcomes),
        0 <= n <= outcomes.len(),
    ensures
        asked(power_enabled, wait_ms, outcomes, n) matches PanelAction::PostWake { server_uuid } ==> (reached(
            power_enabled,
            wait_ms,
            outcomes.take(n),
        ).0.phase matches StartPhase::Waking { wake, .. } ==> wake.server_uuid == server_uuid),
{
    if n > 0 {
        lemma_run_step(power_enabled, wait_ms, outcomes, n - 1);
        let (flow, step) = reached(power_enabled, wait_ms, outcomes.take(n - 1));
        lemma_posted_wake_step(flow, step.action, outcomes[n - 1].0, outcomes[n - 1].1);
        reveal(speaks_of_its_server);
    } else {
        assert(outcomes.take(0) =~= Seq::<Outcome>::empty());
    }
}

#[verifier::spinoff_prover]
proof fn lemma_posted_wake_step(
    flow: StartFlow<Seq<char>>,
    action: PanelAction<Seq<char>>,
    event: PanelEvent<Seq<char>, Seq<u8>>,
    now: u64,
)
    requires
        waits_for(flow, action),
        answers(event, action),
    ensures
        speaks_of_its_server(start_step(flow, event, now).0, start_step(flow, event, now).1.action),
{
    reveal(start_step);
    reveal(speaks_of_its_server);
    lemma_phases(flow, action);
}

/// A look at a wake request in doubt decides. A server that is allocated, or on its
/// way, was woken, and the allocation is waited for. Another state, or a look that
/// may be repeated, is followed by another look after five seconds, twelve looks in
/// all and no longer than the minute lasts. Otherwise the start ends, and the doubt
/// about the wake stays.
#[verifier::spinoff_prover]
pub proof fn confirming_look_decides(
    wake: WakeFlow<Seq<char>>,
    doubt: WakeDoubt<Seq<char>>,
    event: PanelEvent<Seq<char>, Seq<u8>>,
    now: u64,
)
    requires
        wake.phase == (WakePhase::Confirming { doubt }),
        event is SleepStatus || event is TimedOut,
        now + wake.wait_ms <= u64::MAX,
    ensures
        ({
            let step = wake_step(wake, event, now);
            match event {
                PanelEvent::SleepStatus { reply } => {
                    if reply matches Ok(status) && (is_allocated(status) || says_coming(status.phase) || says(
                        status.phase,
                        "attention"@,
                    )) {
                        step.phase matches WakePhase::Saving { wait } && wait.wake_requested && wait.last_status
                            == doubt.status && wait.deadline == now + wake.wait_ms && wait.last_error is None
                    } else if reply matches Err(failure) && !failure.retryable {
                        step.next matches WakeNext::Ended { end: Err(failed) } && if reply->Err_0.error_class
                            == "ProviderWakeUnconfirmed"@ {
                            failed == doubt.failure
                        } else {
                            failed == (ProviderStartFailure {
                                uncertain_mutation: ProviderMutation::WakeAllocation,
                                ..reply->Err_0
                            })
                        }
                    } else if doubt.attempt < 11 && now < doubt.deadline {
                        &&& step.next == (WakeNext::<Seq<char>>::Ask {
                            action: PanelAction::Pause {
                                pause_ms: if doubt.deadline - now < 5_000 {
                                    (doubt.deadline - now) as u64
                                } else {
                                    5_000
                                },
                            },
                        })
                        &&& step.phase == (WakePhase::ConfirmPause {
                            doubt: WakeDoubt { attempt: (doubt.attempt + 1) as u64, ..doubt },
                        })
                    } else {
                        step.next == (WakeNext::<Seq<char>>::Ended { end: Err(doubt.failure) })
                    }
                },
                _ => step.next == (WakeNext::<Seq<char>>::Ended { end: Err(doubt.failure) }),
            }
        }),
{
    if let PanelEvent::SleepStatus { reply: Ok(status) } = event {
        lemma_allocation_words(status);
    }
}

/// After the pause between two looks the allocation is looked at again, for as long
/// as the minute lasts.
#[verifier::spinoff_prover]
pub proof fn confirming_goes_on_after_its_pause(wake: WakeFlow<Seq<char>>, doubt: WakeDoubt<Seq<char>>, now: u64)
    requires
        wake.phase == (WakePhase::ConfirmPause { doubt }),
    ensures
        ({
            let step = wake_step(wake, PanelEvent::Paused, now);
            if now < doubt.deadline {
                &&& step.phase == (WakePhase::Confirming { doubt })
                &&& step.next == (WakeNext::Ask {
                    action: PanelAction::ReadSleepStatus {
                        server_uuid: wake.server_uuid,
                        limit_ms: Some((doubt.deadline - now) as u64),
                    },
                })
            } else {
                step.next == (WakeNext::<Seq<char>>::Ended { end: Err(doubt.failure) })
            }
        }),
{
}

/// Where a wake is left in doubt, the looks begin at the first and have a minute,
/// and the start remembers that the server may have been woken.
#[verifier::spinoff_prover]
pub proof fn doubtful_wakes_are_verified_for_a_minute(
    wake: WakeFlow<Seq<char>>,
    status: PlaySleepStatus<Seq<char>>,
    reply: PostReply<Seq<char>, Seq<u8>>,
    now: u64,
)
    requires
        wake.phase == (WakePhase::Posting { status }),
        now < u64::MAX,
        reply matches PostReply::Answered { status, .. } ==> 500 <= status < 600,
        !(reply is NotSent),
    ensures
        wake_step(wake, PanelEvent::Posted { reply }, now).phase matches WakePhase::Confirming { doubt }
            && doubt.attempt == 0 && doubt.deadline == now + minute_from(now) && doubt.status == status
            && doubt.failure.uncertain_mutation == ProviderMutation::WakeAllocation && doubt.failure.error_class == (
        if reply is Broken {
            "ProviderWakeAmbiguous"@
        } else {
            "ProviderUnavailable"@
        }),
{
}

/// A look in the course of a wait is recorded and then decides. An allocation that
/// cannot go on ends the start, which may have woken the server. One that is there
/// ends the wait with the address that the host told. Where the time is up, the
/// wait is given up. Otherwise it is looked at again after ten seconds, or when the
/// time is up.
#[verifier::spinoff_prover]
pub proof fn waiting_look_decides(
    wake: WakeFlow<Seq<char>>,
    wait: AllocationWait<Seq<char>>,
    path: Option<Seq<char>>,
    now: u64,
)
    requires
        wake.phase == (WakePhase::Saving { wait }),
    ensures
        ({
            let step = wake_step(wake, PanelEvent::Saved { path }, now);
            let status = wait.last_status;
            match cannot_go_on(status) {
                Some((error_class, message)) => step.next matches WakeNext::Ended { end: Err(failure) }
                    && failure.error_class == error_class && failure.message == message && failure.uncertain_mutation
                    == ProviderMutation::WakeAllocation && failure.detail_artifact_path == path,
                None => if is_allocated(status) {
                    step.next matches WakeNext::Ended { end: Ok(allocation) } && allocation.status == status
                        && allocation.wake_requested == wait.wake_requested && allocation.minecraft_address == (
                    match status.connection {
                        Some(connection) => if trim(connection).len() > 0 {
                            Some(trim(connection))
                        } else {
                            None
                        },
                        None => None,
                    })
                } else if now >= wait.deadline {
                    step.phase == (WakePhase::GivingUp { detail: timeout_detail(status, wait.last_error) }) && (
                    step.next matches WakeNext::Ask { action } && action is SaveState)
                } else {
                    &&& step.next == (WakeNext::<Seq<char>>::Ask {
                        action: PanelAction::Pause {
                            pause_ms: if wait.deadline - now < 10_000 {
                                (wait.deadline - now) as u64
                            } else {
                                10_000
                            },
                        },
                    })
                    &&& step.phase matches WakePhase::Pausing { wait: next }
                    &&& next.last_status == status
                    &&& next.deadline == wait.deadline
                    &&& next.wake_requested == wait.wake_requested
                    &&& next.last_error == wait.last_error
                    &&& next.started_at == wait.started_at
                },
            }
        }),
{
    lemma_allocation_words(wait.last_status);
}

/// A wait looks again after its pause, unless the time is up. What it then sees
/// takes the place of what it saw; a look that may be repeated is remembered as the
/// last error; a look that takes too long ends the wait, and any other failure ends
/// the start.
#[verifier::spinoff_prover]
pub proof fn waiting_looks_again(
    wake: WakeFlow<Seq<char>>,
    wait: AllocationWait<Seq<char>>,
    event: PanelEvent<Seq<char>, Seq<u8>>,
    now: u64,
)
    ensures
        ({
            let step = wake_step(WakeFlow { phase: WakePhase::Pausing { wait }, ..wake }, PanelEvent::Paused, now);
            if now < wait.deadline {
                &&& step.phase == (WakePhase::Polling { wait })
                &&& step.next == (WakeNext::Ask {
                    action: PanelAction::ReadSleepStatus {
                        server_uuid: wake.server_uuid,
                        limit_ms: Some((wait.deadline - now) as u64),
                    },
                })
            } else {
                step.phase is GivingUp
            }
        }),
        ({
            let step = wake_step(WakeFlow { phase: WakePhase::Polling { wait }, ..wake }, event, now);
            match event {
                PanelEvent::SleepStatus { reply: Ok(status) } => {
                    &&& step.phase == (WakePhase::Saving {
                        wait: AllocationWait { last_status: status, last_error: None, ..wait },
                    })
                    &&& step.next matches WakeNext::Ask { action: PanelAction::SaveState { artifact } }
                    &&& artifact.phase == Some(status.phase)
                    &&& artifact.wake_requested == wait.wake_requested
                    &&& artifact.last_error is None
                },
                PanelEvent::SleepStatus { reply: Err(failure) } => if failure.retryable {
                    step.phase == (WakePhase::Saving {
                        wait: AllocationWait { last_error: Some(failure.message), ..wait },
                    })
                } else {
                    step.next == (WakeNext::<Seq<char>>::Ended { end: Err(failure) })
                },
                PanelEvent::TimedOut => step.phase == (WakePhase::GivingUp {
                    detail: timeout_detail(wait.last_status, wait.last_error),
                }),
                _ => true,
            }
        }),
{
}

/// A wait that is given up ends the start, which may have woken the server.
#[verifier::spinoff_prover]
pub proof fn given_up_waits_end_the_start(
    wake: WakeFlow<Seq<char>>,
    detail: Seq<char>,
    path: Option<Seq<char>>,
    now: u64,
)
    requires
        wake.phase == (WakePhase::GivingUp { detail }),
    ensures
        wake_step(wake, PanelEvent::Saved { path }, now).next matches WakeNext::Ended { end: Err(failure) }
            && failure.error_class == "ProviderAllocationTimeout"@ && failure.message == detail
            && failure.uncertain_mutation == ProviderMutation::WakeAllocation && failure.detail_artifact_path == path,
{
}

/// A woken server is reached where its host told: the start goes on to the power
/// state and keeps the address.
#[verifier::spinoff_prover]
pub proof fn allocations_lead_to_the_power_state(
    flow: StartFlow<Seq<char>>,
    event: PanelEvent<Seq<char>, Seq<u8>>,
    now: u64,
)
    requires
        flow.phase is Waking,
        wake_step(flow.phase->wake, event, now).next is Ended,
    ensures
        wake_step(flow.phase->wake, event, now).next matches WakeNext::Ended { end } && match end {
            Ok(allocation) => {
                let (next, step) = start_step(flow, event, now);
                &&& step.action == (PanelAction::<Seq<char>>::ReadResources { limit_ms: None })
                &&& next.minecraft_address == allocation.minecraft_address
                &&& next.allocation == Some(allocation)
                &&& next.artifact_path == flow.artifact_path
                &&& next.is_limbo == flow.is_limbo
            },
            Err(failure) => fails_with(start_step(flow, event, now).1.action, failure),
        },
{
    reveal(start_step);
}

/// What a start knows of the server is told at its end: the address at which it is
/// reached, and the last record.
#[verifier::spinoff_prover]
pub proof fn ends_tell_the_address(
    flow: StartFlow<Seq<char>>,
    event: PanelEvent<Seq<char>, Seq<u8>>,
    now: u64,
)
    requires
        start_awaits(flow, event),
        flow.phase is Resources || flow.phase is ResourcesSaved || flow.phase is StoppingPause
            || flow.phase is StoppingResources || flow.phase is PowerSaved || flow.phase is Powering
            || flow.phase is PoweredSaved,
    ensures
        ({
            let (next, step) = start_step(flow, event, now);
            match step.action {
                PanelAction::Finish { end: Ok(result) } => result.minecraft_address == flow.minecraft_address
                    && result.screenshot_path is None,
                PanelAction::Finish { end: Err(failure) } => failure.minecraft_address == flow.minecraft_address,
                _ => next.minecraft_address == flow.minecraft_address && next.allocation == flow.allocation
                    && next.is_limbo == flow.is_limbo,
            }
        }),
{
    reveal(start_step);
}

/// A wait reports at first, whenever the phase changes, and else every half minute.
pub proof fn waits_report_every_half_minute(wait: AllocationWait<Seq<char>>, now: u64)
    ensures
        wait.last_progress_phase is None || wait.last_progress_at is None ==> report_due(wait, now),
        wait.last_progress_phase != Some(wait.last_status.phase) ==> report_due(wait, now),
        wait.last_progress_phase == Some(wait.last_status.phase) ==> (wait.last_progress_at matches Some(at) ==> (
        report_due(wait, now) <==> now >= at + 30_000)),
{
}

/// The stages of a start are reported: access at first, the allocation when it is asked
/// for, and power before it is.
#[verifier::spinoff_prover]
pub proof fn stages_are_reported(
    flow: StartFlow<Seq<char>>,
    event: PanelEvent<Seq<char>, Seq<u8>>,
    now: u64,
)
    requires
        start_awaits(flow, event),
    ensures
        opening_step().action is ReadDetails && (opening_step().report matches Some(report) && report.stage
            == ProviderProgressStage::SolvingChallenge),
        start_step(flow, event, now).1.action is PostWake ==> (start_step(flow, event, now).1.report matches Some(report)
            && report.stage == ProviderProgressStage::RequestingAllocation),
        start_step(flow, event, now).0.phase is PowerSaved ==> (start_step(flow, event, now).1.report matches Some(report)
            && report.stage == ProviderProgressStage::RequestingPower),
{
    reveal(start_step);
}

/// What is on record of a power request is the server's state, whether the request was
/// accepted, and the allocation that came before it.
pub proof fn power_records_tell_of_the_allocation(
    state: Seq<char>,
    is_suspended: bool,
    is_limbo: bool,
    power_requested: bool,
    allocation: Option<AllocationResult<Seq<char>>>,
)
    ensures
        ({
            let record = power_record(state, is_suspended, is_limbo, power_requested, allocation);
            &&& record.current_state == Some(state)
            &&& record.is_suspended == Some(is_suspended)
            &&& record.is_limbo == Some(is_limbo)
            &&& record.power_requested == power_requested
            &&& record.provider == "pterodactyl"@
            &&& record.workflow_stage == "power_start"@
            &&& record.last_error is None
            &&& allocation is None ==> record.phase is None && !record.wake_requested
            &&& allocation matches Some(made) ==> record.phase == Some(made.status.phase) && record.connection
                == made.status.connection && record.wake_requested == made.wake_requested && record.position
                == made.status.position && record.blocked == made.status.blocked && record.enabled
                == made.status.enabled
        }),
{
}

// ---------------------------------------------------------------------------
// What a start remembers
// ---------------------------------------------------------------------------

/// Whether the server is in limbo is known from the last listing, and stands in every
/// record of its power state.
#[verifier::spinoff_prover]
pub proof fn limbo_is_known_from_the_listing(
    flow: StartFlow<Seq<char>>,
    event: PanelEvent<Seq<char>, Seq<u8>>,
    now: u64,
)
    requires
        start_awaits(flow, event),
    ensures
        ({
            let (next, step) = start_step(flow, event, now);
            &&& event matches PanelEvent::Details { reply: Ok(details) } ==> next.is_limbo == (details.is_limbo || (
            flow.phase is ConflictDetails && flow.is_limbo))
            &&& !(event matches PanelEvent::Details { reply: Ok(_) }) ==> next.is_limbo == flow.is_limbo
            &&& (next.phase is ResourcesSaved || next.phase is PowerSaved || next.phase is PoweredSaved) ==> (
            step.action matches PanelAction::SaveState { artifact } && artifact.is_limbo == Some(flow.is_limbo))
            &&& next.phase is PoweredSaved ==> (step.action matches PanelAction::SaveState { artifact }
                && artifact.power_requested && artifact.current_state == Some("starting"@))
            &&& next.phase is PowerSaved ==> (step.action matches PanelAction::SaveState { artifact }
                && !artifact.power_requested)
        }),
{
    reveal(start_step);
}

/// The last record that was written is told at the end of a start. A record of the power
/// request that could not be written leaves the one before it in place; any other takes
/// its place.
#[verifier::spinoff_prover]
pub proof fn last_records_are_told(
    flow: StartFlow<Seq<char>>,
    event: PanelEvent<Seq<char>, Seq<u8>>,
    now: u64,
)
    requires
        start_awaits(flow, event),
    ensures
        ({
            let (next, step) = start_step(flow, event, now);
            match flow.phase {
                StartPhase::DetailsSaved { .. } | StartPhase::ResourcesSaved { .. } => event matches PanelEvent::Saved {
                    path,
                } && next.artifact_path == path,
                StartPhase::PowerSaved { .. } => event matches PanelEvent::Saved { path } && next.artifact_path == (
                if path is Some {
                    path
                } else {
                    flow.artifact_path
                }),
                StartPhase::PoweredSaved => event matches PanelEvent::Saved { path } && (step.action matches PanelAction::Finish {
                    end: Ok(result),
                } && result.detail_artifact_path == (if path is Some {
                    path
                } else {
                    flow.artifact_path
                })),
                StartPhase::Powering { .. } | StartPhase::Waking { .. } => {
                    &&& next.artifact_path == flow.artifact_path
                    &&& step.action matches PanelAction::Finish { end: Err(failure) } ==> failure.detail_artifact_path
                        == flow.artifact_path
                },
                _ => next.artifact_path == flow.artifact_path,
            }
        }),
{
    reveal(start_step);
}

/// The listing is on record with its status, or as unknown where it has none.
#[verifier::spinoff_prover]
pub proof fn listings_are_recorded(
    flow: StartFlow<Seq<char>>,
    details: PterodactylServer<Seq<char>>,
    now: u64,
)
    requires
        flow.phase is Details,
    ensures
        start_step(flow, PanelEvent::Details { reply: Ok(details) }, now).1.action matches PanelAction::SaveState { artifact }
            && artifact.current_state == Some(
            match details.status {
                Some(status) => status,
                None => "unknown"@,
            },
        ) && artifact.provider == "pterodactyl"@ && artifact.workflow_stage == "provider_state"@,
{
    reveal(start_step);
}

/// A wait that is given up says where the allocation stood, and the last error that may
/// be to blame.
pub proof fn given_up_waits_say_where_they_stood(
    wake: WakeFlow<Seq<char>>,
    wait: AllocationWait<Seq<char>>,
    now: u64,
)
    requires
        now >= wait.deadline,
    ensures
        ({
            let told = "Provider allocation did not become active before the configured deadline ("@ + status_detail(
                wait.last_status,
            ) + ")"@;
            let step = wake_step(WakeFlow { phase: WakePhase::Pausing { wait }, ..wake }, PanelEvent::Paused, now);
            &&& step.phase matches WakePhase::GivingUp { detail }
            &&& wait.last_error is None ==> detail == told
            &&& wait.last_error matches Some(error) ==> detail == told + "; last transient error: "@ + error
            &&& step.next matches WakeNext::Ask { action: PanelAction::SaveState { artifact } }
            &&& artifact.last_error == wait.last_error
            &&& artifact.wake_requested == wait.wake_requested
            &&& artifact.phase == Some(wait.last_status.phase)
        }),
{
}

/// Where an allocation stands is told by its phase, its place in the queue, the estimate,
/// and whether it is blocked, as far as they are known.
pub proof fn allocations_are_told_by_what_is_known(
    phase: Seq<char>,
    connection: Option<Seq<char>>,
    position: u64,
    total: u64,
    minutes: u64,
)
    ensures
        ({
            let plain = PlaySleepStatus {
                phase,
                connection,
                position: None,
                total: None,
                estimated_minutes: None,
                blocked: None,
                enabled: None,
            };
            let name = "phase "@ + lower(trim(phase));
            &&& status_detail(plain) == name
            &&& status_detail(PlaySleepStatus { position: Some(position), ..plain }) == name + ", "@ + ("queue position "@
                + decimal(position as nat))
            &&& status_detail(PlaySleepStatus { position: Some(position), total: Some(total), ..plain }) == name + ", "@ + (
            "queue "@ + decimal(position as nat) + "/"@ + decimal(total as nat))
            &&& status_detail(PlaySleepStatus { estimated_minutes: Some(minutes), ..plain }) == name + ", "@ + (
            "estimated "@ + decimal(minutes as nat) + " minutes"@)
            &&& status_detail(PlaySleepStatus { blocked: Some(true), ..plain }) == name + ", "@ + "blocked"@
            &&& status_detail(
                PlaySleepStatus {
                    position: Some(position),
                    total: Some(total),
                    estimated_minutes: Some(minutes),
                    blocked: Some(true),
                    ..plain
                },
            ) == name + ", "@ + ("queue "@ + decimal(position as nat) + "/"@ + decimal(total as nat)) + ", "@ + (
            "estimated "@ + decimal(minutes as nat) + " minutes"@) + ", "@ + "blocked"@
        }),
{
    let name = "phase "@ + lower(trim(phase));
    let whole = "queue "@ + decimal(position as nat) + "/"@ + decimal(total as nat);
    let place = "queue position "@ + decimal(position as nat);
    let guess = "estimated "@ + decimal(minutes as nat) + " minutes"@;
    let none = Seq::<Seq<char>>::empty();
    assert(seq![name] + none + none + none =~= seq![name]);
    lemma_joined_two(name, place);
    assert(seq![name] + seq![place] + none + none =~= seq![name, place]);
    lemma_joined_two(name, whole);
    assert(seq![name] + seq![whole] + none + none =~= seq![name, whole]);
    lemma_joined_two(name, guess);
    assert(seq![name] + none + seq![guess] + none =~= seq![name, guess]);
    lemma_joined_two(name, "blocked"@);
    assert(seq![name] + none + none + seq!["blocked"@] =~= seq![name, "blocked"@]);
    let all = seq![name, whole, guess, "blocked"@];
    assert(seq![name] + seq![whole] + seq![guess] + seq!["blocked"@] =~= all);
    assert(all.drop_last() =~= seq![name, whole, guess]);
    assert(all.drop_last().drop_last() =~= seq![name, whole]);
    assert(join(all, ", "@) == join(all.drop_last(), ", "@) + ", "@ + "blocked"@);
    assert(join(all.drop_last(), ", "@) == join(seq![name, whole], ", "@) + ", "@ + guess);
}

proof fn lemma_joined_two(first: Seq<char>, second: Seq<char>)
    ensures
        join(seq![first, second], ", "@) == first + ", "@ + second,
{
    let both = seq![first, second];
    assert(both.drop_last() =~= seq![first]);
    assert(join(seq![first], ", "@) == first);
}

/// A report of a wait says where the allocation stands and how long it has been waited
/// for, and is made where one is due, with the time and the phase kept.
pub proof fn reports_say_how_long_was_waited(
    wake: WakeFlow<Seq<char>>,
    wait: AllocationWait<Seq<char>>,
    path: Option<Seq<char>>,
    now: u64,
)
    requires
        wake.phase == (WakePhase::Saving { wait }),
        cannot_go_on(wait.last_status) is None,
        now >= wait.started_at,
    ensures
        ({
            let step = wake_step(wake, PanelEvent::Saved { path }, now);
            &&& step.report is Some <==> report_due(wait, now)
            &&& step.report matches Some(report) ==> report.stage == ProviderProgressStage::WaitingForAllocation
                && report.detail == status_detail(wait.last_status) + ", waiting "@ + duration_text(
                (now - wait.started_at) as nat,
            )
            &&& step.phase matches WakePhase::Pausing { wait: next } ==> if report_due(wait, now) {
                next.last_progress_at == Some(now) && next.last_progress_phase == Some(wait.last_status.phase)
            } else {
                next.last_progress_at == wait.last_progress_at && next.last_progress_phase == wait.last_progress_phase
            }
        }),
{
    lemma_allocation_words(wait.last_status);
}

} // verus!
