//! Why every start through the panel ends, whatever the panel answers.

use vstd::prelude::*;
use crate::pterodactyl::allocation::{
    wake_awaits, wake_step, WakeFlow, WakeNext, WakePhase, SUBMISSION_VERIFY_ATTEMPTS,
};
use crate::pterodactyl::panel::PanelEvent;
use crate::pterodactyl::power::{power_awaits, power_step, PowerNext, PowerPhase};
use crate::pterodactyl::start::{
    fresh_start, start_awaits, start_step, StartFlow, StartPhase, STOPPING_WAIT_ATTEMPTS,
};

verus! {

/// How many actions a power request asks for at most before it is over.
pub open spec fn power_left(phase: PowerPhase<Seq<char>>) -> int {
    match phase {
        PowerPhase::Posting => 2 * SUBMISSION_VERIFY_ATTEMPTS + 1,
        PowerPhase::Verifying { doubt } => 2 * (SUBMISSION_VERIFY_ATTEMPTS - doubt.attempt),
        PowerPhase::VerifyPause { doubt } => 2 * (SUBMISSION_VERIFY_ATTEMPTS - doubt.attempt) + 1,
        PowerPhase::Over => 0,
    }
}

/// Whether a power request is within its number of looks.
pub open spec fn power_within(phase: PowerPhase<Seq<char>>) -> bool {
    match phase {
        PowerPhase::Posting | PowerPhase::Over => true,
        PowerPhase::Verifying { doubt } => doubt.attempt < SUBMISSION_VERIFY_ATTEMPTS,
        PowerPhase::VerifyPause { doubt } => 0 < doubt.attempt < SUBMISSION_VERIFY_ATTEMPTS,
    }
}

proof fn lemma_power_ends(phase: PowerPhase<Seq<char>>, event: PanelEvent<Seq<char>, Seq<u8>>, now: u64)
    requires
        power_awaits(phase, event),
        power_within(phase),
    ensures
        power_within(power_step(phase, event, now).phase),
        0 <= power_left(power_step(phase, event, now).phase) < power_left(phase),
        power_left(phase) <= 2 * SUBMISSION_VERIFY_ATTEMPTS + 1,
        power_step(phase, event, now).next is Ask ==> power_left(power_step(phase, event, now).phase) > 0,
{
}

/// How far a wake is from its end, pauses of the wait for an allocation aside.
pub open spec fn wake_left(phase: WakePhase<Seq<char>>) -> int {
    match phase {
        WakePhase::FirstStatus => 2 * SUBMISSION_VERIFY_ATTEMPTS + 6,
        WakePhase::Posting { .. } => 2 * SUBMISSION_VERIFY_ATTEMPTS + 5,
        WakePhase::ConfirmPause { doubt } => 2 * (SUBMISSION_VERIFY_ATTEMPTS - doubt.attempt) + 5,
        WakePhase::Confirming { doubt } => 2 * (SUBMISSION_VERIFY_ATTEMPTS - doubt.attempt) + 4,
        WakePhase::Pausing { .. } => 4,
        WakePhase::Polling { .. } => 3,
        WakePhase::Saving { .. } => 2,
        WakePhase::Refused { .. } | WakePhase::GivingUp { .. } => 1,
        WakePhase::Over => 0,
    }
}

/// Whether a wake is within its number of looks.
pub open spec fn wake_within(phase: WakePhase<Seq<char>>) -> bool {
    match phase {
        WakePhase::Confirming { doubt } => doubt.attempt < SUBMISSION_VERIFY_ATTEMPTS,
        WakePhase::ConfirmPause { doubt } => 0 < doubt.attempt < SUBMISSION_VERIFY_ATTEMPTS,
        _ => true,
    }
}

/// The deadline of the wait that a wake is in.
pub open spec fn wake_deadline(phase: WakePhase<Seq<char>>) -> Option<u64> {
    match phase {
        WakePhase::Pausing { wait } | WakePhase::Polling { wait } | WakePhase::Saving { wait } => Some(
            wait.deadline,
        ),
        _ => None,
    }
}

proof fn lemma_wake_ends(flow: WakeFlow<Seq<char>>, event: PanelEvent<Seq<char>, Seq<u8>>, now: u64)
    requires
        wake_awaits(flow, event),
        wake_within(flow.phase),
    ensures
        wake_within(wake_step(flow, event, now).phase),
        wake_step(flow, event, now).next is Ask ==> wake_left(wake_step(flow, event, now).phase) > 0,
        wake_left(flow.phase) <= 2 * SUBMISSION_VERIFY_ATTEMPTS + 6,
        match wake_step(flow, event, now).phase {
            WakePhase::Pausing { wait } => now < wait.deadline && wake_deadline(flow.phase) == Some(
                wait.deadline,
            ),
            phase => 0 <= wake_left(phase) < wake_left(flow.phase),
        },
{
}

/// How far a start is from its end, pauses of the wait for an allocation aside.
pub open spec fn start_left(flow: StartFlow<Seq<char>>) -> int {
    let waking = 2 * SUBMISSION_VERIFY_ATTEMPTS + 7;
    let deciding = 2 * SUBMISSION_VERIFY_ATTEMPTS + 5;
    let stopping = deciding + 3 * STOPPING_WAIT_ATTEMPTS + 1;
    match flow.phase {
        StartPhase::Details => stopping + 2 * waking + 4,
        StartPhase::DetailsSaved { .. } => stopping + 2 * waking + 3,
        StartPhase::Waking { wake, after_conflict: false } => stopping + waking + 2 + wake_left(
            wake.phase,
        ),
        StartPhase::Resources { after_conflict: false } => stopping + waking + 2,
        StartPhase::ConflictDetails { .. } => stopping + waking + 1,
        StartPhase::Waking { wake, after_conflict: true } => stopping + wake_left(wake.phase),
        StartPhase::Resources { after_conflict: true } => stopping,
        StartPhase::ResourcesSaved { waits, .. } => deciding + 3 * (STOPPING_WAIT_ATTEMPTS - waits),
        StartPhase::StoppingPause { waits } => deciding + 3 * (STOPPING_WAIT_ATTEMPTS - waits) + 2,
        StartPhase::StoppingResources { waits } => deciding + 3 * (STOPPING_WAIT_ATTEMPTS - waits) + 1,
        StartPhase::PowerSaved { .. } => 2 * SUBMISSION_VERIFY_ATTEMPTS + 4,
        StartPhase::Powering { power, .. } => 1 + power_left(power),
        StartPhase::PoweredSaved => 1,
        StartPhase::Over => 0,
    }
}

/// Whether a start is within its numbers of looks and waits.
pub open spec fn start_within(flow: StartFlow<Seq<char>>) -> bool {
    match flow.phase {
        StartPhase::Waking { wake, .. } => wake_within(wake.phase),
        StartPhase::ResourcesSaved { waits, .. } => waits <= STOPPING_WAIT_ATTEMPTS,
        StartPhase::StoppingPause { waits } | StartPhase::StoppingResources { waits } => 0 < waits
            <= STOPPING_WAIT_ATTEMPTS,
        StartPhase::Powering { power, .. } => power_within(power),
        _ => true,
    }
}

/// Every step brings a start nearer to its end, but for a pause in the wait for
/// an allocation, which is only made before the deadline of that wait and leaves
/// the deadline as it is. A start begins within its bounds and stays there, and
/// waits for an allocation at most twice, so it ends.
#[verifier::spinoff_prover]
#[verifier::rlimit(50)]
pub proof fn starts_end(
    flow: StartFlow<Seq<char>>,
    event: PanelEvent<Seq<char>, Seq<u8>>,
    now: u64,
)
    requires
        start_awaits(flow, event),
        start_within(flow),
    ensures
        forall|power_enabled: bool, wait_ms: u64| start_within(#[trigger] fresh_start(power_enabled, wait_ms)),
        start_within(start_step(flow, event, now).0),
        match start_step(flow, event, now).0.phase {
            StartPhase::Waking { wake: WakeFlow { phase: WakePhase::Pausing { wait }, .. }, .. } => {
                &&& now < wait.deadline
                &&& flow.phase matches StartPhase::Waking { wake: before, .. } && wake_deadline(
                    before.phase,
                ) == Some(wait.deadline)
            },
            _ => 0 <= start_left(start_step(flow, event, now).0) < start_left(flow),
        },
{
    reveal(start_step);
    match flow.phase {
        StartPhase::Waking { wake, after_conflict } => {
            lemma_wake_ends(wake, event, now);
        },
        StartPhase::Powering { is_suspended, power } => {
            lemma_power_ends(power, event, now);
        },
        _ => {},
    }
}

} // verus!
