//! Waking a server that its host has put to sleep, and waiting until the host
//! has allocated it.

use vstd::prelude::*;
use crate::provider::{
    failure_view, opt_progress, progress, provider_failure, ProviderMutation, ProviderProgress,
    ProviderProgressStage, ProviderStartFailure,
};
use crate::pterodactyl::panel::{
    allocation_record, allocation_state_artifact, PanelAction, PanelEvent, PostReply,
};
use crate::pterodactyl::{
    allocation_ready, allocation_status_detail, allocation_status_failure, allocation_timeout_detail,
    api_failure, classify_api_response, connection_address, is_challenge, minecraft_connection,
    reply_error, sleep_status_allocation_ready, sleep_status_confirms_wake, status_detail,
    status_failure, timeout_detail, wake_confirmed, AllocationResult, PlaySleepStatus,
};
use crate::terminal;
use crate::text;
use crate::text::opt_text;

verus! {

/// The pause between two looks at an allocation.
pub const ALLOCATION_WAIT_INTERVAL_MS: u64 = 10_000;

/// The longest silence between two reports on an allocation.
pub const ALLOCATION_PROGRESS_INTERVAL_MS: u64 = 30_000;

/// How often an unanswered request is verified.
pub const SUBMISSION_VERIFY_ATTEMPTS: u64 = 12;

/// The pause between two verifications.
pub const SUBMISSION_VERIFY_INTERVAL_MS: u64 = 5_000;

/// How long an unanswered request is verified at most.
pub const SUBMISSION_VERIFY_TIMEOUT_MS: u64 = 60_000;

/// What a wait for an allocation remembers.
#[verifier::ext_equal]
#[derive(Debug)]
pub struct AllocationWait<T = String> {
    pub last_status: PlaySleepStatus<T>,
    pub wake_requested: bool,
    pub last_error: Option<T>,
    pub last_progress_at: Option<u64>,
    pub last_progress_phase: Option<T>,
    pub started_at: u64,
    pub deadline: u64,
}

impl View for AllocationWait<String> {
    type V = AllocationWait<Seq<char>>;

    open spec fn view(&self) -> AllocationWait<Seq<char>> {
        AllocationWait {
            last_status: self.last_status@,
            wake_requested: self.wake_requested,
            last_error: opt_text(self.last_error),
            last_progress_at: self.last_progress_at,
            last_progress_phase: opt_text(self.last_progress_phase),
            started_at: self.started_at,
            deadline: self.deadline,
        }
    }
}

/// A wake request whose effect is being verified.
#[verifier::ext_equal]
#[derive(Debug)]
pub struct WakeDoubt<T = String> {
    pub status: PlaySleepStatus<T>,
    pub failure: ProviderStartFailure<T>,
    pub attempt: u64,
    pub deadline: u64,
}

impl View for WakeDoubt<String> {
    type V = WakeDoubt<Seq<char>>;

    open spec fn view(&self) -> WakeDoubt<Seq<char>> {
        WakeDoubt {
            status: self.status@,
            failure: self.failure@,
            attempt: self.attempt,
            deadline: self.deadline,
        }
    }
}

/// Where a wake stands: which outcome it waits for.
#[verifier::ext_equal]
#[derive(Debug)]
pub enum WakePhase<T = String> {
    /// The first look at the allocation.
    FirstStatus,
    /// The record of an allocation that cannot go on.
    Refused { error_class: T, message: T },
    /// The wake request.
    Posting { status: PlaySleepStatus<T> },
    /// A look that may confirm an unanswered wake request.
    Confirming { doubt: WakeDoubt<T> },
    /// The pause between two such looks.
    ConfirmPause { doubt: WakeDoubt<T> },
    /// The record of the allocation.
    Saving { wait: AllocationWait<T> },
    /// The pause between two looks at the allocation.
    Pausing { wait: AllocationWait<T> },
    /// A look at the allocation.
    Polling { wait: AllocationWait<T> },
    /// The record of an allocation that took too long.
    GivingUp { detail: T },
    /// Nothing: the wake is over.
    Over,
}

impl View for WakePhase<String> {
    type V = WakePhase<Seq<char>>;

    open spec fn view(&self) -> WakePhase<Seq<char>> {
        match *self {
            WakePhase::FirstStatus => WakePhase::FirstStatus,
            WakePhase::Refused { error_class, message } => WakePhase::Refused {
                error_class: error_class@,
                message: message@,
            },
            WakePhase::Posting { status } => WakePhase::Posting { status: status@ },
            WakePhase::Confirming { doubt } => WakePhase::Confirming { doubt: doubt@ },
            WakePhase::ConfirmPause { doubt } => WakePhase::ConfirmPause { doubt: doubt@ },
            WakePhase::Saving { wait } => WakePhase::Saving { wait: wait@ },
            WakePhase::Pausing { wait } => WakePhase::Pausing { wait: wait@ },
            WakePhase::Polling { wait } => WakePhase::Polling { wait: wait@ },
            WakePhase::GivingUp { detail } => WakePhase::GivingUp { detail: detail@ },
            WakePhase::Over => WakePhase::Over,
        }
    }
}

/// The wake of one server.
#[verifier::ext_equal]
#[derive(Debug)]
pub struct WakeFlow<T = String> {
    pub server_uuid: T,
    pub power_enabled: bool,
    pub wait_ms: u64,
    pub phase: WakePhase<T>,
}

impl View for WakeFlow<String> {
    type V = WakeFlow<Seq<char>>;

    open spec fn view(&self) -> WakeFlow<Seq<char>> {
        WakeFlow {
            server_uuid: self.server_uuid@,
            power_enabled: self.power_enabled,
            wait_ms: self.wait_ms,
            phase: self.phase@,
        }
    }
}

/// What a wake asks for, or how it ended.
#[verifier::ext_equal]
#[derive(Debug)]
pub enum WakeNext<T = String> {
    Ask { action: PanelAction<T> },
    Ended { end: Result<AllocationResult<T>, ProviderStartFailure<T>> },
}

impl View for WakeNext<String> {
    type V = WakeNext<Seq<char>>;

    open spec fn view(&self) -> WakeNext<Seq<char>> {
        match *self {
            WakeNext::Ask { action } => WakeNext::Ask { action: action@ },
            WakeNext::Ended { end: Ok(allocation) } => WakeNext::Ended { end: Ok(allocation@) },
            WakeNext::Ended { end: Err(failure) } => WakeNext::Ended { end: Err(failure@) },
        }
    }
}

/// A step of a wake.
#[verifier::ext_equal]
#[derive(Debug)]
pub struct WakeStep<T = String> {
    pub phase: WakePhase<T>,
    pub report: Option<ProviderProgress<T>>,
    pub next: WakeNext<T>,
}

impl View for WakeStep<String> {
    type V = WakeStep<Seq<char>>;

    open spec fn view(&self) -> WakeStep<Seq<char>> {
        WakeStep { phase: self.phase@, report: opt_progress(self.report), next: self.next@ }
    }
}

// ---------------------------------------------------------------------------
// What each step is
// ---------------------------------------------------------------------------

/// What a phase of a wake waits for the outcome of.
pub open spec fn wake_awaits(
    flow: WakeFlow<Seq<char>>,
    event: PanelEvent<Seq<char>, Seq<u8>>,
) -> bool {
    match flow.phase {
        WakePhase::FirstStatus => event is SleepStatus,
        WakePhase::Refused { .. } => event is Saved,
        WakePhase::Posting { .. } => event is Posted,
        WakePhase::Confirming { .. } => event is SleepStatus || event is TimedOut,
        WakePhase::ConfirmPause { .. } => event is Paused,
        WakePhase::Saving { .. } => event is Saved,
        WakePhase::Pausing { .. } => event is Paused,
        WakePhase::Polling { .. } => event is SleepStatus || event is TimedOut,
        WakePhase::GivingUp { .. } => event is Saved,
        WakePhase::Over => false,
    }
}

/// The time left until `deadline`.
pub open spec fn left(deadline: u64, now: u64) -> u64 {
    if deadline <= now {
        0
    } else {
        (deadline - now) as u64
    }
}

/// The smaller of the two.
pub open spec fn lesser(a: u64, b: u64) -> u64 {
    if a <= b {
        a
    } else {
        b
    }
}

/// The time `span` after `now`, or the last representable one.
pub open spec fn later(now: u64, span: u64) -> u64 {
    if now + span > u64::MAX {
        u64::MAX
    } else {
        (now + span) as u64
    }
}

/// The wake asks for `action` and waits in `phase`.
pub open spec fn wake_asks(phase: WakePhase<Seq<char>>, action: PanelAction<Seq<char>>) -> WakeStep<Seq<char>> {
    WakeStep { phase, report: None, next: WakeNext::Ask { action } }
}

/// The wake fails.
pub open spec fn wake_fails(failure: ProviderStartFailure<Seq<char>>) -> WakeStep<Seq<char>> {
    WakeStep { phase: WakePhase::Over, report: None, next: WakeNext::Ended { end: Err(failure) } }
}

/// The allocation that a ready status describes.
pub open spec fn allocated(
    status: PlaySleepStatus<Seq<char>>,
    wake_requested: bool,
) -> AllocationResult<Seq<char>> {
    AllocationResult { minecraft_address: connection_address(status), status, wake_requested }
}

/// The record of a wait is written.
pub open spec fn save_wait(wait: AllocationWait<Seq<char>>) -> WakeStep<Seq<char>> {
    wake_asks(
        WakePhase::Saving { wait },
        PanelAction::SaveState {
            artifact: allocation_record(wait.last_status, wait.wake_requested, wait.last_error),
        },
    )
}

/// The record of a wait that took too long is written.
pub open spec fn give_up(wait: AllocationWait<Seq<char>>) -> WakeStep<Seq<char>> {
    wake_asks(
        WakePhase::GivingUp { detail: timeout_detail(wait.last_status, wait.last_error) },
        PanelAction::SaveState {
            artifact: allocation_record(wait.last_status, wait.wake_requested, wait.last_error),
        },
    )
}

/// The wait for an allocation begins.
pub open spec fn begin_wait(
    status: PlaySleepStatus<Seq<char>>,
    wake_requested: bool,
    wait_ms: u64,
    now: u64,
) -> WakeStep<Seq<char>> {
    if now + wait_ms > u64::MAX {
        wake_fails(
            failure_view(
                "ProviderConfiguration"@,
                "The allocation timeout exceeded the supported duration"@,
                None,
                ProviderMutation::Nothing,
            ),
        )
    } else {
        save_wait(
            AllocationWait {
                last_status: status,
                wake_requested,
                last_error: None,
                last_progress_at: None,
                last_progress_phase: None,
                started_at: now,
                deadline: (now + wait_ms) as u64,
            },
        )
    }
}

/// Whether a wait is due for a report: it has made none, the phase is another
/// one, or the last report is half a minute old.
pub open spec fn report_due(wait: AllocationWait<Seq<char>>, now: u64) -> bool {
    match (wait.last_progress_phase, wait.last_progress_at) {
        (Some(phase), Some(at)) => phase != wait.last_status.phase || left(now, at)
            >= ALLOCATION_PROGRESS_INTERVAL_MS,
        _ => true,
    }
}

/// The report of a wait.
pub open spec fn wait_report(wait: AllocationWait<Seq<char>>, now: u64) -> ProviderProgress<Seq<char>> {
    ProviderProgress {
        stage: ProviderProgressStage::WaitingForAllocation,
        detail: status_detail(wait.last_status) + ", waiting "@ + terminal::duration_text(
            left(now, wait.started_at) as nat,
        ),
    }
}

/// The wait after its report, where one was due.
pub open spec fn reported(wait: AllocationWait<Seq<char>>, now: u64) -> AllocationWait<Seq<char>> {
    if report_due(wait, now) {
        AllocationWait {
            last_progress_at: Some(now),
            last_progress_phase: Some(wait.last_status.phase),
            ..wait
        }
    } else {
        wait
    }
}

/// The record of a wait has been written: fail, report, end, give up or pause.
pub open spec fn wait_saved(
    wait: AllocationWait<Seq<char>>,
    path: Option<Seq<char>>,
    now: u64,
) -> WakeStep<Seq<char>> {
    match status_failure(wait.last_status) {
        Some((error_class, message)) => wake_fails(
            failure_view(error_class, message, path, ProviderMutation::WakeAllocation),
        ),
        None => {
            let report = if report_due(wait, now) {
                Some(wait_report(wait, now))
            } else {
                None
            };
            let wait = reported(wait, now);
            if allocation_ready(wait.last_status) {
                WakeStep {
                    phase: WakePhase::Over,
                    report,
                    next: WakeNext::Ended { end: Ok(allocated(wait.last_status, wait.wake_requested)) },
                }
            } else if now >= wait.deadline {
                WakeStep { report, ..give_up(wait) }
            } else {
                WakeStep {
                    phase: WakePhase::Pausing { wait },
                    report,
                    next: WakeNext::Ask {
                        action: PanelAction::Pause {
                            pause_ms: lesser(ALLOCATION_WAIT_INTERVAL_MS, left(wait.deadline, now)),
                        },
                    },
                }
            }
        },
    }
}

/// A look that may confirm an unanswered wake request, while time is left.
pub open spec fn confirm_look(
    server_uuid: Seq<char>,
    doubt: WakeDoubt<Seq<char>>,
    now: u64,
) -> WakeStep<Seq<char>> {
    if left(doubt.deadline, now) == 0 {
        wake_fails(doubt.failure)
    } else {
        wake_asks(
            WakePhase::Confirming { doubt },
            PanelAction::ReadSleepStatus { server_uuid, limit_ms: Some(left(doubt.deadline, now)) },
        )
    }
}

/// A look did not settle the matter: pause before the next, or keep the doubt.
pub open spec fn confirm_pause(doubt: WakeDoubt<Seq<char>>, now: u64) -> WakeStep<Seq<char>> {
    if doubt.attempt + 1 >= SUBMISSION_VERIFY_ATTEMPTS || left(doubt.deadline, now) == 0 {
        wake_fails(doubt.failure)
    } else {
        wake_asks(
            WakePhase::ConfirmPause { doubt: WakeDoubt { attempt: (doubt.attempt + 1) as u64, ..doubt } },
            PanelAction::Pause {
                pause_ms: lesser(SUBMISSION_VERIFY_INTERVAL_MS, left(doubt.deadline, now)),
            },
        )
    }
}

/// The first status of the server decides.
pub open spec fn first_status(
    flow: WakeFlow<Seq<char>>,
    status: PlaySleepStatus<Seq<char>>,
    now: u64,
) -> WakeStep<Seq<char>> {
    match status_failure(status) {
        Some((error_class, message)) => wake_asks(
            WakePhase::Refused { error_class, message },
            PanelAction::SaveState { artifact: allocation_record(status, false, None) },
        ),
        None => if allocation_ready(status) {
            WakeStep {
                phase: WakePhase::Over,
                report: None,
                next: WakeNext::Ended { end: Ok(allocated(status, false)) },
            }
        } else if wake_confirmed(status) {
            begin_wait(status, false, flow.wait_ms, now)
        } else if !flow.power_enabled {
            wake_fails(
                failure_view(
                    "ProviderPowerDisabled"@,
                    "Pterodactyl power actions are disabled by configuration"@,
                    None,
                    ProviderMutation::Nothing,
                ),
            )
        } else {
            WakeStep {
                phase: WakePhase::Posting { status },
                report: Some(
                    ProviderProgress {
                        stage: ProviderProgressStage::RequestingAllocation,
                        detail: "Requesting Play Hosting allocation"@,
                    },
                ),
                next: WakeNext::Ask {
                    action: PanelAction::PostWake { server_uuid: flow.server_uuid },
                },
            }
        },
    }
}

/// The wake request has been sent, or not.
pub open spec fn wake_posted(
    flow: WakeFlow<Seq<char>>,
    status: PlaySleepStatus<Seq<char>>,
    reply: PostReply<Seq<char>, Seq<u8>>,
    now: u64,
) -> WakeStep<Seq<char>> {
    match reply {
        PostReply::NotSent { failure } => wake_fails(failure),
        PostReply::Broken => confirm_look(
            flow.server_uuid,
            WakeDoubt {
                status,
                failure: failure_view(
                    "ProviderWakeAmbiguous"@,
                    "The wake request connection ended before confirmation"@,
                    None,
                    ProviderMutation::WakeAllocation,
                ),
                attempt: 0,
                deadline: later(now, SUBMISSION_VERIFY_TIMEOUT_MS),
            },
            now,
        ),
        PostReply::Answered { status: code, cf_mitigated, body } => {
            let failure = api_failure(
                reply_error(code, is_challenge(cf_mitigated, body), ProviderMutation::WakeAllocation),
            );
            if 200 <= code < 300 {
                begin_wait(status, true, flow.wait_ms, now)
            } else if failure.uncertain_mutation == ProviderMutation::WakeAllocation {
                confirm_look(
                    flow.server_uuid,
                    WakeDoubt {
                        status,
                        failure,
                        attempt: 0,
                        deadline: later(now, SUBMISSION_VERIFY_TIMEOUT_MS),
                    },
                    now,
                )
            } else {
                wake_fails(failure)
            }
        },
    }
}

/// A look at an unanswered wake request came back.
pub open spec fn wake_looked(
    flow: WakeFlow<Seq<char>>,
    doubt: WakeDoubt<Seq<char>>,
    reply: Result<PlaySleepStatus<Seq<char>>, ProviderStartFailure<Seq<char>>>,
    now: u64,
) -> WakeStep<Seq<char>> {
    match reply {
        Ok(status) => if wake_confirmed(status) {
            begin_wait(doubt.status, true, flow.wait_ms, now)
        } else {
            confirm_pause(doubt, now)
        },
        Err(failure) => if failure.retryable {
            confirm_pause(doubt, now)
        } else if failure.error_class == "ProviderWakeUnconfirmed"@ {
            wake_fails(doubt.failure)
        } else {
            wake_fails(
                ProviderStartFailure { uncertain_mutation: ProviderMutation::WakeAllocation, ..failure },
            )
        },
    }
}

/// The next step of a wake.
pub open spec fn wake_step(
    flow: WakeFlow<Seq<char>>,
    event: PanelEvent<Seq<char>, Seq<u8>>,
    now: u64,
) -> WakeStep<Seq<char>> {
    match (flow.phase, event) {
        (WakePhase::FirstStatus, PanelEvent::SleepStatus { reply: Ok(status) }) => first_status(
            flow,
            status,
            now,
        ),
        (WakePhase::FirstStatus, PanelEvent::SleepStatus { reply: Err(failure) }) => wake_fails(failure),
        (WakePhase::Refused { error_class, message }, PanelEvent::Saved { path }) => wake_fails(
            failure_view(error_class, message, path, ProviderMutation::Nothing),
        ),
        (WakePhase::Posting { status }, PanelEvent::Posted { reply }) => wake_posted(
            flow,
            status,
            reply,
            now,
        ),
        (WakePhase::Confirming { doubt }, PanelEvent::SleepStatus { reply }) => wake_looked(
            flow,
            doubt,
            reply,
            now,
        ),
        (WakePhase::Confirming { doubt }, _) => wake_fails(doubt.failure),
        (WakePhase::ConfirmPause { doubt }, PanelEvent::Paused) => confirm_look(
            flow.server_uuid,
            doubt,
            now,
        ),
        (WakePhase::Saving { wait }, PanelEvent::Saved { path }) => wait_saved(wait, path, now),
        (WakePhase::Pausing { wait }, PanelEvent::Paused) => if left(wait.deadline, now) == 0 {
            give_up(wait)
        } else {
            wake_asks(
                WakePhase::Polling { wait },
                PanelAction::ReadSleepStatus {
                    server_uuid: flow.server_uuid,
                    limit_ms: Some(left(wait.deadline, now)),
                },
            )
        },
        (WakePhase::Polling { wait }, PanelEvent::SleepStatus { reply: Ok(status) }) => save_wait(
            AllocationWait { last_status: status, last_error: None, ..wait },
        ),
        (WakePhase::Polling { wait }, PanelEvent::SleepStatus { reply: Err(failure) }) => if failure.retryable {
            save_wait(AllocationWait { last_error: Some(failure.message), ..wait })
        } else {
            wake_fails(failure)
        },
        (WakePhase::Polling { wait }, _) => give_up(wait),
        (WakePhase::GivingUp { detail }, PanelEvent::Saved { path }) => wake_fails(
            failure_view(
                "ProviderAllocationTimeout"@,
                detail,
                path,
                ProviderMutation::WakeAllocation,
            ),
        ),
        _ => arbitrary(),
    }
}

// ---------------------------------------------------------------------------
// The steps
// ---------------------------------------------------------------------------

/// The time left until `deadline`.
pub fn time_left(deadline: u64, now: u64) -> (r: u64)
    ensures
        r == left(deadline, now),
{
    if deadline <= now {
        0
    } else {
        deadline - now
    }
}

/// The smaller of the two.
pub fn smaller(a: u64, b: u64) -> (r: u64)
    ensures
        r == lesser(a, b),
{
    if a <= b {
        a
    } else {
        b
    }
}

/// The time `span` after `now`, or the last representable one.
pub fn time_after(now: u64, span: u64) -> (r: u64)
    ensures
        r == later(now, span),
{
    if span > u64::MAX - now {
        u64::MAX
    } else {
        now + span
    }
}

fn ask(phase: WakePhase, action: PanelAction) -> (r: WakeStep)
    ensures
        r@ == wake_asks(phase@, action@),
{
    WakeStep { phase, report: None, next: WakeNext::Ask { action } }
}

fn fail(failure: ProviderStartFailure) -> (r: WakeStep)
    ensures
        r@ == wake_fails(failure@),
{
    WakeStep { phase: WakePhase::Over, report: None, next: WakeNext::Ended { end: Err(failure) } }
}

fn allocation_of(status: PlaySleepStatus, wake_requested: bool) -> (r: AllocationResult)
    ensures
        r@ == allocated(status@, wake_requested),
{
    AllocationResult { minecraft_address: minecraft_connection(&status), status, wake_requested }
}

fn save(wait: AllocationWait) -> (r: WakeStep)
    ensures
        r@ == save_wait(wait@),
{
    let artifact = allocation_state_artifact(&wait.last_status, wait.wake_requested, &wait.last_error);
    ask(WakePhase::Saving { wait }, PanelAction::SaveState { artifact })
}

fn abandon(wait: AllocationWait) -> (r: WakeStep)
    ensures
        r@ == give_up(wait@),
{
    let artifact = allocation_state_artifact(&wait.last_status, wait.wake_requested, &wait.last_error);
    let last_error = match &wait.last_error {
        Some(error) => Some(error.as_str()),
        None => None,
    };
    let detail = allocation_timeout_detail(&wait.last_status, last_error);
    ask(WakePhase::GivingUp { detail }, PanelAction::SaveState { artifact })
}

fn start_wait(status: PlaySleepStatus, wake_requested: bool, wait_ms: u64, now: u64) -> (r: WakeStep)
    ensures
        r@ == begin_wait(status@, wake_requested, wait_ms, now),
{
    if wait_ms > u64::MAX - now {
        return fail(
            provider_failure(
                "ProviderConfiguration",
                "The allocation timeout exceeded the supported duration",
                None,
                ProviderMutation::Nothing,
            ),
        );
    }
    save(
        AllocationWait {
            last_status: status,
            wake_requested,
            last_error: None,
            last_progress_at: None,
            last_progress_phase: None,
            started_at: now,
            deadline: now + wait_ms,
        },
    )
}

/// The report of a wait, where one is due, and the wait after it.
pub fn emit_allocation_progress(wait: AllocationWait, now: u64) -> (r: (AllocationWait, Option<ProviderProgress>))
    ensures
        r.0@ == reported(wait@, now),
        opt_progress(r.1) == if report_due(wait@, now) {
            Some(wait_report(wait@, now))
        } else {
            None
        },
{
    let due = match (&wait.last_progress_phase, wait.last_progress_at) {
        (Some(phase), Some(at)) => !text::same(phase.as_str(), wait.last_status.phase.as_str())
            || time_left(now, at) >= ALLOCATION_PROGRESS_INTERVAL_MS,
        _ => true,
    };
    if !due {
        return (wait, None);
    }
    let waited = terminal::format_duration(time_left(now, wait.started_at) as u128);
    let detail = text::cat3(
        allocation_status_detail(&wait.last_status).as_str(),
        ", waiting ",
        waited.as_str(),
    );
    let report = progress(ProviderProgressStage::WaitingForAllocation, detail.as_str());
    let phase = wait.last_status.phase.clone();
    let mut wait = wait;
    wait.last_progress_at = Some(now);
    wait.last_progress_phase = Some(phase);
    (wait, report)
}

/// The record of a wait has been written.
fn after_save(wait: AllocationWait, path: Option<String>, now: u64) -> (r: WakeStep)
    ensures
        r@ == wait_saved(wait@, opt_text(path), now),
{
    if let Some((error_class, message)) = allocation_status_failure(&wait.last_status) {
        return fail(provider_failure(error_class, message, path, ProviderMutation::WakeAllocation));
    }
    let (wait, report) = emit_allocation_progress(wait, now);
    if sleep_status_allocation_ready(&wait.last_status) {
        let end = allocation_of(wait.last_status, wait.wake_requested);
        return WakeStep { phase: WakePhase::Over, report, next: WakeNext::Ended { end: Ok(end) } };
    }
    if now >= wait.deadline {
        let mut step = abandon(wait);
        step.report = report;
        return step;
    }
    let pause_ms: u64 = smaller(ALLOCATION_WAIT_INTERVAL_MS, time_left(wait.deadline, now));
    WakeStep {
        phase: WakePhase::Pausing { wait },
        report,
        next: WakeNext::Ask { action: PanelAction::Pause { pause_ms } },
    }
}

fn look(server_uuid: &String, doubt: WakeDoubt, now: u64) -> (r: WakeStep)
    ensures
        r@ == confirm_look(server_uuid@, doubt@, now),
{
    let remaining: u64 = time_left(doubt.deadline, now);
    if remaining == 0 {
        return fail(doubt.failure);
    }
    ask(
        WakePhase::Confirming { doubt },
        PanelAction::ReadSleepStatus { server_uuid: server_uuid.clone(), limit_ms: Some(remaining) },
    )
}

fn pause_look(doubt: WakeDoubt, now: u64) -> (r: WakeStep)
    ensures
        r@ == confirm_pause(doubt@, now),
{
    let remaining: u64 = time_left(doubt.deadline, now);
    if doubt.attempt >= SUBMISSION_VERIFY_ATTEMPTS - 1 || remaining == 0 {
        return fail(doubt.failure);
    }
    let mut doubt = doubt;
    doubt.attempt = doubt.attempt + 1;
    ask(
        WakePhase::ConfirmPause { doubt },
        PanelAction::Pause { pause_ms: smaller(SUBMISSION_VERIFY_INTERVAL_MS, remaining) },
    )
}

fn after_first_status(flow: &WakeFlow, status: PlaySleepStatus, now: u64) -> (r: WakeStep)
    ensures
        r@ == first_status(flow@, status@, now),
{
    if let Some((error_class, message)) = allocation_status_failure(&status) {
        let artifact = allocation_state_artifact(&status, false, &None);
        return ask(
            WakePhase::Refused { error_class: error_class.to_owned(), message: message.to_owned() },
            PanelAction::SaveState { artifact },
        );
    }
    if sleep_status_allocation_ready(&status) {
        let end = allocation_of(status, false);
        return WakeStep {
            phase: WakePhase::Over,
            report: None,
            next: WakeNext::Ended { end: Ok(end) },
        };
    }
    if sleep_status_confirms_wake(&status) {
        return start_wait(status, false, flow.wait_ms, now);
    }
    if !flow.power_enabled {
        return fail(
            provider_failure(
                "ProviderPowerDisabled",
                "Pterodactyl power actions are disabled by configuration",
                None,
                ProviderMutation::Nothing,
            ),
        );
    }
    WakeStep {
        phase: WakePhase::Posting { status },
        report: progress(
            ProviderProgressStage::RequestingAllocation,
            "Requesting Play Hosting allocation",
        ),
        next: WakeNext::Ask {
            action: PanelAction::PostWake { server_uuid: flow.server_uuid.clone() },
        },
    }
}

/// The wake request has been sent, or not.
pub fn send_wake(flow: &WakeFlow, status: PlaySleepStatus, reply: PostReply, now: u64) -> (r: WakeStep)
    ensures
        r@ == wake_posted(flow@, status@, reply@, now),
{
    match reply {
        PostReply::NotSent { failure } => fail(failure),
        PostReply::Broken => look(
            &flow.server_uuid,
            WakeDoubt {
                status,
                failure: provider_failure(
                    "ProviderWakeAmbiguous",
                    "The wake request connection ended before confirmation",
                    None,
                    ProviderMutation::WakeAllocation,
                ),
                attempt: 0,
                deadline: time_after(now, SUBMISSION_VERIFY_TIMEOUT_MS),
            },
            now,
        ),
        PostReply::Answered { status: code, cf_mitigated, body } => {
            if 200 <= code && code < 300 {
                return start_wait(status, true, flow.wait_ms, now);
            }
            let header = match &cf_mitigated {
                Some(value) => Some(value.as_str()),
                None => None,
            };
            let failure = classify_api_response(
                code,
                header,
                body.as_slice(),
                ProviderMutation::WakeAllocation,
            ).into_provider_failure();
            if failure.uncertain_mutation == ProviderMutation::WakeAllocation {
                look(
                    &flow.server_uuid,
                    WakeDoubt {
                        status,
                        failure,
                        attempt: 0,
                        deadline: time_after(now, SUBMISSION_VERIFY_TIMEOUT_MS),
                    },
                    now,
                )
            } else {
                fail(failure)
            }
        },
    }
}

/// A look at an unanswered wake request came back.
pub fn verify_ambiguous_wake(
    flow: &WakeFlow,
    doubt: WakeDoubt,
    reply: Result<PlaySleepStatus, ProviderStartFailure>,
    now: u64,
) -> (r: WakeStep)
    ensures
        r@ == wake_looked(
            flow@,
            doubt@,
            match reply {
                Ok(status) => Ok(status@),
                Err(failure) => Err(failure@),
            },
            now,
        ),
{
    match reply {
        Ok(status) => {
            if sleep_status_confirms_wake(&status) {
                start_wait(doubt.status, true, flow.wait_ms, now)
            } else {
                pause_look(doubt, now)
            }
        },
        Err(failure) => {
            if failure.retryable {
                pause_look(doubt, now)
            } else if text::same(failure.error_class.as_str(), "ProviderWakeUnconfirmed") {
                fail(doubt.failure)
            } else {
                let mut failure = failure;
                failure.uncertain_mutation = ProviderMutation::WakeAllocation;
                fail(failure)
            }
        },
    }
}

/// The record of a wait or of its end has been written, a pause is over, or a
/// look came back: the waiting part of a wake.
fn wait_for_allocation_ready(server_uuid: &String, phase: WakePhase, event: PanelEvent, now: u64) -> (r: WakeStep)
    requires
        phase is Saving || phase is Pausing || phase is Polling || phase is GivingUp,
        wake_awaits(
            WakeFlow { server_uuid: server_uuid@, power_enabled: false, wait_ms: 0, phase: phase@ },
            event@,
        ),
    ensures
        forall|power_enabled: bool, wait_ms: u64|
            r@ == #[trigger] wake_step(
                WakeFlow { server_uuid: server_uuid@, power_enabled, wait_ms, phase: phase@ },
                event@,
                now,
            ),
{
    match (phase, event) {
        (WakePhase::Saving { wait }, PanelEvent::Saved { path }) => after_save(wait, path, now),
        (WakePhase::Pausing { wait }, PanelEvent::Paused) => {
            let remaining: u64 = time_left(wait.deadline, now);
            if remaining == 0 {
                abandon(wait)
            } else {
                ask(
                    WakePhase::Polling { wait },
                    PanelAction::ReadSleepStatus {
                        server_uuid: server_uuid.clone(),
                        limit_ms: Some(remaining),
                    },
                )
            }
        },
        (WakePhase::Polling { wait }, PanelEvent::SleepStatus { reply: Ok(status) }) => {
            let mut wait = wait;
            wait.last_status = status;
            wait.last_error = None;
            save(wait)
        },
        (WakePhase::Polling { wait }, PanelEvent::SleepStatus { reply: Err(failure) }) => {
            if failure.retryable {
                let mut wait = wait;
                wait.last_error = Some(failure.message);
                save(wait)
            } else {
                fail(failure)
            }
        },
        (WakePhase::Polling { wait }, PanelEvent::TimedOut) => abandon(wait),
        (WakePhase::GivingUp { detail }, PanelEvent::Saved { path }) => fail(
            provider_failure(
                "ProviderAllocationTimeout",
                detail.as_str(),
                path,
                ProviderMutation::WakeAllocation,
            ),
        ),
        _ => vstd::pervasive::unreached(),
    }
}

impl WakeFlow<String> {
    /// A wake that is about to look at the allocation for the first time.
    pub fn begin(server_uuid: String, power_enabled: bool, wait_ms: u64) -> (r: (WakeFlow, PanelAction))
        ensures
            r.0@ == (WakeFlow {
                server_uuid: server_uuid@,
                power_enabled,
                wait_ms,
                phase: WakePhase::FirstStatus,
            }),
            r.1@ == (PanelAction::ReadSleepStatus { server_uuid: server_uuid@, limit_ms: None }),
    {
        let action = PanelAction::ReadSleepStatus { server_uuid: server_uuid.clone(), limit_ms: None };
        (WakeFlow { server_uuid, power_enabled, wait_ms, phase: WakePhase::FirstStatus }, action)
    }

    /// Takes the outcome that the wake waits for to its next action or its end.
    pub fn ensure_limbo_awake(self, event: PanelEvent, now: u64) -> (r: (WakeFlow, Option<ProviderProgress>, WakeNext))
        requires
            wake_awaits(self@, event@),
        ensures
            ({
                let step = wake_step(self@, event@, now);
                &&& r.0@ == (WakeFlow { phase: step.phase, ..self@ })
                &&& opt_progress(r.1) == step.report
                &&& r.2@ == step.next
            }),
    {
        let flow = WakeFlow {
            server_uuid: self.server_uuid,
            power_enabled: self.power_enabled,
            wait_ms: self.wait_ms,
            phase: WakePhase::Over,
        };
        let step = match (self.phase, event) {
            (WakePhase::FirstStatus, PanelEvent::SleepStatus { reply: Ok(status) }) => after_first_status(
                &flow,
                status,
                now,
            ),
            (WakePhase::FirstStatus, PanelEvent::SleepStatus { reply: Err(failure) }) => fail(failure),
            (WakePhase::Refused { error_class, message }, PanelEvent::Saved { path }) => fail(
                provider_failure(
                    error_class.as_str(),
                    message.as_str(),
                    path,
                    ProviderMutation::Nothing,
                ),
            ),
            (WakePhase::Posting { status }, PanelEvent::Posted { reply }) => send_wake(
                &flow,
                status,
                reply,
                now,
            ),
            (WakePhase::Confirming { doubt }, PanelEvent::SleepStatus { reply }) => verify_ambiguous_wake(
                &flow,
                doubt,
                reply,
                now,
            ),
            (WakePhase::Confirming { doubt }, PanelEvent::TimedOut) => fail(doubt.failure),
            (WakePhase::ConfirmPause { doubt }, PanelEvent::Paused) => look(
                &flow.server_uuid,
                doubt,
                now,
            ),
            (phase, event) => wait_for_allocation_ready(&flow.server_uuid, phase, event, now),
        };
        let mut flow = flow;
        flow.phase = step.phase;
        (flow, step.report, step.next)
    }
}

} // verus!
