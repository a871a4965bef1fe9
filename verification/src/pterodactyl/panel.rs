//! What a start asks of the program around it, and what comes back.
//!
//! A start is a state machine. Each step takes the outcome of the last action
//! and the time on a monotonic clock, and gives the next action.

use vstd::prelude::*;
use crate::provider::{opt_progress, ProviderProgress, ProviderStartFailure, ProviderStartResult};
use crate::pterodactyl::{AllocationResult, PlaySleepStatus, PterodactylResources, PterodactylServer};
use crate::terminal::{clean, cleaned};
use crate::text;
use crate::text::opt_text;

verus! {

/// The sanitized record of where a start stands.
#[verifier::ext_equal]
#[derive(Clone, Debug)]
pub struct StateArtifact<T = String> {
    pub provider: T,
    pub workflow_stage: T,
    pub current_state: Option<T>,
    pub is_suspended: Option<bool>,
    pub is_limbo: Option<bool>,
    pub phase: Option<T>,
    pub connection: Option<T>,
    pub position: Option<u64>,
    pub total: Option<u64>,
    pub estimated_minutes: Option<u64>,
    pub blocked: Option<bool>,
    pub enabled: Option<bool>,
    pub wake_requested: bool,
    pub power_requested: bool,
    pub last_error: Option<T>,
}

impl View for StateArtifact<String> {
    type V = StateArtifact<Seq<char>>;

    open spec fn view(&self) -> StateArtifact<Seq<char>> {
        StateArtifact {
            provider: self.provider@,
            workflow_stage: self.workflow_stage@,
            current_state: opt_text(self.current_state),
            is_suspended: self.is_suspended,
            is_limbo: self.is_limbo,
            phase: opt_text(self.phase),
            connection: opt_text(self.connection),
            position: self.position,
            total: self.total,
            estimated_minutes: self.estimated_minutes,
            blocked: self.blocked,
            enabled: self.enabled,
            wake_requested: self.wake_requested,
            power_requested: self.power_requested,
            last_error: opt_text(self.last_error),
        }
    }
}

/// The record of the server's power state.
pub open spec fn server_record(
    current_state: Seq<char>,
    is_suspended: bool,
    is_limbo: bool,
) -> StateArtifact<Seq<char>> {
    StateArtifact {
        provider: "pterodactyl"@,
        workflow_stage: "provider_state"@,
        current_state: Some(current_state),
        is_suspended: Some(is_suspended),
        is_limbo: Some(is_limbo),
        phase: None,
        connection: None,
        position: None,
        total: None,
        estimated_minutes: None,
        blocked: None,
        enabled: None,
        wake_requested: false,
        power_requested: false,
        last_error: None,
    }
}

/// The record of the server's power state.
pub fn state_artifact(current_state: &str, is_suspended: bool, is_limbo: bool) -> (r: StateArtifact)
    ensures
        r@ == server_record(current_state@, is_suspended, is_limbo),
{
    StateArtifact {
        provider: "pterodactyl".to_owned(),
        workflow_stage: "provider_state".to_owned(),
        current_state: Some(current_state.to_owned()),
        is_suspended: Some(is_suspended),
        is_limbo: Some(is_limbo),
        phase: None,
        connection: None,
        position: None,
        total: None,
        estimated_minutes: None,
        blocked: None,
        enabled: None,
        wake_requested: false,
        power_requested: false,
        last_error: None,
    }
}

/// The record of an allocation in progress.
pub open spec fn allocation_record(
    status: PlaySleepStatus<Seq<char>>,
    wake_requested: bool,
    last_error: Option<Seq<char>>,
) -> StateArtifact<Seq<char>> {
    StateArtifact {
        provider: "pterodactyl"@,
        workflow_stage: "allocation"@,
        current_state: None,
        is_suspended: None,
        is_limbo: Some(true),
        phase: Some(status.phase),
        connection: status.connection,
        position: status.position,
        total: status.total,
        estimated_minutes: status.estimated_minutes,
        blocked: status.blocked,
        enabled: status.enabled,
        wake_requested,
        power_requested: false,
        last_error,
    }
}

/// The record of an allocation in progress.
pub fn allocation_state_artifact(
    status: &PlaySleepStatus,
    wake_requested: bool,
    last_error: &Option<String>,
) -> (r: StateArtifact)
    ensures
        r@ == allocation_record(status@, wake_requested, opt_text(*last_error)),
{
    StateArtifact {
        provider: "pterodactyl".to_owned(),
        workflow_stage: "allocation".to_owned(),
        current_state: None,
        is_suspended: None,
        is_limbo: Some(true),
        phase: Some(status.phase.clone()),
        connection: text::copy_opt(&status.connection),
        position: status.position,
        total: status.total,
        estimated_minutes: status.estimated_minutes,
        blocked: status.blocked,
        enabled: status.enabled,
        wake_requested,
        power_requested: false,
        last_error: text::copy_opt(last_error),
    }
}

/// The record of a power request, with the allocation that preceded it.
pub open spec fn power_record(
    current_state: Seq<char>,
    is_suspended: bool,
    is_limbo: bool,
    power_requested: bool,
    allocation: Option<AllocationResult<Seq<char>>>,
) -> StateArtifact<Seq<char>> {
    let record = StateArtifact {
        workflow_stage: "power_start"@,
        power_requested,
        ..server_record(current_state, is_suspended, is_limbo)
    };
    match allocation {
        Some(allocation) => StateArtifact {
            phase: Some(allocation.status.phase),
            connection: allocation.status.connection,
            position: allocation.status.position,
            total: allocation.status.total,
            estimated_minutes: allocation.status.estimated_minutes,
            blocked: allocation.status.blocked,
            enabled: allocation.status.enabled,
            wake_requested: allocation.wake_requested,
            ..record
        },
        None => record,
    }
}

/// The record of a power request, with the allocation that preceded it.
pub fn power_state_artifact(
    current_state: &str,
    is_suspended: bool,
    is_limbo: bool,
    power_requested: bool,
    allocation: &Option<AllocationResult>,
) -> (r: StateArtifact)
    ensures
        r@ == power_record(
            current_state@,
            is_suspended,
            is_limbo,
            power_requested,
            crate::pterodactyl::opt_allocation(*allocation),
        ),
{
    let mut record = state_artifact(current_state, is_suspended, is_limbo);
    record.workflow_stage = "power_start".to_owned();
    record.power_requested = power_requested;
    if let Some(allocation) = allocation {
        record.phase = Some(allocation.status.phase.clone());
        record.connection = text::copy_opt(&allocation.status.connection);
        record.position = allocation.status.position;
        record.total = allocation.status.total;
        record.estimated_minutes = allocation.status.estimated_minutes;
        record.blocked = allocation.status.blocked;
        record.enabled = allocation.status.enabled;
        record.wake_requested = allocation.wake_requested;
    }
    record
}

/// The end of a start.
pub type StartEnd<T> = Result<ProviderStartResult<T>, ProviderStartFailure<T>>;

/// The view of the end of a start.
pub open spec fn end_view(end: StartEnd<String>) -> StartEnd<Seq<char>> {
    match end {
        Ok(result) => Ok(result@),
        Err(failure) => Err(failure@),
    }
}

/// What a start asks for next. A read with a limit is given up after that many
/// milliseconds.
#[verifier::ext_equal]
#[derive(Debug)]
pub enum PanelAction<T = String> {
    ReadDetails,
    ReadResources { limit_ms: Option<u64> },
    ReadSleepStatus { server_uuid: T, limit_ms: Option<u64> },
    PostWake { server_uuid: T },
    PostPower,
    Pause { pause_ms: u64 },
    SaveState { artifact: StateArtifact<T> },
    Finish { end: StartEnd<T> },
}

impl View for PanelAction<String> {
    type V = PanelAction<Seq<char>>;

    open spec fn view(&self) -> PanelAction<Seq<char>> {
        match *self {
            PanelAction::ReadDetails => PanelAction::ReadDetails,
            PanelAction::ReadResources { limit_ms } => PanelAction::ReadResources { limit_ms },
            PanelAction::ReadSleepStatus { server_uuid, limit_ms } => PanelAction::ReadSleepStatus {
                server_uuid: server_uuid@,
                limit_ms,
            },
            PanelAction::PostWake { server_uuid } => PanelAction::PostWake { server_uuid: server_uuid@ },
            PanelAction::PostPower => PanelAction::PostPower,
            PanelAction::Pause { pause_ms } => PanelAction::Pause { pause_ms },
            PanelAction::SaveState { artifact } => PanelAction::SaveState { artifact: artifact@ },
            PanelAction::Finish { end } => PanelAction::Finish { end: end_view(end) },
        }
    }
}

/// What came of a request that may change something.
#[verifier::ext_equal]
#[derive(Debug)]
pub enum PostReply<T = String, B = Vec<u8>> {
    /// The request could not be built; nothing was sent.
    NotSent { failure: ProviderStartFailure<T> },
    /// The connection ended before an answer.
    Broken,
    /// The panel answered. An unreadable body counts as empty.
    Answered { status: u16, cf_mitigated: Option<T>, body: B },
}

impl View for PostReply<String, Vec<u8>> {
    type V = PostReply<Seq<char>, Seq<u8>>;

    open spec fn view(&self) -> PostReply<Seq<char>, Seq<u8>> {
        match *self {
            PostReply::NotSent { failure } => PostReply::NotSent { failure: failure@ },
            PostReply::Broken => PostReply::Broken,
            PostReply::Answered { status, cf_mitigated, body } => PostReply::Answered {
                status,
                cf_mitigated: opt_text(cf_mitigated),
                body: body@,
            },
        }
    }
}

/// What came of an action.
#[verifier::ext_equal]
#[allow(inconsistent_fields)]
#[derive(Debug)]
pub enum PanelEvent<T = String, B = Vec<u8>> {
    Details { reply: Result<PterodactylServer<T>, ProviderStartFailure<T>> },
    Resources { reply: Result<PterodactylResources<T>, ProviderStartFailure<T>> },
    SleepStatus { reply: Result<PlaySleepStatus<T>, ProviderStartFailure<T>> },
    /// A read with a limit took too long.
    TimedOut,
    Posted { reply: PostReply<T, B> },
    Paused,
    /// The record was written to this path, or not written.
    Saved { path: Option<T> },
}

impl View for PanelEvent<String, Vec<u8>> {
    type V = PanelEvent<Seq<char>, Seq<u8>>;

    open spec fn view(&self) -> PanelEvent<Seq<char>, Seq<u8>> {
        match *self {
            PanelEvent::Details { reply: Ok(details) } => PanelEvent::Details { reply: Ok(details@) },
            PanelEvent::Details { reply: Err(failure) } => PanelEvent::Details { reply: Err(failure@) },
            PanelEvent::Resources { reply: Ok(resources) } => PanelEvent::Resources {
                reply: Ok(resources@),
            },
            PanelEvent::Resources { reply: Err(failure) } => PanelEvent::Resources {
                reply: Err(failure@),
            },
            PanelEvent::SleepStatus { reply: Ok(status) } => PanelEvent::SleepStatus {
                reply: Ok(status@),
            },
            PanelEvent::SleepStatus { reply: Err(failure) } => PanelEvent::SleepStatus {
                reply: Err(failure@),
            },
            PanelEvent::TimedOut => PanelEvent::TimedOut,
            PanelEvent::Posted { reply } => PanelEvent::Posted { reply: reply@ },
            PanelEvent::Paused => PanelEvent::Paused,
            PanelEvent::Saved { path } => PanelEvent::Saved { path: opt_text(path) },
        }
    }
}

/// Whether `event` is an outcome of `action`.
pub open spec fn answers(event: PanelEvent<Seq<char>, Seq<u8>>, action: PanelAction<Seq<char>>) -> bool {
    match action {
        PanelAction::ReadDetails => event is Details,
        PanelAction::ReadResources { limit_ms } => event is Resources || (limit_ms is Some && event
            is TimedOut),
        PanelAction::ReadSleepStatus { limit_ms, .. } => event is SleepStatus || (limit_ms is Some
            && event is TimedOut),
        PanelAction::PostWake { .. } => event is Posted,
        PanelAction::PostPower => event is Posted,
        PanelAction::Pause { .. } => event is Paused,
        PanelAction::SaveState { .. } => event is Saved,
        PanelAction::Finish { .. } => false,
    }
}

/// A step: what to report, and what to do then.
#[verifier::ext_equal]
#[derive(Debug)]
pub struct PanelStep<T = String> {
    pub report: Option<ProviderProgress<T>>,
    pub action: PanelAction<T>,
}

impl View for PanelStep<String> {
    type V = PanelStep<Seq<char>>;

    open spec fn view(&self) -> PanelStep<Seq<char>> {
        PanelStep { report: opt_progress(self.report), action: self.action@ }
    }
}

/// What the log says where a state could not be stored.
pub fn state_artifact_warning(run_id: &str, error: &str) -> (r: String)
    ensures
        r@ == "could not write sanitized provider state for run "@ + run_id@ + "; error "@ + cleaned(error@),
{
    text::cat4(
        "could not write sanitized provider state for run ",
        run_id,
        "; error ",
        clean(error).as_str(),
    )
}

} // verus!
