//! A whole start through the panel: look, wake, wait, power.

use vstd::prelude::*;
use crate::provider::{
    attach_minecraft_address, failure_view, progress, provider_failure,
    ProviderMutation, ProviderProgress, ProviderProgressStage, ProviderStartFailure,
    ProviderStartResult, StartOutcome,
};
use crate::pterodactyl::allocation::{
    wake_awaits, wake_step, WakeFlow, WakeNext, WakePhase, WakeStep,
};
use crate::pterodactyl::panel::{
    power_record, power_state_artifact, server_record, state_artifact, PanelAction, PanelEvent,
    PanelStep, StartEnd,
};
use crate::pterodactyl::power::{power_awaits, power_step, PowerNext, PowerPhase, PowerStep};
use crate::pterodactyl::{
    action_for_server_details, action_for_state, details_action, normalized_state, opt_allocation,
    shown_state, state_action, AllocationResult, PterodactylResources, PterodactylServer,
    ServerDetailsAction, StateAction,
};
use crate::text;
use crate::text::opt_text;

verus! {

/// How often a stopping server is looked at again.
pub const STOPPING_WAIT_ATTEMPTS: u64 = 6;

/// The pause before each such look.
pub const STOPPING_WAIT_INTERVAL_MS: u64 = 5_000;

/// Where a start stands: which outcome it waits for.
#[verifier::ext_equal]
#[derive(Debug)]
pub enum StartPhase<T = String> {
    /// The server's listing.
    Details,
    /// The record of the listing.
    DetailsSaved { details: PterodactylServer<T> },
    /// The wake, before the power state was read or after it was in conflict.
    Waking { wake: WakeFlow<T>, after_conflict: bool },
    /// The power state.
    Resources { after_conflict: bool },
    /// The listing once more, after the power state was in conflict.
    ConflictDetails { failure: ProviderStartFailure<T> },
    /// The record of the power state; `waits` counts the waits for a stopping
    /// server that have been made.
    ResourcesSaved { resources: PterodactylResources<T>, waits: u64 },
    /// A wait for a stopping server.
    StoppingPause { waits: u64 },
    /// The power state after such a wait.
    StoppingResources { waits: u64 },
    /// The record of the power request that is about to be sent.
    PowerSaved { is_suspended: bool },
    /// The power request.
    Powering { is_suspended: bool, power: PowerPhase<T> },
    /// The record of the accepted power request.
    PoweredSaved,
    /// Nothing: the start is over.
    Over,
}

impl View for StartPhase<String> {
    type V = StartPhase<Seq<char>>;

    open spec fn view(&self) -> StartPhase<Seq<char>> {
        match *self {
            StartPhase::Details => StartPhase::Details,
            StartPhase::DetailsSaved { details } => StartPhase::DetailsSaved { details: details@ },
            StartPhase::Waking { wake, after_conflict } => StartPhase::Waking {
                wake: wake@,
                after_conflict,
            },
            StartPhase::Resources { after_conflict } => StartPhase::Resources { after_conflict },
            StartPhase::ConflictDetails { failure } => StartPhase::ConflictDetails { failure: failure@ },
            StartPhase::ResourcesSaved { resources, waits } => StartPhase::ResourcesSaved {
                resources: resources@,
                waits,
            },
            StartPhase::StoppingPause { waits } => StartPhase::StoppingPause { waits },
            StartPhase::StoppingResources { waits } => StartPhase::StoppingResources { waits },
            StartPhase::PowerSaved { is_suspended } => StartPhase::PowerSaved { is_suspended },
            StartPhase::Powering { is_suspended, power } => StartPhase::Powering {
                is_suspended,
                power: power@,
            },
            StartPhase::PoweredSaved => StartPhase::PoweredSaved,
            StartPhase::Over => StartPhase::Over,
        }
    }
}

/// One start.
#[verifier::ext_equal]
#[derive(Debug)]
pub struct StartFlow<T = String> {
    pub power_enabled: bool,
    pub wait_ms: u64,
    pub is_limbo: bool,
    pub minecraft_address: Option<T>,
    pub allocation: Option<AllocationResult<T>>,
    pub artifact_path: Option<T>,
    pub phase: StartPhase<T>,
}

impl View for StartFlow<String> {
    type V = StartFlow<Seq<char>>;

    open spec fn view(&self) -> StartFlow<Seq<char>> {
        StartFlow {
            power_enabled: self.power_enabled,
            wait_ms: self.wait_ms,
            is_limbo: self.is_limbo,
            minecraft_address: opt_text(self.minecraft_address),
            allocation: opt_allocation(self.allocation),
            artifact_path: opt_text(self.artifact_path),
            phase: self.phase@,
        }
    }
}

// ---------------------------------------------------------------------------
// What each step is
// ---------------------------------------------------------------------------

/// What a phase of a start waits for the outcome of.
pub open spec fn start_awaits(
    flow: StartFlow<Seq<char>>,
    event: PanelEvent<Seq<char>, Seq<u8>>,
) -> bool {
    match flow.phase {
        StartPhase::Details => event is Details,
        StartPhase::DetailsSaved { .. } => event is Saved,
        StartPhase::Waking { wake, .. } => wake_awaits(wake, event),
        StartPhase::Resources { .. } => event is Resources,
        StartPhase::ConflictDetails { .. } => event is Details,
        StartPhase::ResourcesSaved { .. } => event is Saved,
        StartPhase::StoppingPause { .. } => event is Paused,
        StartPhase::StoppingResources { .. } => event is Resources,
        StartPhase::PowerSaved { .. } => event is Saved,
        StartPhase::Powering { power, .. } => power_awaits(power, event),
        StartPhase::PoweredSaved => event is Saved,
        StartPhase::Over => false,
    }
}

/// A start that has asked for nothing yet.
pub open spec fn fresh_start(power_enabled: bool, wait_ms: u64) -> StartFlow<Seq<char>> {
    StartFlow {
        power_enabled,
        wait_ms,
        is_limbo: false,
        minecraft_address: None,
        allocation: None,
        artifact_path: None,
        phase: StartPhase::Details,
    }
}

/// The first step of a start.
pub open spec fn opening_step() -> PanelStep<Seq<char>> {
    PanelStep {
        report: Some(
            ProviderProgress {
                stage: ProviderProgressStage::SolvingChallenge,
                detail: "Preparing provider access"@,
            },
        ),
        action: PanelAction::ReadDetails,
    }
}

/// The start goes to `phase` and asks for `action`.
pub open spec fn start_asks(
    flow: StartFlow<Seq<char>>,
    phase: StartPhase<Seq<char>>,
    action: PanelAction<Seq<char>>,
) -> (StartFlow<Seq<char>>, PanelStep<Seq<char>>) {
    (StartFlow { phase, ..flow }, PanelStep { report: None, action })
}

/// The start is over.
pub open spec fn start_ends(
    flow: StartFlow<Seq<char>>,
    end: StartEnd<Seq<char>>,
) -> (StartFlow<Seq<char>>, PanelStep<Seq<char>>) {
    start_asks(flow, StartPhase::Over, PanelAction::Finish { end })
}

/// A failure of the start's own, with its last record and the known address.
pub open spec fn own_failure(
    flow: StartFlow<Seq<char>>,
    error_class: Seq<char>,
    message: Seq<char>,
) -> ProviderStartFailure<Seq<char>> {
    ProviderStartFailure {
        minecraft_address: flow.minecraft_address,
        ..failure_view(error_class, message, flow.artifact_path, ProviderMutation::Nothing)
    }
}

/// `failure` with the known address.
pub open spec fn with_address(
    flow: StartFlow<Seq<char>>,
    failure: ProviderStartFailure<Seq<char>>,
) -> ProviderStartFailure<Seq<char>> {
    ProviderStartFailure { minecraft_address: flow.minecraft_address, ..failure }
}

/// The listing has been recorded.
pub open spec fn details_saved(
    flow: StartFlow<Seq<char>>,
    details: PterodactylServer<Seq<char>>,
) -> (StartFlow<Seq<char>>, PanelStep<Seq<char>>) {
    match details_action(details) {
        ServerDetailsAction::Wake => begin_wake(flow, details.uuid, false),
        ServerDetailsAction::FailSuspended => start_ends(
            flow,
            Err(
                failure_view(
                    "ProviderSuspended"@,
                    "The configured server is suspended"@,
                    flow.artifact_path,
                    ProviderMutation::Nothing,
                ),
            ),
        ),
        ServerDetailsAction::FetchResources => start_asks(
            flow,
            StartPhase::Resources { after_conflict: false },
            PanelAction::ReadResources { limit_ms: None },
        ),
    }
}

/// A wake begins.
pub open spec fn begin_wake(
    flow: StartFlow<Seq<char>>,
    server_uuid: Seq<char>,
    after_conflict: bool,
) -> (StartFlow<Seq<char>>, PanelStep<Seq<char>>) {
    start_asks(
        flow,
        StartPhase::Waking {
            wake: WakeFlow {
                server_uuid,
                power_enabled: flow.power_enabled,
                wait_ms: flow.wait_ms,
                phase: WakePhase::FirstStatus,
            },
            after_conflict,
        },
        PanelAction::ReadSleepStatus { server_uuid, limit_ms: None },
    )
}

/// A wake has made a step.
pub open spec fn wake_went(
    flow: StartFlow<Seq<char>>,
    wake: WakeFlow<Seq<char>>,
    after_conflict: bool,
    step: WakeStep<Seq<char>>,
) -> (StartFlow<Seq<char>>, PanelStep<Seq<char>>) {
    match step.next {
        WakeNext::Ask { action } => (
            StartFlow {
                phase: StartPhase::Waking {
                    wake: WakeFlow { phase: step.phase, ..wake },
                    after_conflict,
                },
                ..flow
            },
            PanelStep { report: step.report, action },
        ),
        WakeNext::Ended { end: Ok(allocation) } => (
            StartFlow {
                minecraft_address: allocation.minecraft_address,
                allocation: Some(allocation),
                phase: StartPhase::Resources { after_conflict },
                ..flow
            },
            PanelStep { report: step.report, action: PanelAction::ReadResources { limit_ms: None } },
        ),
        WakeNext::Ended { end: Err(failure) } => (
            StartFlow { phase: StartPhase::Over, ..flow },
            PanelStep {
                report: step.report,
                action: PanelAction::Finish {
                    end: Err(
                        ProviderStartFailure { detail_artifact_path: flow.artifact_path, ..failure },
                    ),
                },
            },
        ),
    }
}

/// The power state has been read.
pub open spec fn resources_read(
    flow: StartFlow<Seq<char>>,
    after_conflict: bool,
    reply: Result<PterodactylResources<Seq<char>>, ProviderStartFailure<Seq<char>>>,
) -> (StartFlow<Seq<char>>, PanelStep<Seq<char>>) {
    match reply {
        Ok(resources) => save_resources(flow, resources, 0),
        Err(failure) => if !after_conflict && failure.error_class == "ProviderStateConflict"@ {
            start_asks(flow, StartPhase::ConflictDetails { failure }, PanelAction::ReadDetails)
        } else {
            start_ends(flow, Err(with_address(flow, failure)))
        },
    }
}

/// The record of the power state is written.
pub open spec fn save_resources(
    flow: StartFlow<Seq<char>>,
    resources: PterodactylResources<Seq<char>>,
    waits: u64,
) -> (StartFlow<Seq<char>>, PanelStep<Seq<char>>) {
    start_asks(
        flow,
        StartPhase::ResourcesSaved { resources, waits },
        PanelAction::SaveState {
            artifact: server_record(resources.current_state, resources.is_suspended, flow.is_limbo),
        },
    )
}

/// The listing has been read again after a conflict.
pub open spec fn conflict_details(
    flow: StartFlow<Seq<char>>,
    failure: ProviderStartFailure<Seq<char>>,
    reply: Result<PterodactylServer<Seq<char>>, ProviderStartFailure<Seq<char>>>,
) -> (StartFlow<Seq<char>>, PanelStep<Seq<char>>) {
    match reply {
        Err(other) => start_ends(flow, Err(other)),
        Ok(details) => if details.is_limbo {
            begin_wake(StartFlow { is_limbo: true, ..flow }, details.uuid, true)
        } else {
            start_ends(flow, Err(failure))
        },
    }
}

/// The power state has been recorded: wait for a stopping server, or decide.
pub open spec fn resources_saved(
    flow: StartFlow<Seq<char>>,
    resources: PterodactylResources<Seq<char>>,
    waits: u64,
) -> (StartFlow<Seq<char>>, PanelStep<Seq<char>>) {
    let action = state_action(resources.current_state);
    if waits == 0 && resources.is_suspended {
        start_ends(
            flow,
            Err(own_failure(flow, "ProviderSuspended"@, "The configured server is suspended"@)),
        )
    } else if action == StateAction::WaitForStopping && waits < STOPPING_WAIT_ATTEMPTS {
        start_asks(
            flow,
            StartPhase::StoppingPause { waits: (waits + 1) as u64 },
            PanelAction::Pause { pause_ms: STOPPING_WAIT_INTERVAL_MS },
        )
    } else if resources.is_suspended {
        start_ends(
            flow,
            Err(own_failure(flow, "ProviderSuspended"@, "The configured server became suspended"@)),
        )
    } else {
        decide(flow, resources, action)
    }
}

/// What the settled power state leads to.
pub open spec fn decide(
    flow: StartFlow<Seq<char>>,
    resources: PterodactylResources<Seq<char>>,
    action: StateAction,
) -> (StartFlow<Seq<char>>, PanelStep<Seq<char>>) {
    match action {
        StateAction::AlreadyActive => start_ends(
            flow,
            Ok(
                ProviderStartResult {
                    outcome: StartOutcome::AlreadyActive,
                    provider_status: shown_state(resources.current_state),
                    minecraft_address: flow.minecraft_address,
                    screenshot_path: None,
                    detail_artifact_path: flow.artifact_path,
                },
            ),
        ),
        StateAction::RequestStart => if !flow.power_enabled {
            start_ends(
                flow,
                Err(
                    own_failure(
                        flow,
                        "ProviderPowerDisabled"@,
                        "Pterodactyl power actions are disabled by configuration"@,
                    ),
                ),
            )
        } else {
            (
                StartFlow {
                    phase: StartPhase::PowerSaved { is_suspended: resources.is_suspended },
                    ..flow
                },
                PanelStep {
                    report: Some(
                        ProviderProgress {
                            stage: ProviderProgressStage::RequestingPower,
                            detail: "Host allocation is ready; requesting server power"@,
                        },
                    ),
                    action: PanelAction::SaveState {
                        artifact: power_record(
                            resources.current_state,
                            resources.is_suspended,
                            flow.is_limbo,
                            false,
                            flow.allocation,
                        ),
                    },
                },
            )
        },
        StateAction::WaitForStopping => start_ends(
            flow,
            Err(own_failure(flow, "ProviderStopping"@, "The server remained in stopping state"@)),
        ),
        StateAction::FailUnknown => start_ends(
            flow,
            Err(
                own_failure(
                    flow,
                    "ProviderStateUnknown"@,
                    "The provider returned an unsupported server state"@,
                ),
            ),
        ),
    }
}

/// The first path, where there is one, else the second.
pub open spec fn path_or(first: Option<Seq<char>>, second: Option<Seq<char>>) -> Option<Seq<char>> {
    match first {
        Some(_) => first,
        None => second,
    }
}

/// The power request has made a step.
pub open spec fn power_went(
    flow: StartFlow<Seq<char>>,
    is_suspended: bool,
    step: PowerStep<Seq<char>>,
) -> (StartFlow<Seq<char>>, PanelStep<Seq<char>>) {
    match step.next {
        PowerNext::Ask { action } => start_asks(
            flow,
            StartPhase::Powering { is_suspended, power: step.phase },
            action,
        ),
        PowerNext::Failed { failure } => start_ends(
            flow,
            Err(
                ProviderStartFailure {
                    detail_artifact_path: flow.artifact_path,
                    minecraft_address: flow.minecraft_address,
                    ..failure
                },
            ),
        ),
        PowerNext::Accepted => start_asks(
            flow,
            StartPhase::PoweredSaved,
            PanelAction::SaveState {
                artifact: power_record(
                    "starting"@,
                    is_suspended,
                    flow.is_limbo,
                    true,
                    flow.allocation,
                ),
            },
        ),
    }
}

/// The next step of a start.
#[verifier::opaque]
pub open spec fn start_step(
    flow: StartFlow<Seq<char>>,
    event: PanelEvent<Seq<char>, Seq<u8>>,
    now: u64,
) -> (StartFlow<Seq<char>>, PanelStep<Seq<char>>) {
    match (flow.phase, event) {
        (StartPhase::Details, PanelEvent::Details { reply: Ok(details) }) => start_asks(
            StartFlow { is_limbo: details.is_limbo, ..flow },
            StartPhase::DetailsSaved { details },
            PanelAction::SaveState {
                artifact: server_record(
                    match details.status {
                        Some(status) => status,
                        None => "unknown"@,
                    },
                    details.is_suspended,
                    details.is_limbo,
                ),
            },
        ),
        (StartPhase::Details, PanelEvent::Details { reply: Err(failure) }) => start_ends(
            flow,
            Err(failure),
        ),
        (StartPhase::DetailsSaved { details }, PanelEvent::Saved { path }) => details_saved(
            StartFlow { artifact_path: path, ..flow },
            details,
        ),
        (StartPhase::Waking { wake, after_conflict }, _) => wake_went(
            flow,
            wake,
            after_conflict,
            wake_step(wake, event, now),
        ),
        (StartPhase::Resources { after_conflict }, PanelEvent::Resources { reply }) => resources_read(
            flow,
            after_conflict,
            reply,
        ),
        (StartPhase::ConflictDetails { failure }, PanelEvent::Details { reply }) => conflict_details(
            flow,
            failure,
            reply,
        ),
        (StartPhase::ResourcesSaved { resources, waits }, PanelEvent::Saved { path }) => resources_saved(
            StartFlow { artifact_path: path, ..flow },
            resources,
            waits,
        ),
        (StartPhase::StoppingPause { waits }, PanelEvent::Paused) => start_asks(
            flow,
            StartPhase::StoppingResources { waits },
            PanelAction::ReadResources { limit_ms: None },
        ),
        (StartPhase::StoppingResources { waits }, PanelEvent::Resources { reply: Ok(resources) }) =>
            save_resources(flow, resources, waits),
        (StartPhase::StoppingResources { waits }, PanelEvent::Resources { reply: Err(failure) }) =>
            start_ends(flow, Err(with_address(flow, failure))),
        (StartPhase::PowerSaved { is_suspended }, PanelEvent::Saved { path }) => start_asks(
            StartFlow { artifact_path: path_or(path, flow.artifact_path), ..flow },
            StartPhase::Powering { is_suspended, power: PowerPhase::Posting },
            PanelAction::PostPower,
        ),
        (StartPhase::Powering { is_suspended, power }, _) => power_went(
            flow,
            is_suspended,
            power_step(power, event, now),
        ),
        (StartPhase::PoweredSaved, PanelEvent::Saved { path }) => start_ends(
            flow,
            Ok(
                ProviderStartResult {
                    outcome: StartOutcome::StartRequested,
                    provider_status: "Start requested"@,
                    minecraft_address: flow.minecraft_address,
                    screenshot_path: None,
                    detail_artifact_path: path_or(path, flow.artifact_path),
                },
            ),
        ),
        _ => arbitrary(),
    }
}

// ---------------------------------------------------------------------------
// The steps
// ---------------------------------------------------------------------------

impl StartFlow<String> {
    /// A start, and what it asks for first.
    pub fn begin(power_enabled: bool, wait_ms: u64) -> (r: (StartFlow, PanelStep))
        ensures
            r.0@ == fresh_start(power_enabled, wait_ms),
            r.1@ == opening_step(),
    {
        let flow = StartFlow {
            power_enabled,
            wait_ms,
            is_limbo: false,
            minecraft_address: None,
            allocation: None,
            artifact_path: None,
            phase: StartPhase::Details,
        };
        let report = progress(ProviderProgressStage::SolvingChallenge, "Preparing provider access");
        (flow, PanelStep { report, action: PanelAction::ReadDetails })
    }

    fn ask(self, phase: StartPhase, action: PanelAction) -> (r: (StartFlow, PanelStep))
        ensures
            (r.0@, r.1@) == start_asks(self@, phase@, action@),
    {
        let mut flow = self;
        flow.phase = phase;
        (flow, PanelStep { report: None, action })
    }

    fn finish(self, end: StartEnd<String>) -> (r: (StartFlow, PanelStep))
        ensures
            (r.0@, r.1@) == start_ends(self@, crate::pterodactyl::panel::end_view(end)),
    {
        self.ask(StartPhase::Over, PanelAction::Finish { end })
    }

    fn failure(&self, error_class: &str, message: &str) -> (r: ProviderStartFailure)
        ensures
            r@ == own_failure(self@, error_class@, message@),
    {
        let failure = provider_failure(
            error_class,
            message,
            text::copy_opt(&self.artifact_path),
            ProviderMutation::Nothing,
        );
        attach_minecraft_address(failure, &self.minecraft_address)
    }

    fn wake(self, server_uuid: String, after_conflict: bool) -> (r: (StartFlow, PanelStep))
        ensures
            (r.0@, r.1@) == begin_wake(self@, server_uuid@, after_conflict),
    {
        let (wake, action) = WakeFlow::begin(server_uuid, self.power_enabled, self.wait_ms);
        self.ask(StartPhase::Waking { wake, after_conflict }, action)
    }

    fn after_details_saved(self, details: PterodactylServer) -> (r: (StartFlow, PanelStep))
        ensures
            (r.0@, r.1@) == details_saved(self@, details@),
    {
        match action_for_server_details(&details) {
            ServerDetailsAction::Wake => self.wake(details.uuid, false),
            ServerDetailsAction::FailSuspended => {
                let failure = provider_failure(
                    "ProviderSuspended",
                    "The configured server is suspended",
                    text::copy_opt(&self.artifact_path),
                    ProviderMutation::Nothing,
                );
                self.finish(Err(failure))
            },
            ServerDetailsAction::FetchResources => self.ask(
                StartPhase::Resources { after_conflict: false },
                PanelAction::ReadResources { limit_ms: None },
            ),
        }
    }

    fn after_wake(
        self,
        wake: WakeFlow,
        after_conflict: bool,
        event: PanelEvent,
        now: u64,
    ) -> (r: (StartFlow, PanelStep))
        requires
            wake_awaits(wake@, event@),
        ensures
            (r.0@, r.1@) == wake_went(self@, wake@, after_conflict, wake_step(wake@, event@, now)),
    {
        let (wake, report, next) = wake.ensure_limbo_awake(event, now);
        let mut flow = self;
        match next {
            WakeNext::Ask { action } => {
                flow.phase = StartPhase::Waking { wake, after_conflict };
                (flow, PanelStep { report, action })
            },
            WakeNext::Ended { end: Ok(allocation) } => {
                flow.minecraft_address = text::copy_opt(&allocation.minecraft_address);
                flow.allocation = Some(allocation);
                flow.phase = StartPhase::Resources { after_conflict };
                (flow, PanelStep { report, action: PanelAction::ReadResources { limit_ms: None } })
            },
            WakeNext::Ended { end: Err(failure) } => {
                let mut failure = failure;
                failure.detail_artifact_path = text::copy_opt(&flow.artifact_path);
                flow.phase = StartPhase::Over;
                (flow, PanelStep { report, action: PanelAction::Finish { end: Err(failure) } })
            },
        }
    }

    fn save(self, resources: PterodactylResources, waits: u64) -> (r: (StartFlow, PanelStep))
        ensures
            (r.0@, r.1@) == save_resources(self@, resources@, waits),
    {
        let artifact = state_artifact(
            resources.current_state.as_str(),
            resources.is_suspended,
            self.is_limbo,
        );
        self.ask(
            StartPhase::ResourcesSaved { resources, waits },
            PanelAction::SaveState { artifact },
        )
    }

    fn after_resources(
        self,
        after_conflict: bool,
        reply: Result<PterodactylResources, ProviderStartFailure>,
    ) -> (r: (StartFlow, PanelStep))
        ensures
            (r.0@, r.1@) == resources_read(
                self@,
                after_conflict,
                match reply {
                    Ok(resources) => Ok(resources@),
                    Err(failure) => Err(failure@),
                },
            ),
    {
        match reply {
            Ok(resources) => self.save(resources, 0),
            Err(failure) => {
                if !after_conflict && text::same(
                    failure.error_class.as_str(),
                    "ProviderStateConflict",
                ) {
                    self.ask(StartPhase::ConflictDetails { failure }, PanelAction::ReadDetails)
                } else {
                    let failure = attach_minecraft_address(failure, &self.minecraft_address);
                    self.finish(Err(failure))
                }
            },
        }
    }

    fn after_conflict_details(
        self,
        failure: ProviderStartFailure,
        reply: Result<PterodactylServer, ProviderStartFailure>,
    ) -> (r: (StartFlow, PanelStep))
        ensures
            (r.0@, r.1@) == conflict_details(
                self@,
                failure@,
                match reply {
                    Ok(details) => Ok(details@),
                    Err(other) => Err(other@),
                },
            ),
    {
        match reply {
            Err(other) => self.finish(Err(other)),
            Ok(details) => {
                if details.is_limbo {
                    let mut flow = self;
                    flow.is_limbo = true;
                    flow.wake(details.uuid, true)
                } else {
                    self.finish(Err(failure))
                }
            },
        }
    }

    fn after_resources_saved(self, resources: PterodactylResources, waits: u64) -> (r: (StartFlow, PanelStep))
        ensures
            (r.0@, r.1@) == resources_saved(self@, resources@, waits),
    {
        let action = action_for_state(resources.current_state.as_str());
        if waits == 0 && resources.is_suspended {
            let failure = self.failure("ProviderSuspended", "The configured server is suspended");
            return self.finish(Err(failure));
        }
        if action == StateAction::WaitForStopping && waits < STOPPING_WAIT_ATTEMPTS {
            return self.ask(
                StartPhase::StoppingPause { waits: waits + 1 },
                PanelAction::Pause { pause_ms: STOPPING_WAIT_INTERVAL_MS },
            );
        }
        if resources.is_suspended {
            let failure = self.failure("ProviderSuspended", "The configured server became suspended");
            return self.finish(Err(failure));
        }
        self.settle(resources, action)
    }

    fn settle(self, resources: PterodactylResources, action: StateAction) -> (r: (StartFlow, PanelStep))
        ensures
            (r.0@, r.1@) == decide(self@, resources@, action),
    {
        match action {
            StateAction::AlreadyActive => {
                let result = ProviderStartResult {
                    outcome: StartOutcome::AlreadyActive,
                    provider_status: normalized_state(resources.current_state.as_str()),
                    minecraft_address: text::copy_opt(&self.minecraft_address),
                    screenshot_path: None,
                    detail_artifact_path: text::copy_opt(&self.artifact_path),
                };
                self.finish(Ok(result))
            },
            StateAction::RequestStart => {
                if !self.power_enabled {
                    let failure = self.failure(
                        "ProviderPowerDisabled",
                        "Pterodactyl power actions are disabled by configuration",
                    );
                    return self.finish(Err(failure));
                }
                let artifact = power_state_artifact(
                    resources.current_state.as_str(),
                    resources.is_suspended,
                    self.is_limbo,
                    false,
                    &self.allocation,
                );
                let (flow, step) = self.ask(
                    StartPhase::PowerSaved { is_suspended: resources.is_suspended },
                    PanelAction::SaveState { artifact },
                );
                let mut step = step;
                step.report =
                progress(
                    ProviderProgressStage::RequestingPower,
                    "Host allocation is ready; requesting server power",
                );
                (flow, step)
            },
            StateAction::WaitForStopping => {
                let failure = self.failure("ProviderStopping", "The server remained in stopping state");
                self.finish(Err(failure))
            },
            StateAction::FailUnknown => {
                let failure = self.failure(
                    "ProviderStateUnknown",
                    "The provider returned an unsupported server state",
                );
                self.finish(Err(failure))
            },
        }
    }

    fn after_power(
        self,
        is_suspended: bool,
        power: PowerPhase,
        event: PanelEvent,
        now: u64,
    ) -> (r: (StartFlow, PanelStep))
        requires
            power_awaits(power@, event@),
        ensures
            (r.0@, r.1@) == power_went(self@, is_suspended, power_step(power@, event@, now)),
    {
        let step = power.advance(event, now);
        match step.next {
            PowerNext::Ask { action } => self.ask(
                StartPhase::Powering { is_suspended, power: step.phase },
                action,
            ),
            PowerNext::Failed { failure } => {
                let mut failure = failure;
                failure.detail_artifact_path = text::copy_opt(&self.artifact_path);
                failure.minecraft_address = text::copy_opt(&self.minecraft_address);
                self.finish(Err(failure))
            },
            PowerNext::Accepted => {
                let artifact = power_state_artifact(
                    "starting",
                    is_suspended,
                    self.is_limbo,
                    true,
                    &self.allocation,
                );
                self.ask(StartPhase::PoweredSaved, PanelAction::SaveState { artifact })
            },
        }
    }

    /// Takes the outcome that the start waits for to its next action.
    pub fn start_inner(self, event: PanelEvent, now: u64) -> (r: (StartFlow, PanelStep))
        requires
            start_awaits(self@, event@),
        ensures
            (r.0@, r.1@) == start_step(self@, event@, now),
    {
        proof {
            reveal(start_step);
        }
        let mut flow = StartFlow {
            power_enabled: self.power_enabled,
            wait_ms: self.wait_ms,
            is_limbo: self.is_limbo,
            minecraft_address: self.minecraft_address,
            allocation: self.allocation,
            artifact_path: self.artifact_path,
            phase: StartPhase::Over,
        };
        match (self.phase, event) {
            (StartPhase::Details, PanelEvent::Details { reply: Ok(details) }) => {
                let status = match &details.status {
                    Some(status) => status.as_str(),
                    None => "unknown",
                };
                let artifact = state_artifact(status, details.is_suspended, details.is_limbo);
                flow.is_limbo = details.is_limbo;
                flow.ask(StartPhase::DetailsSaved { details }, PanelAction::SaveState { artifact })
            },
            (StartPhase::Details, PanelEvent::Details { reply: Err(failure) }) => flow.finish(
                Err(failure),
            ),
            (StartPhase::DetailsSaved { details }, PanelEvent::Saved { path }) => {
                flow.artifact_path = path;
                flow.after_details_saved(details)
            },
            (StartPhase::Waking { wake, after_conflict }, event) => flow.after_wake(
                wake,
                after_conflict,
                event,
                now,
            ),
            (StartPhase::Resources { after_conflict }, PanelEvent::Resources { reply }) =>
                flow.after_resources(after_conflict, reply),
            (StartPhase::ConflictDetails { failure }, PanelEvent::Details { reply }) =>
                flow.after_conflict_details(failure, reply),
            (StartPhase::ResourcesSaved { resources, waits }, PanelEvent::Saved { path }) => {
                flow.artifact_path = path;
                flow.after_resources_saved(resources, waits)
            },
            (StartPhase::StoppingPause { waits }, PanelEvent::Paused) => flow.ask(
                StartPhase::StoppingResources { waits },
                PanelAction::ReadResources { limit_ms: None },
            ),
            (StartPhase::StoppingResources { waits }, PanelEvent::Resources { reply: Ok(resources) }) =>
                flow.save(resources, waits),
            (StartPhase::StoppingResources { waits }, PanelEvent::Resources { reply: Err(failure) }) => {
                let failure = attach_minecraft_address(failure, &flow.minecraft_address);
                flow.finish(Err(failure))
            },
            (StartPhase::PowerSaved { is_suspended }, PanelEvent::Saved { path }) => {
                if path.is_some() {
                    flow.artifact_path = path;
                }
                flow.ask(
                    StartPhase::Powering { is_suspended, power: PowerPhase::Posting },
                    PanelAction::PostPower,
                )
            },
            (StartPhase::Powering { is_suspended, power }, event) => flow.after_power(
                is_suspended,
                power,
                event,
                now,
            ),
            (StartPhase::PoweredSaved, PanelEvent::Saved { path }) => {
                let result = ProviderStartResult {
                    outcome: StartOutcome::StartRequested,
                    provider_status: "Start requested".to_owned(),
                    minecraft_address: text::copy_opt(&flow.minecraft_address),
                    screenshot_path: None,
                    detail_artifact_path: if path.is_some() {
                        path
                    } else {
                        text::copy_opt(&flow.artifact_path)
                    },
                };
                flow.finish(Ok(result))
            },
            _ => vstd::pervasive::unreached(),
        }
    }
}

} // verus!
