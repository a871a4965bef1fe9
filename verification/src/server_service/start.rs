//! The start command: from its admission to the end of its run.

use vstd::prelude::*;
use crate::minecraft::{status_text, ServerStatus};
use crate::provider::{
    ProviderProgress, ProviderStartFailure, ProviderStartResult,
};
use crate::run_history::RunContext;
use crate::server_service::responses;
use crate::server_service::responses::{
    accepted_detail, checking_text, failure_detail, final_text, noticed, preparing_text, progress_text,
    public_failure, unconfirmed_text, unverified_text, waiting_text, with_run, Wording,
    UNCONFIRMED_PROVIDER_STATUS,
};
use crate::server_service::tracking::{RunEnd, StepNote};
use crate::server_service::StartOptions;
use crate::state::{opt_active, ActiveStartRun, StartAdmissionError};
use crate::terminal;
use crate::terminal::{cleaned, duration_text};
use crate::text;
use crate::text::{join, only_if, opt_str, opt_text, texts};

verus! {

/// How long the bot looks for signs of a start whose confirmation was lost.
pub const POST_CLICK_VERIFY_SECS: u64 = 60;

/// How long the bot pauses between two looks at the server.
pub const MINECRAFT_STATUS_POLL_SECS: u64 = 5;

// ---------------------------------------------------------------------------
// Requests
// ---------------------------------------------------------------------------

/// A start as it was asked for.
#[verifier::ext_equal]
#[derive(Clone, Debug)]
pub struct StartRequest<T = String> {
    pub context: RunContext<T>,
    pub options: StartOptions,
    pub wording: Wording,
    pub notice: Option<T>,
    pub provider_name: T,
    pub wait_online_secs: u64,
    pub caller_is_owner: bool,
}

impl View for StartRequest<String> {
    type V = StartRequest<Seq<char>>;

    open spec fn view(&self) -> StartRequest<Seq<char>> {
        StartRequest {
            context: self.context@,
            options: self.options,
            wording: self.wording,
            notice: opt_text(self.notice),
            provider_name: self.provider_name@,
            wait_online_secs: self.wait_online_secs,
            caller_is_owner: self.caller_is_owner,
        }
    }
}

/// Whether a caller may learn the ID of the start under way.
pub open spec fn sees_run_id(
    caller_is_owner: bool,
    caller_guild_id: Option<Seq<char>>,
    active_guild_id: Option<Seq<char>>,
) -> bool {
    caller_is_owner || (active_guild_id is Some && caller_guild_id == active_guild_id)
}

/// Whether a caller may learn the ID of the start under way: an owner, or a
/// member of the guild in which it was asked for.
pub fn caller_can_see_active_run_id_for(
    caller_is_owner: bool,
    caller_guild_id: Option<&str>,
    active_guild_id: Option<&str>,
) -> (r: bool)
    ensures
        r == sees_run_id(caller_is_owner, opt_str(caller_guild_id), opt_str(active_guild_id)),
{
    if caller_is_owner {
        return true;
    }
    match (caller_guild_id, active_guild_id) {
        (Some(caller), Some(active)) => text::same(caller, active),
        _ => false,
    }
}

/// What is said where a start is under way already.
pub open spec fn busy_text(run_id: Seq<char>, can_see_run_id: bool, just_started: bool) -> Seq<char> {
    if can_see_run_id && just_started {
        "A start operation began just now as `"@ + run_id + "`. Use `/bot run run_id:"@ + run_id
            + "` to inspect it after it finishes."@
    } else if can_see_run_id {
        "A start operation is already running as `"@ + run_id + "`. Use `/bot run run_id:"@ + run_id
            + "` to inspect the last recorded details."@
    } else if just_started {
        "A start operation began just now. Try again after it finishes."@
    } else {
        "A start operation is already running. Try again after it finishes."@
    }
}

/// What is said where a start is under way already.
pub fn active_start_busy_message_for(run_id: &str, can_see_run_id: bool, just_started: bool) -> (r: String)
    ensures
        r@ == busy_text(run_id@, can_see_run_id, just_started),
{
    if can_see_run_id && just_started {
        text::cat5(
            "A start operation began just now as `",
            run_id,
            "`. Use `/bot run run_id:",
            run_id,
            "` to inspect it after it finishes.",
        )
    } else if can_see_run_id {
        text::cat5(
            "A start operation is already running as `",
            run_id,
            "`. Use `/bot run run_id:",
            run_id,
            "` to inspect the last recorded details.",
        )
    } else if just_started {
        "A start operation began just now. Try again after it finishes.".to_owned()
    } else {
        "A start operation is already running. Try again after it finishes.".to_owned()
    }
}

/// What a caller without sight of the start under way is told does not depend
/// on its ID.
pub proof fn hidden_run_ids_stay_hidden(one: Seq<char>, other: Seq<char>, just_started: bool)
    ensures
        busy_text(one, false, just_started) == busy_text(other, false, just_started),
{
}

/// A caller in another guild, or outside of guilds, has no sight of the start
/// under way, and nobody but an owner has of one asked for outside of guilds.
pub proof fn other_guilds_see_no_run_id(caller_guild_id: Option<Seq<char>>, active_guild_id: Option<Seq<char>>)
    requires
        caller_guild_id != active_guild_id || active_guild_id is None,
    ensures
        !sees_run_id(false, caller_guild_id, active_guild_id),
{
}

// ---------------------------------------------------------------------------
// Steps
// ---------------------------------------------------------------------------

/// What is done on the way to the next action, in order. None of it fails.
#[verifier::ext_equal]
#[derive(Clone, Debug)]
#[allow(inconsistent_fields)]
pub enum Effect<T = String> {
    /// The run begins to be tracked.
    Track,
    /// Write a line about the command.
    Emit { label: T, detail: T },
    /// Record a step of the run.
    Step { note: StepNote<T> },
    /// Record the end of the run.
    End { end: RunEnd<T> },
    /// Let the next start in.
    Release,
}

impl View for Effect<String> {
    type V = Effect<Seq<char>>;

    open spec fn view(&self) -> Effect<Seq<char>> {
        match *self {
            Effect::Track => Effect::Track,
            Effect::Emit { label, detail } => Effect::Emit { label: label@, detail: detail@ },
            Effect::Step { note } => Effect::Step { note: note@ },
            Effect::End { end } => Effect::End { end: end@ },
            Effect::Release => Effect::Release,
        }
    }
}

/// The views of a list of effects.
pub open spec fn effects(items: Seq<Effect>) -> Seq<Effect<Seq<char>>> {
    items.map_values(|item: Effect| item@)
}

/// What the command asks for next.
#[verifier::ext_equal]
#[derive(Clone, Debug)]
#[allow(inconsistent_fields)]
pub enum StartAction<T = String> {
    /// Tell Discord that an answer will come.
    Defer,
    ReadActive,
    Say { content: T },
    Admit,
    Reply { content: T },
    /// Post the progress message.
    Announce { content: T },
    AskStatus,
    StartProvider,
    /// Wait for the provider's next report or for its result.
    AwaitProvider,
    /// Replace the progress message, below the notice where there is one.
    Edit { content: T, screenshot: Option<T> },
    Pause { secs: u64 },
    Prune,
    Finish { error: Option<T> },
}

impl View for StartAction<String> {
    type V = StartAction<Seq<char>>;

    open spec fn view(&self) -> StartAction<Seq<char>> {
        match *self {
            StartAction::Defer => StartAction::Defer,
            StartAction::ReadActive => StartAction::ReadActive,
            StartAction::Say { content } => StartAction::Say { content: content@ },
            StartAction::Admit => StartAction::Admit,
            StartAction::Reply { content } => StartAction::Reply { content: content@ },
            StartAction::Announce { content } => StartAction::Announce { content: content@ },
            StartAction::AskStatus => StartAction::AskStatus,
            StartAction::StartProvider => StartAction::StartProvider,
            StartAction::AwaitProvider => StartAction::AwaitProvider,
            StartAction::Edit { content, screenshot } => StartAction::Edit {
                content: content@,
                screenshot: opt_text(screenshot),
            },
            StartAction::Pause { secs } => StartAction::Pause { secs },
            StartAction::Prune => StartAction::Prune,
            StartAction::Finish { error } => StartAction::Finish { error: opt_text(error) },
        }
    }
}

/// What a contract sees of the server's status.
pub type StatusView = ServerStatus<Seq<char>, Seq<Seq<char>>>;

/// What came of an action; an error is told by its message.
#[verifier::ext_equal]
#[allow(inconsistent_fields)]
pub enum StartEvent<T = String, S = ServerStatus> {
    /// What was sent, edited, deferred or pruned is done, or failed.
    Done { error: Option<T> },
    Active { active: Option<ActiveStartRun<T>> },
    Admitted,
    Refused { error: StartAdmissionError<T> },
    Status { status: Result<S, T> },
    Progress { progress: ProviderProgress<T> },
    Started { result: ProviderStartResult<T> },
    Failed { failure: ProviderStartFailure<T> },
    /// The task in which the provider works broke off.
    Broken { error: T },
    Paused,
}

impl View for StartEvent<String, ServerStatus> {
    type V = StartEvent<Seq<char>, StatusView>;

    open spec fn view(&self) -> StartEvent<Seq<char>, StatusView> {
        match *self {
            StartEvent::Done { error } => StartEvent::Done { error: opt_text(error) },
            StartEvent::Active { active } => StartEvent::Active { active: opt_active(active) },
            StartEvent::Admitted => StartEvent::Admitted,
            StartEvent::Refused { error } => StartEvent::Refused { error: error@ },
            StartEvent::Status { status: Ok(status) } => StartEvent::Status { status: Ok(status@) },
            StartEvent::Status { status: Err(error) } => StartEvent::Status { status: Err(error@) },
            StartEvent::Progress { progress } => StartEvent::Progress { progress: progress@ },
            StartEvent::Started { result } => StartEvent::Started { result: result@ },
            StartEvent::Failed { failure } => StartEvent::Failed { failure: failure@ },
            StartEvent::Broken { error } => StartEvent::Broken { error: error@ },
            StartEvent::Paused => StartEvent::Paused,
        }
    }
}

/// What the wait for Minecraft comes back to.
#[verifier::ext_equal]
#[derive(Clone, Debug)]
pub struct WaitPlan<T = String> {
    pub wording: Wording,
    pub provider_status: T,
    pub screenshot: Option<T>,
    /// What was known of Minecraft before the wait.
    pub known: Option<T>,
}

impl View for WaitPlan<String> {
    type V = WaitPlan<Seq<char>>;

    open spec fn view(&self) -> WaitPlan<Seq<char>> {
        WaitPlan {
            wording: self.wording,
            provider_status: self.provider_status@,
            screenshot: opt_text(self.screenshot),
            known: opt_text(self.known),
        }
    }
}

/// What the check of an unconfirmed start comes back to.
#[verifier::ext_equal]
#[derive(Clone, Debug)]
pub struct CheckPlan<T = String> {
    pub screenshot: Option<T>,
    /// What was known of Minecraft before the start.
    pub known: Option<T>,
}

impl View for CheckPlan<String> {
    type V = CheckPlan<Seq<char>>;

    open spec fn view(&self) -> CheckPlan<Seq<char>> {
        CheckPlan { screenshot: opt_text(self.screenshot), known: opt_text(self.known) }
    }
}

/// Where the command stands: which outcome it waits for, and what it needs to
/// remember.
#[verifier::ext_equal]
#[derive(Clone, Debug)]
#[allow(inconsistent_fields)]
pub enum StartPhase<T = String> {
    Deferring,
    ReadingActive,
    /// The last word of a command that started nothing.
    Replying,
    Admitting,
    Acknowledging,
    Announcing,
    Preflight,
    Running { known: Option<T> },
    ShowingProgress { known: Option<T> },
    TellingWait { plan: WaitPlan<T> },
    Waiting { plan: WaitPlan<T>, deadline_ms: u128, last: Option<T> },
    PausingWait { plan: WaitPlan<T>, deadline_ms: u128, last: Option<T> },
    TellingCheck { plan: CheckPlan<T> },
    Checking { plan: CheckPlan<T>, deadline_ms: u128, last: Option<T> },
    PausingCheck { plan: CheckPlan<T>, deadline_ms: u128, last: Option<T> },
    /// The last word of a run, before its end is recorded.
    TellingEnd { end: RunEnd<T> },
    /// The last word of a run that broke off.
    TellingFailure,
    Pruning { error: Option<T> },
    Over,
}

impl View for StartPhase<String> {
    type V = StartPhase<Seq<char>>;

    open spec fn view(&self) -> StartPhase<Seq<char>> {
        match *self {
            StartPhase::Deferring => StartPhase::Deferring,
            StartPhase::ReadingActive => StartPhase::ReadingActive,
            StartPhase::Replying => StartPhase::Replying,
            StartPhase::Admitting => StartPhase::Admitting,
            StartPhase::Acknowledging => StartPhase::Acknowledging,
            StartPhase::Announcing => StartPhase::Announcing,
            StartPhase::Preflight => StartPhase::Preflight,
            StartPhase::Running { known } => StartPhase::Running { known: opt_text(known) },
            StartPhase::ShowingProgress { known } => StartPhase::ShowingProgress {
                known: opt_text(known),
            },
            StartPhase::TellingWait { plan } => StartPhase::TellingWait { plan: plan@ },
            StartPhase::Waiting { plan, deadline_ms, last } => StartPhase::Waiting {
                plan: plan@,
                deadline_ms,
                last: opt_text(last),
            },
            StartPhase::PausingWait { plan, deadline_ms, last } => StartPhase::PausingWait {
                plan: plan@,
                deadline_ms,
                last: opt_text(last),
            },
            StartPhase::TellingCheck { plan } => StartPhase::TellingCheck { plan: plan@ },
            StartPhase::Checking { plan, deadline_ms, last } => StartPhase::Checking {
                plan: plan@,
                deadline_ms,
                last: opt_text(last),
            },
            StartPhase::PausingCheck { plan, deadline_ms, last } => StartPhase::PausingCheck {
                plan: plan@,
                deadline_ms,
                last: opt_text(last),
            },
            StartPhase::TellingEnd { end } => StartPhase::TellingEnd { end: end@ },
            StartPhase::TellingFailure => StartPhase::TellingFailure,
            StartPhase::Pruning { error } => StartPhase::Pruning { error: opt_text(error) },
            StartPhase::Over => StartPhase::Over,
        }
    }
}

/// Which outcomes a phase waits for.
pub open spec fn start_awaits(phase: StartPhase<Seq<char>>, event: StartEvent<Seq<char>, StatusView>) -> bool {
    match phase {
        StartPhase::Deferring
        | StartPhase::Replying
        | StartPhase::Acknowledging
        | StartPhase::Announcing
        | StartPhase::ShowingProgress { .. }
        | StartPhase::TellingWait { .. }
        | StartPhase::TellingCheck { .. }
        | StartPhase::TellingEnd { .. }
        | StartPhase::TellingFailure
        | StartPhase::Pruning { .. } => event is Done,
        StartPhase::ReadingActive => event is Active,
        StartPhase::Admitting => event is Admitted || event is Refused,
        StartPhase::Preflight
        | StartPhase::Waiting { .. }
        | StartPhase::Checking { .. } => event is Status,
        StartPhase::Running { .. } => event is Progress || event is Started || event is Failed || event
            is Broken,
        StartPhase::PausingWait { .. } | StartPhase::PausingCheck { .. } => event is Paused,
        StartPhase::Over => false,
    }
}

/// A phase, what is done on the way to it, and what it asks for.
pub type StartStep = (StartPhase<Seq<char>>, Seq<Effect<Seq<char>>>, StartAction<Seq<char>>);

/// The view of a step.
pub open spec fn step_view(step: (StartPhase, Vec<Effect>, StartAction)) -> StartStep {
    (step.0@, effects(step.1@), step.2@)
}

// ---------------------------------------------------------------------------
// Parts of steps
// ---------------------------------------------------------------------------

/// A step to record.
pub open spec fn note(step: Seq<char>, status: Seq<char>, detail: Seq<char>, error_class: Option<Seq<char>>) -> Effect<Seq<char>> {
    Effect::Step {
        note: StepNote { step, status, detail: Some(detail), screenshot_path: None, error_class },
    }
}

/// A step of the provider to record.
pub open spec fn provider_note(
    wording: Wording,
    status: Seq<char>,
    detail: Seq<char>,
    screenshot_path: Option<Seq<char>>,
    error_class: Option<Seq<char>>,
) -> Effect<Seq<char>> {
    Effect::Step {
        note: StepNote {
            step: match wording {
                Wording::Provider => "provider_start"@,
                Wording::Dashboard => "aternos_dashboard"@,
            },
            status,
            detail: Some(detail),
            screenshot_path,
            error_class,
        },
    }
}

/// A moment so many seconds later, or the last there is.
pub open spec fn after(now_ms: u128, secs: u64) -> u128 {
    if now_ms + secs * 1000 > u128::MAX {
        u128::MAX
    } else {
        (now_ms + secs * 1000) as u128
    }
}

/// The first of two that is there.
pub open spec fn first_known(one: Option<Seq<char>>, other: Option<Seq<char>>) -> Option<Seq<char>> {
    if one is Some {
        one
    } else {
        other
    }
}

/// The command ends without a start.
pub open spec fn ends(error: Option<Seq<char>>) -> StartStep {
    (StartPhase::Over, Seq::empty(), StartAction::Finish { error })
}

/// The command ends with a last word.
pub open spec fn replies(
    request: StartRequest<Seq<char>>,
    before: Seq<Effect<Seq<char>>>,
    content: Seq<char>,
) -> StartStep {
    (StartPhase::Replying, before, StartAction::Say { content: noticed(content, request.notice) })
}

/// Another start is under way.
pub open spec fn is_busy(
    request: StartRequest<Seq<char>>,
    active: ActiveStartRun<Seq<char>>,
    just_started: bool,
) -> StartStep {
    replies(
        request,
        seq![Effect::Emit { label: "BUSY"@, detail: active.run_id + " already running"@ }],
        busy_text(
            active.run_id,
            sees_run_id(request.caller_is_owner, request.context.guild_id, active.guild_id),
            just_started,
        ),
    )
}

/// What the line about the beginning of a run says.
pub open spec fn start_details(request: StartRequest<Seq<char>>) -> Seq<char> {
    join(
        seq![request.context.run_id] + only_if(
            request.options.wait_online,
            "wait "@ + duration_text((request.wait_online_secs * 1000) as nat),
        ) + only_if(request.options.force, "force"@),
        " "@,
    )
}

/// The run ends after a last word.
pub open spec fn concludes(
    before: Seq<Effect<Seq<char>>>,
    end: RunEnd<Seq<char>>,
    content: Seq<char>,
) -> StartStep {
    (
        StartPhase::TellingEnd { end },
        before,
        StartAction::Edit { content, screenshot: end.screenshot_path },
    )
}

/// The run breaks off.
pub open spec fn breaks_off(request: StartRequest<Seq<char>>, error: Seq<char>) -> StartStep {
    (
        StartPhase::TellingFailure,
        seq![
            Effect::End {
                end: RunEnd {
                    outcome: "Failed"@,
                    provider_status: None,
                    minecraft_status: None,
                    screenshot_path: None,
                    error_class: Some("CommandError"@),
                },
            },
            Effect::Emit {
                label: "FAIL"@,
                detail: request.context.run_id + " error "@ + cleaned(error),
            },
        ],
        StartAction::Edit {
            content: with_run("Start failed."@, request.context.run_id) + "\nError: `"@ + cleaned(error)
                + "`"@,
            screenshot: None,
        },
    )
}

/// The next start may come, and old artifacts go.
pub open spec fn winds_up(before: Seq<Effect<Seq<char>>>, error: Option<Seq<char>>) -> StartStep {
    (StartPhase::Pruning { error }, before.push(Effect::Release), StartAction::Prune)
}

/// The run begins: with a look at the server, or at once where that is skipped.
pub open spec fn run_begins(request: StartRequest<Seq<char>>) -> StartStep {
    if request.options.force {
        (
            StartPhase::Running { known: None },
            seq![note("minecraft_preflight"@, "skipped"@, "force=true"@, None)],
            StartAction::StartProvider,
        )
    } else {
        (StartPhase::Preflight, Seq::empty(), StartAction::AskStatus)
    }
}

/// What the look at the server before the start leads to.
pub open spec fn preflight_done(request: StartRequest<Seq<char>>, status: Result<StatusView, Seq<char>>) -> StartStep {
    match status {
        Ok(status) => {
            let seen = seq![note("minecraft_preflight"@, "ok"@, status_text(status), None)];
            if status.offline_like() {
                (
                    StartPhase::Running { known: Some(status_text(status)) },
                    seen,
                    StartAction::StartProvider,
                )
            } else {
                concludes(
                    seen,
                    RunEnd {
                        outcome: "AlreadyOnline"@,
                        provider_status: None,
                        minecraft_status: Some(status_text(status)),
                        screenshot_path: None,
                        error_class: None,
                    },
                    with_run(
                        "Server is already **"@ + status_text(status) + "**."@,
                        request.context.run_id,
                    ),
                )
            }
        },
        Err(error) => (
            StartPhase::Running { known: None },
            seq![
                Effect::Emit {
                    label: "WARN"@,
                    detail: request.context.run_id + " preflight failed; continuing; error "@ + cleaned(
                        error,
                    ),
                },
                note(
                    "minecraft_preflight"@,
                    "warning"@,
                    "Could not check status ("@ + error + "); proceeding"@,
                    None,
                ),
            ],
            StartAction::StartProvider,
        ),
    }
}

/// The provider reports progress.
pub open spec fn progresses(
    request: StartRequest<Seq<char>>,
    known: Option<Seq<char>>,
    progress: ProviderProgress<Seq<char>>,
) -> StartStep {
    (
        StartPhase::ShowingProgress { known },
        seq![
            note("provider_progress"@, progress.stage.name(), progress.detail, None),
            Effect::Emit {
                label: "WAIT"@,
                detail: request.context.run_id + " "@ + progress.stage.name() + " "@ + cleaned(
                    progress.detail,
                ),
            },
        ],
        StartAction::Edit {
            content: progress_text(request.context.run_id, progress),
            screenshot: None,
        },
    )
}

/// The wait for Minecraft is over.
pub open spec fn wait_over(
    request: StartRequest<Seq<char>>,
    plan: WaitPlan<Seq<char>>,
    before: Seq<Effect<Seq<char>>>,
    outcome: Seq<char>,
    last: Option<Seq<char>>,
    error_class: Option<Seq<char>>,
) -> StartStep {
    concludes(
        before,
        RunEnd {
            outcome,
            provider_status: Some(plan.provider_status),
            minecraft_status: first_known(last, plan.known),
            screenshot_path: plan.screenshot,
            error_class,
        },
        final_text(
            plan.wording,
            request.context.run_id,
            request.provider_name,
            plan.provider_status,
            outcome,
        ),
    )
}

/// Minecraft is not online yet: another look after a pause, until the deadline.
pub open spec fn wait_again(
    request: StartRequest<Seq<char>>,
    plan: WaitPlan<Seq<char>>,
    deadline_ms: u128,
    last: Option<Seq<char>>,
    seen: Effect<Seq<char>>,
    now_ms: u128,
) -> StartStep {
    if now_ms >= deadline_ms {
        wait_over(
            request,
            plan,
            seq![
                seen,
                note(
                    "minecraft_wait_online"@,
                    "timeout"@,
                    "Timed out waiting for Minecraft to report online"@,
                    Some("WaitOnlineTimeout"@),
                ),
            ],
            "WaitOnlineTimeout"@,
            last,
            Some("WaitOnlineTimeout"@),
        )
    } else {
        (
            StartPhase::PausingWait { plan, deadline_ms, last },
            seq![seen],
            StartAction::Pause { secs: MINECRAFT_STATUS_POLL_SECS },
        )
    }
}

/// A look at the server during the wait.
pub open spec fn wait_looks(
    request: StartRequest<Seq<char>>,
    plan: WaitPlan<Seq<char>>,
    deadline_ms: u128,
    last: Option<Seq<char>>,
    status: Result<StatusView, Seq<char>>,
    now_ms: u128,
) -> StartStep {
    match status {
        Ok(status) => if status is Online {
            wait_over(
                request,
                plan,
                seq![note("minecraft_wait_online"@, "online"@, status_text(status), None)],
                "MinecraftOnline"@,
                Some(status_text(status)),
                None,
            )
        } else {
            wait_again(
                request,
                plan,
                deadline_ms,
                Some(status_text(status)),
                note("minecraft_wait_online"@, "waiting"@, status_text(status), None),
                now_ms,
            )
        },
        Err(error) => wait_again(
            request,
            plan,
            deadline_ms,
            last,
            note("minecraft_wait_online"@, "warning"@, error, Some("MinecraftStatusError"@)),
            now_ms,
        ),
    }
}

/// The provider accepted the start.
pub open spec fn provider_succeeded(
    request: StartRequest<Seq<char>>,
    known: Option<Seq<char>>,
    result: ProviderStartResult<Seq<char>>,
) -> StartStep {
    let done = seq![
        provider_note(
            request.wording,
            result.outcome.name(),
            accepted_detail(request.wording, result.provider_status, result.detail_artifact_path),
            result.screenshot_path,
            None,
        ),
    ];
    let plan = WaitPlan {
        wording: request.wording,
        provider_status: result.provider_status,
        screenshot: result.screenshot_path,
        known,
    };
    if request.options.wait_online {
        (
            StartPhase::TellingWait { plan },
            done,
            StartAction::Edit {
                content: waiting_text(
                    "Start accepted."@,
                    request.wait_online_secs,
                    request.context.run_id,
                ),
                screenshot: result.screenshot_path,
            },
        )
    } else {
        wait_over(request, plan, done, result.outcome.name(), None, None)
    }
}

/// The start failed: for good, or so that it may have happened all the same.
pub open spec fn provider_failed(
    request: StartRequest<Seq<char>>,
    known: Option<Seq<char>>,
    failure: ProviderStartFailure<Seq<char>>,
) -> StartStep {
    let detail = failure_detail(request.wording, failure);
    if failure.uncertain_mutation.starts_server() {
        (
            StartPhase::TellingCheck {
                plan: CheckPlan { screenshot: failure.screenshot_path, known },
            },
            seq![
                provider_note(
                    request.wording,
                    "StartSubmittedUnconfirmed"@,
                    detail,
                    failure.screenshot_path,
                    Some(failure.error_class),
                ),
            ],
            StartAction::Edit {
                content: checking_text(request.context.run_id),
                screenshot: failure.screenshot_path,
            },
        )
    } else {
        concludes(
            seq![
                provider_note(
                    request.wording,
                    "failed"@,
                    detail,
                    failure.screenshot_path,
                    Some(failure.error_class),
                ),
            ],
            RunEnd {
                outcome: "Failed"@,
                provider_status: None,
                minecraft_status: known,
                screenshot_path: failure.screenshot_path,
                error_class: Some(failure.error_class),
            },
            public_failure(failure.error_class, request.context.run_id),
        )
    }
}

/// Minecraft shows that an unconfirmed start was submitted.
pub open spec fn check_confirmed(
    request: StartRequest<Seq<char>>,
    plan: CheckPlan<Seq<char>>,
    status: StatusView,
) -> StartStep {
    let seen = seq![
        note("minecraft_post_click_verify"@, "accepted"@, status_text(status), None),
    ];
    if request.options.wait_online {
        (
            StartPhase::TellingWait {
                plan: WaitPlan {
                    wording: Wording::Provider,
                    provider_status: UNCONFIRMED_PROVIDER_STATUS@,
                    screenshot: plan.screenshot,
                    known: Some(status_text(status)),
                },
            },
            seen,
            StartAction::Edit {
                content: waiting_text(
                    "Start appears submitted."@,
                    request.wait_online_secs,
                    request.context.run_id,
                ),
                screenshot: plan.screenshot,
            },
        )
    } else {
        concludes(
            seen,
            RunEnd {
                outcome: "StartSubmittedUnconfirmed"@,
                provider_status: Some(UNCONFIRMED_PROVIDER_STATUS@),
                minecraft_status: Some(status_text(status)),
                screenshot_path: plan.screenshot,
                error_class: None,
            },
            unconfirmed_text(request.context.run_id, status_text(status)),
        )
    }
}

/// Nothing shows yet that an unconfirmed start was submitted: another look after
/// a pause, until the deadline.
pub open spec fn check_again(
    request: StartRequest<Seq<char>>,
    plan: CheckPlan<Seq<char>>,
    deadline_ms: u128,
    last: Option<Seq<char>>,
    seen: Effect<Seq<char>>,
    now_ms: u128,
) -> StartStep {
    if now_ms >= deadline_ms {
        concludes(
            seq![
                seen,
                note(
                    "minecraft_post_click_verify"@,
                    "timeout"@,
                    "Timed out verifying whether the start was submitted"@,
                    Some("StartSubmissionUnverified"@),
                ),
            ],
            RunEnd {
                outcome: "StartSubmissionUnverified"@,
                provider_status: Some(UNCONFIRMED_PROVIDER_STATUS@),
                minecraft_status: first_known(last, plan.known),
                screenshot_path: plan.screenshot,
                error_class: Some("StartSubmissionUnverified"@),
            },
            unverified_text(request.context.run_id),
        )
    } else {
        (
            StartPhase::PausingCheck { plan, deadline_ms, last },
            seq![seen],
            StartAction::Pause { secs: MINECRAFT_STATUS_POLL_SECS },
        )
    }
}

/// A look at the server after an unconfirmed start.
pub open spec fn check_looks(
    request: StartRequest<Seq<char>>,
    plan: CheckPlan<Seq<char>>,
    deadline_ms: u128,
    last: Option<Seq<char>>,
    status: Result<StatusView, Seq<char>>,
    now_ms: u128,
) -> StartStep {
    match status {
        Ok(status) => if !status.offline_like() {
            check_confirmed(request, plan, status)
        } else {
            check_again(
                request,
                plan,
                deadline_ms,
                Some(status_text(status)),
                note("minecraft_post_click_verify"@, "waiting"@, status_text(status), None),
                now_ms,
            )
        },
        Err(error) => check_again(
            request,
            plan,
            deadline_ms,
            last,
            note("minecraft_post_click_verify"@, "warning"@, error, Some("MinecraftStatusError"@)),
            now_ms,
        ),
    }
}

/// The start was admitted.
pub open spec fn admitted(request: StartRequest<Seq<char>>) -> StartStep {
    (
        StartPhase::Acknowledging,
        seq![
            Effect::Track,
            Effect::Emit { label: "START"@, detail: start_details(request) },
        ],
        StartAction::Reply {
            content: noticed(preparing_text(request.context.run_id), request.notice),
        },
    )
}

/// The start was not admitted.
pub open spec fn not_admitted(request: StartRequest<Seq<char>>, error: StartAdmissionError<Seq<char>>) -> StartStep {
    match error {
        StartAdmissionError::Busy(active) => is_busy(request, active, true),
        StartAdmissionError::ShuttingDown => replies(
            request,
            Seq::empty(),
            "Butler is restarting; try again shortly."@,
        ),
        StartAdmissionError::Unavailable => replies(
            request,
            Seq::empty(),
            "A start operation cannot be admitted right now; try again shortly."@,
        ),
    }
}

/// Something that was to be sent failed.
pub open spec fn sending_failed(request: StartRequest<Seq<char>>, phase: StartPhase<Seq<char>>, error: Seq<char>) -> StartStep {
    match phase {
        StartPhase::Deferring | StartPhase::Replying => ends(Some(error)),
        StartPhase::Acknowledging | StartPhase::Announcing => (
            StartPhase::Over,
            seq![Effect::Release],
            StartAction::Finish { error: Some(error) },
        ),
        StartPhase::ShowingProgress { known } => (
            StartPhase::Running { known },
            seq![
                Effect::Emit {
                    label: "WARN"@,
                    detail: request.context.run_id + " could not update provider progress; error "@
                        + cleaned(error),
                },
            ],
            StartAction::AwaitProvider,
        ),
        StartPhase::TellingFailure => winds_up(Seq::empty(), Some(error)),
        StartPhase::Pruning { error: earlier } => (
            StartPhase::Over,
            seq![
                Effect::Emit {
                    label: "WARN"@,
                    detail: request.context.run_id + " artifact retention failed; error "@ + cleaned(
                        error,
                    ),
                },
            ],
            StartAction::Finish { error: earlier },
        ),
        _ => breaks_off(request, error),
    }
}

/// Something that was to be sent is sent.
pub open spec fn sent(request: StartRequest<Seq<char>>, phase: StartPhase<Seq<char>>, now_ms: u128) -> StartStep {
    match phase {
        StartPhase::Deferring => (
            StartPhase::ReadingActive,
            Seq::empty(),
            StartAction::ReadActive,
        ),
        StartPhase::Replying => ends(None),
        StartPhase::Acknowledging => (
            StartPhase::Announcing,
            Seq::empty(),
            StartAction::Announce {
                content: noticed(
                    with_run("Starting server..."@, request.context.run_id),
                    request.notice,
                ),
            },
        ),
        StartPhase::Announcing => run_begins(request),
        StartPhase::ShowingProgress { known } => (
            StartPhase::Running { known },
            Seq::empty(),
            StartAction::AwaitProvider,
        ),
        StartPhase::TellingWait { plan } => (
            StartPhase::Waiting {
                plan,
                deadline_ms: after(now_ms, request.wait_online_secs),
                last: None,
            },
            Seq::empty(),
            StartAction::AskStatus,
        ),
        StartPhase::TellingCheck { plan } => (
            StartPhase::Checking {
                plan,
                deadline_ms: after(now_ms, POST_CLICK_VERIFY_SECS),
                last: None,
            },
            Seq::empty(),
            StartAction::AskStatus,
        ),
        StartPhase::TellingEnd { end } => winds_up(seq![Effect::End { end }], None),
        StartPhase::TellingFailure => winds_up(Seq::empty(), None),
        StartPhase::Pruning { error } => ends(error),
        _ => arbitrary(),
    }
}

/// The next step of the command.
pub open spec fn start_command_step(
    request: StartRequest<Seq<char>>,
    phase: StartPhase<Seq<char>>,
    event: StartEvent<Seq<char>, StatusView>,
    now_ms: u128,
) -> StartStep {
    match (phase, event) {
        (_, StartEvent::Done { error: Some(error) }) => sending_failed(request, phase, error),
        (_, StartEvent::Done { error: None }) => sent(request, phase, now_ms),
        (StartPhase::ReadingActive, StartEvent::Active { active: Some(active) }) => is_busy(
            request,
            active,
            false,
        ),
        (StartPhase::ReadingActive, _) => (
            StartPhase::Admitting,
            Seq::empty(),
            StartAction::Admit,
        ),
        (StartPhase::Admitting, StartEvent::Refused { error }) => not_admitted(request, error),
        (StartPhase::Admitting, _) => admitted(request),
        (StartPhase::Preflight, StartEvent::Status { status }) => preflight_done(request, status),
        (StartPhase::Running { known }, StartEvent::Progress { progress }) => progresses(
            request,
            known,
            progress,
        ),
        (StartPhase::Running { known }, StartEvent::Started { result }) => provider_succeeded(
            request,
            known,
            result,
        ),
        (StartPhase::Running { known }, StartEvent::Failed { failure }) => provider_failed(
            request,
            known,
            failure,
        ),
        (StartPhase::Running { .. }, StartEvent::Broken { error }) => breaks_off(
            request,
            "provider operation task failed: "@ + error,
        ),
        (StartPhase::Waiting { plan, deadline_ms, last }, StartEvent::Status { status }) => wait_looks(
            request,
            plan,
            deadline_ms,
            last,
            status,
            now_ms,
        ),
        (StartPhase::PausingWait { plan, deadline_ms, last }, _) => (
            StartPhase::Waiting { plan, deadline_ms, last },
            Seq::empty(),
            StartAction::AskStatus,
        ),
        (StartPhase::Checking { plan, deadline_ms, last }, StartEvent::Status { status }) => check_looks(
            request,
            plan,
            deadline_ms,
            last,
            status,
            now_ms,
        ),
        (StartPhase::PausingCheck { plan, deadline_ms, last }, _) => (
            StartPhase::Checking { plan, deadline_ms, last },
            Seq::empty(),
            StartAction::AskStatus,
        ),
        _ => arbitrary(),
    }
}

// ---------------------------------------------------------------------------
// The command
// ---------------------------------------------------------------------------

type Step = (StartPhase, Vec<Effect>, StartAction);

fn nothing() -> (r: Vec<Effect>)
    ensures
        effects(r@) == Seq::<Effect<Seq<char>>>::empty(),
{
    let r: Vec<Effect> = Vec::new();
    proof {
        assert(effects(r@) =~= Seq::<Effect<Seq<char>>>::empty());
    }
    r
}

fn one(effect: Effect) -> (r: Vec<Effect>)
    ensures
        effects(r@) == seq![effect@],
{
    let mut r: Vec<Effect> = Vec::new();
    r.push(effect);
    proof {
        assert(effects(r@) =~= seq![effect@]);
    }
    r
}

fn two(first: Effect, second: Effect) -> (r: Vec<Effect>)
    ensures
        effects(r@) == seq![first@, second@],
{
    let mut r: Vec<Effect> = Vec::new();
    r.push(first);
    r.push(second);
    proof {
        assert(effects(r@) =~= seq![first@, second@]);
    }
    r
}

fn emit(label: &str, detail: String) -> (r: Effect)
    ensures
        r@ == (Effect::Emit { label: label@, detail: detail@ }),
{
    Effect::Emit { label: label.to_owned(), detail }
}

fn record(step: &str, status: &str, detail: String, error_class: Option<&str>) -> (r: Effect)
    ensures
        r@ == note(step@, status@, detail@, opt_str(error_class)),
{
    let error_class = match error_class {
        Some(class) => Some(class.to_owned()),
        None => None,
    };
    Effect::Step {
        note: StepNote {
            step: step.to_owned(),
            status: status.to_owned(),
            detail: Some(detail),
            screenshot_path: None,
            error_class,
        },
    }
}

fn record_provider(
    wording: Wording,
    status: &str,
    detail: String,
    screenshot_path: &Option<String>,
    error_class: Option<String>,
) -> (r: Effect)
    ensures
        r@ == provider_note(
            wording,
            status@,
            detail@,
            opt_text(*screenshot_path),
            opt_text(error_class),
        ),
{
    let step = match wording {
        Wording::Provider => "provider_start",
        Wording::Dashboard => "aternos_dashboard",
    };
    Effect::Step {
        note: StepNote {
            step: step.to_owned(),
            status: status.to_owned(),
            detail: Some(detail),
            screenshot_path: text::copy_opt(screenshot_path),
            error_class,
        },
    }
}

fn moment_after(now_ms: u128, secs: u64) -> (r: u128)
    ensures
        r == after(now_ms, secs),
{
    let span: u128 = secs as u128 * 1000;
    if now_ms > u128::MAX - span {
        u128::MAX
    } else {
        now_ms + span
    }
}

fn first_of(one: Option<String>, other: Option<String>) -> (r: Option<String>)
    ensures
        opt_text(r) == first_known(opt_text(one), opt_text(other)),
{
    match one {
        Some(value) => Some(value),
        None => other,
    }
}

fn end_command(error: Option<String>) -> (r: Step)
    ensures
        step_view(r) == ends(opt_text(error)),
{
    (StartPhase::Over, nothing(), StartAction::Finish { error })
}

fn reply(request: &StartRequest, before: Vec<Effect>, content: String) -> (r: Step)
    ensures
        step_view(r) == replies(request@, effects(before@), content@),
{
    (
        StartPhase::Replying,
        before,
        StartAction::Say { content: responses::with_notice(content, &request.notice) },
    )
}

fn as_str_opt(value: &Option<String>) -> (r: Option<&str>)
    ensures
        opt_str(r) == opt_text(*value),
{
    match value {
        Some(value) => Some(value.as_str()),
        None => None,
    }
}

fn busy(request: &StartRequest, active: &ActiveStartRun, just_started: bool) -> (r: Step)
    ensures
        step_view(r) == is_busy(request@, active@, just_started),
{
    let visible = caller_can_see_active_run_id_for(
        request.caller_is_owner,
        as_str_opt(&request.context.guild_id),
        as_str_opt(&active.guild_id),
    );
    reply(
        request,
        one(emit("BUSY", text::cat2(active.run_id.as_str(), " already running"))),
        active_start_busy_message_for(active.run_id.as_str(), visible, just_started),
    )
}

fn show_start_details(request: &StartRequest) -> (r: String)
    ensures
        r@ == start_details(request@),
{
    let mut parts = text::no_texts();
    text::add_text(&mut parts, request.context.run_id.clone());
    let ghost p0 = texts(parts@);
    proof {
        assert(p0 =~= seq![request@.context.run_id]);
    }
    if request.options.wait_online {
        let shown = terminal::format_duration(request.wait_online_secs as u128 * 1000);
        text::add_text(&mut parts, text::cat2("wait ", shown.as_str()));
    }
    let ghost p1 = p0 + only_if(
        request@.options.wait_online,
        "wait "@ + duration_text((request@.wait_online_secs * 1000) as nat),
    );
    proof {
        assert(texts(parts@) =~= p1);
    }
    if request.options.force {
        text::add_text(&mut parts, "force".to_owned());
    }
    proof {
        assert(texts(parts@) =~= p1 + only_if(request@.options.force, "force"@));
    }
    text::joined(&parts, " ")
}

fn conclude(before: Vec<Effect>, end: RunEnd, content: String) -> (r: Step)
    ensures
        step_view(r) == concludes(effects(before@), end@, content@),
{
    let screenshot = text::copy_opt(&end.screenshot_path);
    (StartPhase::TellingEnd { end }, before, StartAction::Edit { content, screenshot })
}

fn break_off(request: &StartRequest, error: &str) -> (r: Step)
    ensures
        step_view(r) == breaks_off(request@, error@),
{
    let shown = terminal::clean(error);
    let run_id = request.context.run_id.as_str();
    let end = RunEnd {
        outcome: "Failed".to_owned(),
        provider_status: None,
        minecraft_status: None,
        screenshot_path: None,
        error_class: Some("CommandError".to_owned()),
    };
    let told = text::cat4(
        responses::on_run("Start failed.", run_id).as_str(),
        "\nError: `",
        shown.as_str(),
        "`",
    );
    (
        StartPhase::TellingFailure,
        two(Effect::End { end }, emit("FAIL", text::cat3(run_id, " error ", shown.as_str()))),
        StartAction::Edit { content: told, screenshot: None },
    )
}

fn wind_up(before: Vec<Effect>, error: Option<String>) -> (r: Step)
    ensures
        step_view(r) == winds_up(effects(before@), opt_text(error)),
{
    let ghost done = before@;
    let mut all = before;
    all.push(Effect::Release);
    proof {
        assert(effects(all@) =~= effects(done).push(Effect::Release));
    }
    (StartPhase::Pruning { error }, all, StartAction::Prune)
}

fn begin_run(request: &StartRequest) -> (r: Step)
    ensures
        step_view(r) == run_begins(request@),
{
    if request.options.force {
        return (
            StartPhase::Running { known: None },
            one(record("minecraft_preflight", "skipped", "force=true".to_owned(), None)),
            StartAction::StartProvider,
        );
    }
    (StartPhase::Preflight, nothing(), StartAction::AskStatus)
}

/// The view of the result of a look at the server.
pub open spec fn look_view(status: Result<ServerStatus, String>) -> Result<StatusView, Seq<char>> {
    match status {
        Ok(status) => Ok(status@),
        Err(error) => Err(error@),
    }
}

/// What the look at the server before the start leads to.
pub fn after_preflight(
    request: &StartRequest,
    status: Result<ServerStatus, String>,
) -> (r: (StartPhase, Vec<Effect>, StartAction))
    ensures
        step_view(r) == preflight_done(request@, look_view(status)),
{
    match status {
        Ok(status) => {
            let shown = status.to_string();
            let seen = one(record("minecraft_preflight", "ok", shown.clone(), None));
            if status.is_offline_like() {
                return (
                    StartPhase::Running { known: Some(shown) },
                    seen,
                    StartAction::StartProvider,
                );
            }
            let headline = text::cat3("Server is already **", shown.as_str(), "**.");
            let content = responses::on_run(headline.as_str(), request.context.run_id.as_str());
            conclude(
                seen,
                RunEnd {
                    outcome: "AlreadyOnline".to_owned(),
                    provider_status: None,
                    minecraft_status: Some(shown),
                    screenshot_path: None,
                    error_class: None,
                },
                content,
            )
        },
        Err(error) => (
            StartPhase::Running { known: None },
            two(
                emit(
                    "WARN",
                    text::cat3(
                        request.context.run_id.as_str(),
                        " preflight failed; continuing; error ",
                        terminal::clean(error.as_str()).as_str(),
                    ),
                ),
                record(
                    "minecraft_preflight",
                    "warning",
                    text::cat3("Could not check status (", error.as_str(), "); proceeding"),
                    None,
                ),
            ),
            StartAction::StartProvider,
        ),
    }
}

/// The provider reports progress.
pub fn handle_provider_progress(
    request: &StartRequest,
    known: Option<String>,
    progress: ProviderProgress,
) -> (r: (StartPhase, Vec<Effect>, StartAction))
    ensures
        step_view(r) == progresses(request@, opt_text(known), progress@),
{
    let stage = progress.stage.to_string();
    let run_id = request.context.run_id.as_str();
    let content = responses::provider_progress_content(run_id, &progress);
    let shown = text::cat5(
        run_id,
        " ",
        stage.as_str(),
        " ",
        terminal::clean(progress.detail.as_str()).as_str(),
    );
    (
        StartPhase::ShowingProgress { known },
        two(
            record("provider_progress", stage.as_str(), progress.detail, None),
            emit("WAIT", shown),
        ),
        StartAction::Edit { content, screenshot: None },
    )
}

fn end_wait(
    request: &StartRequest,
    plan: WaitPlan,
    before: Vec<Effect>,
    outcome: &str,
    last: Option<String>,
    error_class: Option<String>,
) -> (r: Step)
    ensures
        step_view(r) == wait_over(
            request@,
            plan@,
            effects(before@),
            outcome@,
            opt_text(last),
            opt_text(error_class),
        ),
{
    let content = responses::start_final_content(
        plan.wording,
        request.context.run_id.as_str(),
        request.provider_name.as_str(),
        plan.provider_status.as_str(),
        outcome,
    );
    conclude(
        before,
        RunEnd {
            outcome: outcome.to_owned(),
            provider_status: Some(plan.provider_status),
            minecraft_status: first_of(last, plan.known),
            screenshot_path: plan.screenshot,
            error_class,
        },
        content,
    )
}

fn go_on_waiting(
    request: &StartRequest,
    plan: WaitPlan,
    deadline_ms: u128,
    last: Option<String>,
    seen: Effect,
    now_ms: u128,
) -> (r: Step)
    ensures
        step_view(r) == wait_again(request@, plan@, deadline_ms, opt_text(last), seen@, now_ms),
{
    if now_ms >= deadline_ms {
        let timeout = record(
            "minecraft_wait_online",
            "timeout",
            "Timed out waiting for Minecraft to report online".to_owned(),
            Some("WaitOnlineTimeout"),
        );
        return end_wait(
            request,
            plan,
            two(seen, timeout),
            "WaitOnlineTimeout",
            last,
            Some("WaitOnlineTimeout".to_owned()),
        );
    }
    (
        StartPhase::PausingWait { plan, deadline_ms, last },
        one(seen),
        StartAction::Pause { secs: MINECRAFT_STATUS_POLL_SECS },
    )
}

/// A look at the server during the wait for Minecraft.
pub fn wait_for_minecraft_online(
    request: &StartRequest,
    plan: WaitPlan,
    deadline_ms: u128,
    last: Option<String>,
    status: Result<ServerStatus, String>,
    now_ms: u128,
) -> (r: (StartPhase, Vec<Effect>, StartAction))
    ensures
        step_view(r) == wait_looks(
            request@,
            plan@,
            deadline_ms,
            opt_text(last),
            look_view(status),
            now_ms,
        ),
{
    match status {
        Ok(status) => {
            let shown = status.to_string();
            if matches!(status, ServerStatus::Online { .. }) {
                let seen = one(record("minecraft_wait_online", "online", shown.clone(), None));
                return end_wait(request, plan, seen, "MinecraftOnline", Some(shown), None);
            }
            let seen = record("minecraft_wait_online", "waiting", shown.clone(), None);
            go_on_waiting(request, plan, deadline_ms, Some(shown), seen, now_ms)
        },
        Err(error) => {
            let seen = record(
                "minecraft_wait_online",
                "warning",
                error,
                Some("MinecraftStatusError"),
            );
            go_on_waiting(request, plan, deadline_ms, last, seen, now_ms)
        },
    }
}

/// The provider accepted the start.
pub fn handle_provider_success(
    request: &StartRequest,
    known: Option<String>,
    result: ProviderStartResult,
) -> (r: (StartPhase, Vec<Effect>, StartAction))
    ensures
        step_view(r) == provider_succeeded(request@, opt_text(known), result@),
{
    let outcome = result.outcome.to_string();
    let detail = responses::format_provider_detail(
        request.wording,
        result.provider_status.as_str(),
        &result.detail_artifact_path,
    );
    let done = one(
        record_provider(request.wording, outcome.as_str(), detail, &result.screenshot_path, None),
    );
    let screenshot = text::copy_opt(&result.screenshot_path);
    let plan = WaitPlan {
        wording: request.wording,
        provider_status: result.provider_status,
        screenshot: result.screenshot_path,
        known,
    };
    if request.options.wait_online {
        let content = responses::waiting_content(
            "Start accepted.",
            request.wait_online_secs,
            request.context.run_id.as_str(),
        );
        return (StartPhase::TellingWait { plan }, done, StartAction::Edit { content, screenshot });
    }
    end_wait(request, plan, done, outcome.as_str(), None, None)
}

/// The start failed: for good, or so that it may have happened all the same.
pub fn handle_provider_failure(
    request: &StartRequest,
    known: Option<String>,
    failure: ProviderStartFailure,
) -> (r: (StartPhase, Vec<Effect>, StartAction))
    ensures
        step_view(r) == provider_failed(request@, opt_text(known), failure@),
{
    let run_id = request.context.run_id.as_str();
    let detail = responses::format_failure_detail(request.wording, &failure);
    let screenshot = text::copy_opt(&failure.screenshot_path);
    let class = failure.error_class.clone();
    if failure.uncertain_mutation.may_have_started_server() {
        let seen = one(
            record_provider(
                request.wording,
                "StartSubmittedUnconfirmed",
                detail,
                &failure.screenshot_path,
                Some(class),
            ),
        );
        return (
            StartPhase::TellingCheck {
                plan: CheckPlan { screenshot: failure.screenshot_path, known },
            },
            seen,
            StartAction::Edit {
                content: responses::start_submission_checking_content(run_id),
                screenshot,
            },
        );
    }
    let content = responses::provider_failure_public_content(failure.error_class.as_str(), run_id);
    conclude(
        one(
            record_provider(request.wording, "failed", detail, &failure.screenshot_path, Some(class)),
        ),
        RunEnd {
            outcome: "Failed".to_owned(),
            provider_status: None,
            minecraft_status: known,
            screenshot_path: screenshot,
            error_class: Some(failure.error_class),
        },
        content,
    )
}

/// Minecraft shows that an unconfirmed start was submitted.
pub fn handle_unconfirmed_submitted_start(
    request: &StartRequest,
    plan: CheckPlan,
    status: &ServerStatus,
) -> (r: (StartPhase, Vec<Effect>, StartAction))
    ensures
        step_view(r) == check_confirmed(request@, plan@, status@),
{
    let shown = status.to_string();
    let run_id = request.context.run_id.as_str();
    let seen = one(record("minecraft_post_click_verify", "accepted", shown.clone(), None));
    let screenshot = text::copy_opt(&plan.screenshot);
    if request.options.wait_online {
        let content = responses::waiting_content(
            "Start appears submitted.",
            request.wait_online_secs,
            run_id,
        );
        return (
            StartPhase::TellingWait {
                plan: WaitPlan {
                    wording: Wording::Provider,
                    provider_status: UNCONFIRMED_PROVIDER_STATUS.to_owned(),
                    screenshot: plan.screenshot,
                    known: Some(shown),
                },
            },
            seen,
            StartAction::Edit { content, screenshot },
        );
    }
    conclude(
        seen,
        RunEnd {
            outcome: "StartSubmittedUnconfirmed".to_owned(),
            provider_status: Some(UNCONFIRMED_PROVIDER_STATUS.to_owned()),
            minecraft_status: Some(shown),
            screenshot_path: plan.screenshot,
            error_class: None,
        },
        responses::start_submitted_unconfirmed_content(run_id, status),
    )
}

fn go_on_checking(
    request: &StartRequest,
    plan: CheckPlan,
    deadline_ms: u128,
    last: Option<String>,
    seen: Effect,
    now_ms: u128,
) -> (r: Step)
    ensures
        step_view(r) == check_again(request@, plan@, deadline_ms, opt_text(last), seen@, now_ms),
{
    if now_ms >= deadline_ms {
        let timeout = record(
            "minecraft_post_click_verify",
            "timeout",
            "Timed out verifying whether the start was submitted".to_owned(),
            Some("StartSubmissionUnverified"),
        );
        return conclude(
            two(seen, timeout),
            RunEnd {
                outcome: "StartSubmissionUnverified".to_owned(),
                provider_status: Some(UNCONFIRMED_PROVIDER_STATUS.to_owned()),
                minecraft_status: first_of(last, plan.known),
                screenshot_path: plan.screenshot,
                error_class: Some("StartSubmissionUnverified".to_owned()),
            },
            responses::start_submission_unverified_content(request.context.run_id.as_str()),
        );
    }
    (
        StartPhase::PausingCheck { plan, deadline_ms, last },
        one(seen),
        StartAction::Pause { secs: MINECRAFT_STATUS_POLL_SECS },
    )
}

/// A look at the server after an unconfirmed start.
pub fn verify_submitted_start(
    request: &StartRequest,
    plan: CheckPlan,
    deadline_ms: u128,
    last: Option<String>,
    status: Result<ServerStatus, String>,
    now_ms: u128,
) -> (r: (StartPhase, Vec<Effect>, StartAction))
    ensures
        step_view(r) == check_looks(
            request@,
            plan@,
            deadline_ms,
            opt_text(last),
            look_view(status),
            now_ms,
        ),
{
    match status {
        Ok(status) => {
            if responses::status_confirms_start_submission(&status) {
                return handle_unconfirmed_submitted_start(request, plan, &status);
            }
            let shown = status.to_string();
            let seen = record("minecraft_post_click_verify", "waiting", shown.clone(), None);
            go_on_checking(request, plan, deadline_ms, Some(shown), seen, now_ms)
        },
        Err(error) => {
            let seen = record(
                "minecraft_post_click_verify",
                "warning",
                error,
                Some("MinecraftStatusError"),
            );
            go_on_checking(request, plan, deadline_ms, last, seen, now_ms)
        },
    }
}

fn let_in(request: &StartRequest) -> (r: Step)
    ensures
        step_view(r) == admitted(request@),
{
    let content = responses::on_run(
        "Preparing the start operation. Progress will be posted in a bot message.",
        request.context.run_id.as_str(),
    );
    (
        StartPhase::Acknowledging,
        two(Effect::Track, emit("START", show_start_details(request))),
        StartAction::Reply { content: responses::with_notice(content, &request.notice) },
    )
}

fn refuse(request: &StartRequest, error: StartAdmissionError) -> (r: Step)
    ensures
        step_view(r) == not_admitted(request@, error@),
{
    match error {
        StartAdmissionError::Busy(active) => busy(request, &active, true),
        StartAdmissionError::ShuttingDown => reply(
            request,
            nothing(),
            "Butler is restarting; try again shortly.".to_owned(),
        ),
        StartAdmissionError::Unavailable => reply(
            request,
            nothing(),
            "A start operation cannot be admitted right now; try again shortly.".to_owned(),
        ),
    }
}

fn warn(request: &StartRequest, problem: &str, error: &str) -> (r: Vec<Effect>)
    ensures
        effects(r@) == seq![
            Effect::Emit {
                label: "WARN"@,
                detail: request@.context.run_id + problem@ + cleaned(error@),
            },
        ],
{
    one(
        emit(
            "WARN",
            text::cat3(
                request.context.run_id.as_str(),
                problem,
                terminal::clean(error).as_str(),
            ),
        ),
    )
}

impl StartPhase<String> {
    /// The first step of the command.
    pub fn begin() -> (r: (StartPhase, Vec<Effect>, StartAction))
        ensures
            step_view(r) == (
                StartPhase::<Seq<char>>::Deferring,
                Seq::<Effect<Seq<char>>>::empty(),
                StartAction::<Seq<char>>::Defer,
            ),
    {
        (StartPhase::Deferring, nothing(), StartAction::Defer)
    }

    fn after_failure(self, request: &StartRequest, error: String) -> (r: Step)
        ensures
            step_view(r) == sending_failed(request@, self@, error@),
    {
        match self {
            StartPhase::Deferring | StartPhase::Replying => end_command(Some(error)),
            StartPhase::Acknowledging | StartPhase::Announcing => (
                StartPhase::Over,
                one(Effect::Release),
                StartAction::Finish { error: Some(error) },
            ),
            StartPhase::ShowingProgress { known } => (
                StartPhase::Running { known },
                warn(request, " could not update provider progress; error ", error.as_str()),
                StartAction::AwaitProvider,
            ),
            StartPhase::TellingFailure => wind_up(nothing(), Some(error)),
            StartPhase::Pruning { error: earlier } => (
                StartPhase::Over,
                warn(request, " artifact retention failed; error ", error.as_str()),
                StartAction::Finish { error: earlier },
            ),
            _ => break_off(request, error.as_str()),
        }
    }

    fn after_success(self, request: &StartRequest, now_ms: u128) -> (r: Step)
        requires
            start_awaits(self@, StartEvent::Done { error: None }),
        ensures
            step_view(r) == sent(request@, self@, now_ms),
    {
        match self {
            StartPhase::Deferring => (
                StartPhase::ReadingActive,
                nothing(),
                StartAction::ReadActive,
            ),
            StartPhase::Replying => end_command(None),
            StartPhase::Acknowledging => (
                StartPhase::Announcing,
                nothing(),
                StartAction::Announce {
                    content: responses::start_progress_content(
                        request.context.run_id.as_str(),
                        &request.notice,
                    ),
                },
            ),
            StartPhase::Announcing => begin_run(request),
            StartPhase::ShowingProgress { known } => (
                StartPhase::Running { known },
                nothing(),
                StartAction::AwaitProvider,
            ),
            StartPhase::TellingWait { plan } => (
                StartPhase::Waiting {
                    plan,
                    deadline_ms: moment_after(now_ms, request.wait_online_secs),
                    last: None,
                },
                nothing(),
                StartAction::AskStatus,
            ),
            StartPhase::TellingCheck { plan } => (
                StartPhase::Checking {
                    plan,
                    deadline_ms: moment_after(now_ms, POST_CLICK_VERIFY_SECS),
                    last: None,
                },
                nothing(),
                StartAction::AskStatus,
            ),
            StartPhase::TellingEnd { end } => wind_up(one(Effect::End { end }), None),
            StartPhase::TellingFailure => wind_up(nothing(), None),
            StartPhase::Pruning { error } => end_command(error),
            _ => vstd::pervasive::unreached(),
        }
    }

    /// What follows within the run: from the look at the server to the provider's
    /// result and the looks at the server after it.
    fn start_server_inner(self, request: &StartRequest, event: StartEvent, now_ms: u128) -> (r: Step)
        requires
            start_awaits(self@, event@),
            self is Preflight || self is Running || self is Waiting || self is PausingWait || self
                is Checking || self is PausingCheck,
        ensures
            step_view(r) == start_command_step(request@, self@, event@, now_ms),
    {
        match (self, event) {
            (StartPhase::Preflight, StartEvent::Status { status }) => after_preflight(
                request,
                status,
            ),
            (StartPhase::Running { known }, StartEvent::Progress { progress }) => {
                handle_provider_progress(request, known, progress)
            },
            (StartPhase::Running { known }, StartEvent::Started { result }) => {
                handle_provider_success(request, known, result)
            },
            (StartPhase::Running { known }, StartEvent::Failed { failure }) => {
                handle_provider_failure(request, known, failure)
            },
            (StartPhase::Running { .. }, StartEvent::Broken { error }) => {
                let told = text::cat2("provider operation task failed: ", error.as_str());
                break_off(request, told.as_str())
            },
            (
                StartPhase::Waiting { plan, deadline_ms, last },
                StartEvent::Status { status },
            ) => wait_for_minecraft_online(request, plan, deadline_ms, last, status, now_ms),
            (StartPhase::PausingWait { plan, deadline_ms, last }, _) => (
                StartPhase::Waiting { plan, deadline_ms, last },
                nothing(),
                StartAction::AskStatus,
            ),
            (
                StartPhase::Checking { plan, deadline_ms, last },
                StartEvent::Status { status },
            ) => verify_submitted_start(request, plan, deadline_ms, last, status, now_ms),
            (StartPhase::PausingCheck { plan, deadline_ms, last }, _) => (
                StartPhase::Checking { plan, deadline_ms, last },
                nothing(),
                StartAction::AskStatus,
            ),
            _ => vstd::pervasive::unreached(),
        }
    }

    /// Takes the outcome that the command waits for to what is done about it, and
    /// to its next action.
    pub fn start_server_with_notice(
        self,
        request: &StartRequest,
        event: StartEvent,
        now_ms: u128,
    ) -> (r: (StartPhase, Vec<Effect>, StartAction))
        requires
            start_awaits(self@, event@),
        ensures
            step_view(r) == start_command_step(request@, self@, event@, now_ms),
    {
        match (self, event) {
            (phase, StartEvent::Done { error: Some(error) }) => phase.after_failure(request, error),
            (phase, StartEvent::Done { error: None }) => phase.after_success(request, now_ms),
            (StartPhase::ReadingActive, StartEvent::Active { active: Some(active) }) => busy(
                request,
                &active,
                false,
            ),
            (StartPhase::ReadingActive, _) => (
                StartPhase::Admitting,
                nothing(),
                StartAction::Admit,
            ),
            (StartPhase::Admitting, StartEvent::Refused { error }) => refuse(request, error),
            (StartPhase::Admitting, _) => let_in(request),
            (phase, event) => phase.start_server_inner(request, event, now_ms),
        }
    }
}

} // verus!
