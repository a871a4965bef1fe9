//! The course of a start command: what follows from each answer, told by what was
//! seen and what is done about it.

use vstd::prelude::*;
use crate::minecraft::{status_text, ServerStatus};
use crate::provider::{ProviderMutation, ProviderProgress, ProviderStartFailure, ProviderStartResult, StartOutcome};
use crate::server_service::responses::{final_text, noticed, public_failure, Wording};
use crate::server_service::start::{
    sees_run_id, start_awaits, start_command_step, CheckPlan, Effect, StartAction, StartEvent, StartPhase, StartRequest,
    StatusView, WaitPlan,
};
use crate::server_service::tracking::{RunEnd, StepNote};
use crate::state::{ActiveStartRun, StartAdmissionError};
use crate::terminal::{cleaned, duration_text};
use crate::text::join;

verus! {

/// Whether a look saw the server down: it said so, or it could not be reached.
pub open spec fn is_down(status: StatusView) -> bool {
    match status {
        ServerStatus::Offline => true,
        ServerStatus::Unreachable { .. } => true,
        ServerStatus::Queued => false,
        ServerStatus::Starting => false,
        ServerStatus::Preparing => false,
        ServerStatus::Loading => false,
        ServerStatus::Online { .. } => false,
    }
}

/// The step of the run that is recorded first, if any.
pub open spec fn first_note(effects: Seq<Effect<Seq<char>>>) -> Option<StepNote<Seq<char>>>
    decreases effects.len(),
{
    if effects.len() == 0 {
        None
    } else {
        match effects[0] {
            Effect::Step { note } => Some(note),
            _ => first_note(effects.skip(1)),
        }
    }
}

/// Whether the first step that is recorded is that one, with that status.
pub open spec fn notes(effects: Seq<Effect<Seq<char>>>, step: Seq<char>, status: Seq<char>) -> bool {
    first_note(effects) matches Some(note) && note.step == step && note.status == status
}

// ---------------------------------------------------------------------------
// Before the start
// ---------------------------------------------------------------------------

/// Before a start the command tells Discord to wait, asks whether another start is
/// under way, asks for its own to be admitted, answers, and posts its progress
/// message, in this order.
pub proof fn commands_begin_in_order(
    request: StartRequest<Seq<char>>,
    active: ActiveStartRun<Seq<char>>,
    now_ms: u128,
)
    ensures
        ({
            let done = StartEvent::<Seq<char>, StatusView>::Done { error: None };
            let first = start_command_step(request, StartPhase::Deferring, done, now_ms);
            let alone = start_command_step(
                request,
                StartPhase::ReadingActive,
                StartEvent::Active { active: None },
                now_ms,
            );
            let busy = start_command_step(
                request,
                StartPhase::ReadingActive,
                StartEvent::Active { active: Some(active) },
                now_ms,
            );
            let admitted = start_command_step(request, StartPhase::Admitting, StartEvent::Admitted, now_ms);
            let acknowledged = start_command_step(request, StartPhase::Acknowledging, done, now_ms);
            let announced = start_command_step(request, StartPhase::Announcing, done, now_ms);
            let replied = start_command_step(request, StartPhase::Replying, done, now_ms);
            &&& first.0 is ReadingActive && first.2 is ReadActive
            &&& alone.0 is Admitting && alone.2 is Admit
            &&& busy.0 is Replying && busy.2 is Say
            &&& admitted.0 is Acknowledging && admitted.2 is Reply && admitted.1.contains(Effect::Track)
            &&& acknowledged.0 is Announcing && acknowledged.2 is Announce
            &&& if request.options.force {
                announced.0 == (StartPhase::<Seq<char>>::Running { known: None }) && announced.2 is StartProvider && notes(
                    announced.1,
                    "minecraft_preflight"@,
                    "skipped"@,
                )
            } else {
                announced.0 is Preflight && announced.2 is AskStatus
            }
            &&& replied.0 is Over && replied.2 == (StartAction::<Seq<char>>::Finish { error: None })
        }),
{
    let done = StartEvent::<Seq<char>, StatusView>::Done { error: None };
    let admitted = start_command_step(request, StartPhase::Admitting, StartEvent::Admitted, now_ms);
    assert(admitted.1[0] == Effect::<Seq<char>>::Track);
    reveal_with_fuel(first_note, 3);
}

/// A start that is not admitted is refused with the reason, below the notice.
pub proof fn refusals_say_why(
    request: StartRequest<Seq<char>>,
    error: StartAdmissionError<Seq<char>>,
    now_ms: u128,
)
    ensures
        ({
            let (next, effects, action) = start_command_step(
                request,
                StartPhase::Admitting,
                StartEvent::Refused { error },
                now_ms,
            );
            &&& next is Replying
            &&& error is ShuttingDown ==> action == (StartAction::Say {
                content: noticed("Butler is restarting; try again shortly."@, request.notice),
            })
            &&& error is Unavailable ==> action == (StartAction::Say {
                content: noticed(
                    "A start operation cannot be admitted right now; try again shortly."@,
                    request.notice,
                ),
            })
            &&& error is Busy ==> action is Say
        }),
{
}

/// The look before the start decides. A server that is down, or that could not be
/// looked at, is started. One that is queued, starting, preparing, loading or
/// online is not: the run ends as already online, and its status is told.
pub proof fn preflight_decides(
    request: StartRequest<Seq<char>>,
    status: Result<StatusView, Seq<char>>,
    now_ms: u128,
)
    ensures
        ({
            let (next, effects, action) = start_command_step(
                request,
                StartPhase::Preflight,
                StartEvent::Status { status },
                now_ms,
            );
            match status {
                Err(_) => {
                    &&& next == (StartPhase::<Seq<char>>::Running { known: None })
                    &&& action is StartProvider
                    &&& notes(effects, "minecraft_preflight"@, "warning"@)
                },
                Ok(seen) => if is_down(seen) {
                    &&& next == (StartPhase::Running { known: Some(status_text(seen)) })
                    &&& action is StartProvider
                    &&& notes(effects, "minecraft_preflight"@, "ok"@)
                } else {
                    &&& next matches StartPhase::TellingEnd { end }
                    &&& end.outcome == "AlreadyOnline"@
                    &&& end.minecraft_status == Some(status_text(seen))
                    &&& end.provider_status is None
                    &&& end.screenshot_path is None
                    &&& end.error_class is None
                    &&& action == (StartAction::Edit {
                        content: "Server is already **"@ + status_text(seen) + "**."@ + "\nRun: `"@
                            + request.context.run_id + "`"@,
                        screenshot: None,
                    })
                    &&& notes(effects, "minecraft_preflight"@, "ok"@)
                },
            }
        }),
{
    reveal_with_fuel(first_note, 3);
    let (next, effects, action) = start_command_step(
        request,
        StartPhase::Preflight,
        StartEvent::Status { status },
        now_ms,
    );
    if status is Err {
        assert(effects.skip(1)[0] == effects[1]);
    }
}

/// A run ends as already online only where the look saw the server up.
pub proof fn online_servers_were_seen(
    request: StartRequest<Seq<char>>,
    phase: StartPhase<Seq<char>>,
    event: StartEvent<Seq<char>, StatusView>,
    now_ms: u128,
)
    requires
        start_awaits(phase, event),
        start_command_step(request, phase, event, now_ms).0 matches StartPhase::TellingEnd { end } && end.outcome
            == "AlreadyOnline"@,
    ensures
        phase is Preflight,
        event matches StartEvent::Status { status: Ok(seen) } && !is_down(seen),
{
    reveal_strlit("AlreadyOnline");
    reveal_strlit("MinecraftOnline");
    reveal_strlit("WaitOnlineTimeout");
    reveal_strlit("StartSubmittedUnconfirmed");
    reveal_strlit("StartSubmissionUnverified");
    reveal_strlit("Failed");
    reveal_strlit("StartClicked");
    reveal_strlit("DashboardChanged");
    reveal_strlit("StartRequested");
    reveal_strlit("AlreadyActive");
    assert("AlreadyOnline"@.len() == 13 && "AlreadyActive"@.len() == 13);
    assert("AlreadyOnline"@[7] == 'O' && "AlreadyActive"@[7] == 'A');
    assert("MinecraftOnline"@.len() == 15 && "WaitOnlineTimeout"@.len() == 17 && "Failed"@.len() == 6);
    assert("StartClicked"@.len() == 12 && "DashboardChanged"@.len() == 16 && "StartRequested"@.len() == 14);
    assert("StartSubmittedUnconfirmed"@.len() == 25 && "StartSubmissionUnverified"@.len() == 25);
}

// ---------------------------------------------------------------------------
// The provider
// ---------------------------------------------------------------------------

/// The word for an outcome of the provider.
pub open spec fn outcome_word(outcome: StartOutcome) -> Seq<char> {
    match outcome {
        StartOutcome::StartClicked => "StartClicked"@,
        StartOutcome::DashboardChanged => "DashboardChanged"@,
        StartOutcome::StartRequested => "StartRequested"@,
        StartOutcome::AlreadyActive => "AlreadyActive"@,
    }
}

/// A report of the provider is recorded and shown, and the provider is waited for
/// again, whether or not it could be shown.
pub proof fn progress_is_shown(
    request: StartRequest<Seq<char>>,
    known: Option<Seq<char>>,
    progress: ProviderProgress<Seq<char>>,
    error: Option<Seq<char>>,
    now_ms: u128,
)
    ensures
        ({
            let (next, effects, action) = start_command_step(
                request,
                StartPhase::Running { known },
                StartEvent::Progress { progress },
                now_ms,
            );
            &&& next == (StartPhase::ShowingProgress { known })
            &&& first_note(effects) matches Some(note)
            &&& note.step == "provider_progress"@
            &&& note.status == progress.stage.name()
            &&& note.detail == Some(progress.detail)
            &&& action matches StartAction::Edit { screenshot: None, .. }
        }),
        ({
            let (next, effects, action) = start_command_step(
                request,
                StartPhase::ShowingProgress { known },
                StartEvent::Done { error },
                now_ms,
            );
            next == (StartPhase::Running { known }) && action is AwaitProvider
        }),
{
    reveal_with_fuel(first_note, 3);
}

/// A start that the provider accepted is waited for where that is wanted; else the
/// run ends with the provider's outcome and status, and with what was known of
/// Minecraft.
pub proof fn accepted_starts_end_or_wait(
    request: StartRequest<Seq<char>>,
    known: Option<Seq<char>>,
    result: ProviderStartResult<Seq<char>>,
    now_ms: u128,
)
    ensures
        ({
            let (next, effects, action) = start_command_step(
                request,
                StartPhase::Running { known },
                StartEvent::Started { result },
                now_ms,
            );
            &&& first_note(effects) matches Some(note)
            &&& note.status == outcome_word(result.outcome)
            &&& note.screenshot_path == result.screenshot_path
            &&& note.error_class is None
            &&& action matches StartAction::Edit { screenshot, .. }
            &&& screenshot == result.screenshot_path
            &&& if request.options.wait_online {
                next matches StartPhase::TellingWait { plan } && plan.provider_status == result.provider_status
                    && plan.screenshot == result.screenshot_path && plan.known == known && plan.wording
                    == request.wording
            } else {
                next == (StartPhase::TellingEnd {
                    end: RunEnd {
                        outcome: outcome_word(result.outcome),
                        provider_status: Some(result.provider_status),
                        minecraft_status: known,
                        screenshot_path: result.screenshot_path,
                        error_class: None,
                    },
                })
            }
        }),
{
    reveal_with_fuel(first_note, 3);
}

/// A failure after which the server may be starting is looked into. Any other ends
/// the run as failed, with its class, what was known of Minecraft, and words that
/// its class alone decides.
pub proof fn failed_starts_end_or_are_checked(
    request: StartRequest<Seq<char>>,
    known: Option<Seq<char>>,
    failure: ProviderStartFailure<Seq<char>>,
    now_ms: u128,
)
    ensures
        ({
            let (next, effects, action) = start_command_step(
                request,
                StartPhase::Running { known },
                StartEvent::Failed { failure },
                now_ms,
            );
            let unsure = failure.uncertain_mutation == ProviderMutation::PowerStart || failure.uncertain_mutation
                == ProviderMutation::BrowserStart;
            &&& first_note(effects) matches Some(note)
            &&& note.error_class == Some(failure.error_class)
            &&& note.screenshot_path == failure.screenshot_path
            &&& action matches StartAction::Edit { content, screenshot }
            &&& screenshot == failure.screenshot_path
            &&& if unsure {
                &&& note.status == "StartSubmittedUnconfirmed"@
                &&& next == (StartPhase::TellingCheck {
                    plan: CheckPlan { screenshot: failure.screenshot_path, known },
                })
            } else {
                &&& note.status == "failed"@
                &&& content == public_failure(failure.error_class, request.context.run_id)
                &&& next == (StartPhase::TellingEnd {
                    end: RunEnd {
                        outcome: "Failed"@,
                        provider_status: None,
                        minecraft_status: known,
                        screenshot_path: failure.screenshot_path,
                        error_class: Some(failure.error_class),
                    },
                })
            }
        }),
{
    reveal_with_fuel(first_note, 3);
}

/// Where the provider's work breaks off, or a message of a run cannot be sent, the
/// run ends as failed with an error of the command.
pub proof fn broken_runs_fail(
    request: StartRequest<Seq<char>>,
    phase: StartPhase<Seq<char>>,
    event: StartEvent<Seq<char>, StatusView>,
    now_ms: u128,
)
    requires
        start_awaits(phase, event),
        event is Broken || ((event matches StartEvent::Done { error } && error is Some) && (phase is TellingWait || phase
            is TellingCheck || phase is TellingEnd)),
    ensures
        ({
            let (next, effects, action) = start_command_step(request, phase, event, now_ms);
            &&& next is TellingFailure
            &&& effects.len() > 0
            &&& effects[0] == (Effect::End {
                end: RunEnd {
                    outcome: "Failed"@,
                    provider_status: None,
                    minecraft_status: None,
                    screenshot_path: None,
                    error_class: Some("CommandError"@),
                },
            })
            &&& action matches StartAction::Edit { screenshot: None, .. }
        }),
{
}

// ---------------------------------------------------------------------------
// After the start
// ---------------------------------------------------------------------------

/// The moment that lies so many seconds after `now_ms`, as far as the clock
/// reaches.
pub open spec fn moment(now_ms: u128, secs: u64) -> int {
    if now_ms + secs * 1_000 > u128::MAX {
        u128::MAX as int
    } else {
        now_ms + secs * 1_000
    }
}

/// The wait for Minecraft and the check of an unconfirmed start begin with a look
/// once they were announced: the wait lasts as long as the settings say, the check a
/// minute.
pub proof fn looks_begin_once_announced(
    request: StartRequest<Seq<char>>,
    wait: WaitPlan<Seq<char>>,
    check: CheckPlan<Seq<char>>,
    now_ms: u128,
)
    ensures
        ({
            let done = StartEvent::<Seq<char>, StatusView>::Done { error: None };
            let waits = start_command_step(request, StartPhase::TellingWait { plan: wait }, done, now_ms);
            let checks = start_command_step(request, StartPhase::TellingCheck { plan: check }, done, now_ms);
            &&& waits.2 is AskStatus
            &&& waits.0 == (StartPhase::Waiting {
                plan: wait,
                deadline_ms: moment(now_ms, request.wait_online_secs) as u128,
                last: None,
            })
            &&& checks.2 is AskStatus
            &&& checks.0 == (StartPhase::Checking {
                plan: check,
                deadline_ms: moment(now_ms, 60) as u128,
                last: None,
            })
        }),
{
}

/// A look during the wait decides. A server that is online ends the run as online.
/// Otherwise the server is looked at again after five seconds, until the deadline;
/// then the run ends as timed out, with the last status that was seen.
pub proof fn waiting_look_decides(
    request: StartRequest<Seq<char>>,
    plan: WaitPlan<Seq<char>>,
    deadline_ms: u128,
    last: Option<Seq<char>>,
    status: Result<StatusView, Seq<char>>,
    now_ms: u128,
)
    ensures
        ({
            let (next, effects, action) = start_command_step(
                request,
                StartPhase::Waiting { plan, deadline_ms, last },
                StartEvent::Status { status },
                now_ms,
            );
            let seen = match status {
                Ok(seen) => Some(status_text(seen)),
                Err(_) => last,
            };
            if status matches Ok(ServerStatus::Online { .. }) {
                &&& next == (StartPhase::TellingEnd {
                    end: RunEnd {
                        outcome: "MinecraftOnline"@,
                        provider_status: Some(plan.provider_status),
                        minecraft_status: seen,
                        screenshot_path: plan.screenshot,
                        error_class: None,
                    },
                })
                &&& notes(effects, "minecraft_wait_online"@, "online"@)
            } else if now_ms >= deadline_ms {
                next == (StartPhase::TellingEnd {
                    end: RunEnd {
                        outcome: "WaitOnlineTimeout"@,
                        provider_status: Some(plan.provider_status),
                        minecraft_status: if seen is Some {
                            seen
                        } else {
                            plan.known
                        },
                        screenshot_path: plan.screenshot,
                        error_class: Some("WaitOnlineTimeout"@),
                    },
                })
            } else {
                &&& next == (StartPhase::PausingWait { plan, deadline_ms, last: seen })
                &&& action == (StartAction::<Seq<char>>::Pause { secs: 5 })
                &&& notes(effects, "minecraft_wait_online"@, if status is Ok {
                    "waiting"@
                } else {
                    "warning"@
                })
            }
        }),
{
    reveal_with_fuel(first_note, 3);
}

/// A look at a start whose confirmation was lost decides. A server that is up was
/// started: it is waited for where that is wanted, and else the run ends as
/// submitted. Otherwise the server is looked at again after five seconds, until the
/// minute is over; then the run ends as unverified, with the last status that was
/// seen.
pub proof fn checking_look_decides(
    request: StartRequest<Seq<char>>,
    plan: CheckPlan<Seq<char>>,
    deadline_ms: u128,
    last: Option<Seq<char>>,
    status: Result<StatusView, Seq<char>>,
    now_ms: u128,
)
    ensures
        ({
            let (next, effects, action) = start_command_step(
                request,
                StartPhase::Checking { plan, deadline_ms, last },
                StartEvent::Status { status },
                now_ms,
            );
            let seen = match status {
                Ok(seen) => Some(status_text(seen)),
                Err(_) => last,
            };
            if status matches Ok(up) && !is_down(up) {
                &&& notes(effects, "minecraft_post_click_verify"@, "accepted"@)
                &&& if request.options.wait_online {
                    next matches StartPhase::TellingWait { plan: wait } && wait.known == seen && wait.screenshot
                        == plan.screenshot && wait.provider_status == "Unconfirmed (provider confirmation lost)"@
                } else {
                    next == (StartPhase::TellingEnd {
                        end: RunEnd {
                            outcome: "StartSubmittedUnconfirmed"@,
                            provider_status: Some("Unconfirmed (provider confirmation lost)"@),
                            minecraft_status: seen,
                            screenshot_path: plan.screenshot,
                            error_class: None,
                        },
                    })
                }
            } else if now_ms >= deadline_ms {
                next == (StartPhase::TellingEnd {
                    end: RunEnd {
                        outcome: "StartSubmissionUnverified"@,
                        provider_status: Some("Unconfirmed (provider confirmation lost)"@),
                        minecraft_status: if seen is Some {
                            seen
                        } else {
                            plan.known
                        },
                        screenshot_path: plan.screenshot,
                        error_class: Some("StartSubmissionUnverified"@),
                    },
                })
            } else {
                &&& next == (StartPhase::PausingCheck { plan, deadline_ms, last: seen })
                &&& action == (StartAction::<Seq<char>>::Pause { secs: 5 })
                &&& notes(effects, "minecraft_post_click_verify"@, if status is Ok {
                    "waiting"@
                } else {
                    "warning"@
                })
            }
        }),
{
    reveal_with_fuel(first_note, 3);
}

/// After the pause between two looks the server is looked at again, with what was
/// seen and the deadline kept.
pub proof fn looks_go_on_after_their_pause(
    request: StartRequest<Seq<char>>,
    wait: WaitPlan<Seq<char>>,
    check: CheckPlan<Seq<char>>,
    deadline_ms: u128,
    last: Option<Seq<char>>,
    now_ms: u128,
)
    ensures
        ({
            let waits = start_command_step(
                request,
                StartPhase::PausingWait { plan: wait, deadline_ms, last },
                StartEvent::Paused,
                now_ms,
            );
            let checks = start_command_step(
                request,
                StartPhase::PausingCheck { plan: check, deadline_ms, last },
                StartEvent::Paused,
                now_ms,
            );
            &&& waits.2 is AskStatus
            &&& waits.0 == (StartPhase::Waiting { plan: wait, deadline_ms, last })
            &&& checks.2 is AskStatus
            &&& checks.0 == (StartPhase::Checking { plan: check, deadline_ms, last })
        }),
{
}

/// A run whose end was told is recorded with that end, and then the next start is
/// let in and old artifacts are removed; a failure to remove them is no failure of
/// the command.
pub proof fn told_ends_are_recorded(
    request: StartRequest<Seq<char>>,
    end: RunEnd<Seq<char>>,
    earlier: Option<Seq<char>>,
    error: Option<Seq<char>>,
    now_ms: u128,
)
    ensures
        ({
            let told = start_command_step(
                request,
                StartPhase::TellingEnd { end },
                StartEvent::Done { error: None },
                now_ms,
            );
            let pruned = start_command_step(
                request,
                StartPhase::Pruning { error: earlier },
                StartEvent::Done { error },
                now_ms,
            );
            let failed = start_command_step(
                request,
                StartPhase::TellingFailure,
                StartEvent::Done { error },
                now_ms,
            );
            &&& told.0 == (StartPhase::<Seq<char>>::Pruning { error: None }) && told.2 is Prune
            &&& told.1 == seq![Effect::End { end }, Effect::Release]
            &&& pruned.0 is Over && pruned.2 == (StartAction::Finish { error: earlier })
            &&& failed.0 == (StartPhase::Pruning { error }) && failed.2 is Prune
            &&& failed.1 == seq![Effect::<Seq<char>>::Release]
        }),
{
    let told = start_command_step(request, StartPhase::TellingEnd { end }, StartEvent::Done { error: None }, now_ms);
    assert(told.1 =~= seq![Effect::End { end }, Effect::Release]);
    let failed = start_command_step(request, StartPhase::TellingFailure, StartEvent::Done { error }, now_ms);
    assert(failed.1 =~= seq![Effect::<Seq<char>>::Release]);
}

// ---------------------------------------------------------------------------
// What is said and recorded
// ---------------------------------------------------------------------------

/// The ID of the start under way is told to owners and to members of its guild, and to
/// nobody else: not for a start that was asked for in a direct message.
pub proof fn run_ids_are_told_to_their_own(
    caller_is_owner: bool,
    caller_guild_id: Option<Seq<char>>,
    active_guild_id: Option<Seq<char>>,
)
    ensures
        caller_is_owner ==> sees_run_id(caller_is_owner, caller_guild_id, active_guild_id),
        active_guild_id is Some && caller_guild_id == active_guild_id ==> sees_run_id(
            caller_is_owner,
            caller_guild_id,
            active_guild_id,
        ),
        !caller_is_owner && active_guild_id is None ==> !sees_run_id(caller_is_owner, caller_guild_id, active_guild_id),
        !caller_is_owner && caller_guild_id != active_guild_id ==> !sees_run_id(
            caller_is_owner,
            caller_guild_id,
            active_guild_id,
        ),
{
}

/// A command that finds another start under way, before or at its admission, says so, and
/// names the start to those who may know of it.
pub proof fn busy_commands_say_so(
    request: StartRequest<Seq<char>>,
    active: ActiveStartRun<Seq<char>>,
    now_ms: u128,
)
    ensures
        ({
            let before = start_command_step(
                request,
                StartPhase::ReadingActive,
                StartEvent::Active { active: Some(active) },
                now_ms,
            );
            let at = start_command_step(
                request,
                StartPhase::Admitting,
                StartEvent::Refused { error: StartAdmissionError::Busy(active) },
                now_ms,
            );
            let told = request.caller_is_owner || (active.guild_id is Some && active.guild_id == request.context.guild_id);
            &&& before.2 == (StartAction::Say {
                content: noticed(
                    if told {
                        "A start operation is already running as `"@ + active.run_id + "`. Use `/bot run run_id:"@
                            + active.run_id + "` to inspect the last recorded details."@
                    } else {
                        "A start operation is already running. Try again after it finishes."@
                    },
                    request.notice,
                ),
            })
            &&& at.2 == (StartAction::Say {
                content: noticed(
                    if told {
                        "A start operation began just now as `"@ + active.run_id + "`. Use `/bot run run_id:"@
                            + active.run_id + "` to inspect it after it finishes."@
                    } else {
                        "A start operation began just now. Try again after it finishes."@
                    },
                    request.notice,
                ),
            })
            &&& at.0 is Replying && before.0 is Replying
        }),
{
}

/// What is said on the way: that the start is prepared, that it began, and how long
/// Minecraft is waited for; each below the notice or with the run's ID.
pub proof fn the_way_is_told(request: StartRequest<Seq<char>>, result: ProviderStartResult<Seq<char>>, now_ms: u128)
    ensures
        ({
            let done = StartEvent::<Seq<char>, StatusView>::Done { error: None };
            let admitted = start_command_step(request, StartPhase::Admitting, StartEvent::Admitted, now_ms);
            let acknowledged = start_command_step(request, StartPhase::Acknowledging, done, now_ms);
            let started = start_command_step(
                request,
                StartPhase::Running { known: None },
                StartEvent::Started { result },
                now_ms,
            );
            &&& admitted.2 == (StartAction::Reply {
                content: noticed(
                    "Preparing the start operation. Progress will be posted in a bot message."@ + "\nRun: `"@
                        + request.context.run_id + "`"@,
                    request.notice,
                ),
            })
            &&& acknowledged.2 == (StartAction::Announce {
                content: noticed(
                    "Starting server..."@ + "\nRun: `"@ + request.context.run_id + "`"@,
                    request.notice,
                ),
            })
            &&& request.options.wait_online ==> started.2 == (StartAction::Edit {
                content: "Start accepted."@ + " Waiting up to "@ + duration_text((request.wait_online_secs * 1_000) as nat)
                    + " for Minecraft to report online."@ + "\nRun: `"@ + request.context.run_id + "`"@,
                screenshot: result.screenshot_path,
            })
            &&& !request.options.wait_online ==> started.2 == (StartAction::Edit {
                content: final_text(
                    request.wording,
                    request.context.run_id,
                    request.provider_name,
                    result.provider_status,
                    outcome_word(result.outcome),
                ),
                screenshot: result.screenshot_path,
            })
        }),
{
}

/// The step of the provider is recorded under the provider's own name for it, with its
/// status or its message, and with where its artifact lies.
pub proof fn provider_steps_are_recorded(
    request: StartRequest<Seq<char>>,
    known: Option<Seq<char>>,
    result: ProviderStartResult<Seq<char>>,
    failure: ProviderStartFailure<Seq<char>>,
    now_ms: u128,
)
    ensures
        ({
            let dashboard = request.wording == Wording::Dashboard;
            let step = if dashboard {
                "aternos_dashboard"@
            } else {
                "provider_start"@
            };
            let place = |path: Option<Seq<char>>|
                match path {
                    Some(path) => (if dashboard {
                        "; html="@
                    } else {
                        "; artifact="@
                    }) + path,
                    None => Seq::empty(),
                };
            let done = start_command_step(
                request,
                StartPhase::Running { known },
                StartEvent::Started { result },
                now_ms,
            );
            let failed = start_command_step(
                request,
                StartPhase::Running { known },
                StartEvent::Failed { failure },
                now_ms,
            );
            &&& first_note(done.1) matches Some(note)
            &&& note.step == step
            &&& note.detail == Some(
                (if dashboard {
                    "Dashboard status: "@
                } else {
                    "Provider status: "@
                }) + result.provider_status + place(result.detail_artifact_path),
            )
            &&& first_note(failed.1) matches Some(lost)
            &&& lost.step == step
            &&& lost.detail == Some(failure.message + place(failure.detail_artifact_path))
        }),
{
    reveal_with_fuel(first_note, 3);
    let none = Seq::<char>::empty();
    assert("Dashboard status: "@ + result.provider_status + none =~= "Dashboard status: "@ + result.provider_status);
    assert("Provider status: "@ + result.provider_status + none =~= "Provider status: "@ + result.provider_status);
    assert(failure.message + none =~= failure.message);
    if let Some(path) = result.detail_artifact_path {
        assert("Dashboard status: "@ + result.provider_status + "; html="@ + path =~= "Dashboard status: "@
            + result.provider_status + ("; html="@ + path));
        assert("Provider status: "@ + result.provider_status + "; artifact="@ + path =~= "Provider status: "@
            + result.provider_status + ("; artifact="@ + path));
    }
    if let Some(path) = failure.detail_artifact_path {
        assert(failure.message + "; html="@ + path =~= failure.message + ("; html="@ + path));
        assert(failure.message + "; artifact="@ + path =~= failure.message + ("; artifact="@ + path));
    }
}

/// The beginning of a run is logged with its ID, with how long Minecraft will be waited
/// for where it will, and with that the look before is skipped where it is.
pub proof fn beginnings_are_logged(request: StartRequest<Seq<char>>, now_ms: u128)
    ensures
        ({
            let (next, effects, action) = start_command_step(
                request,
                StartPhase::Admitting,
                StartEvent::Admitted,
                now_ms,
            );
            let wait = "wait "@ + duration_text((request.wait_online_secs * 1_000) as nat);
            let id = request.context.run_id;
            effects == seq![
                Effect::Track,
                Effect::Emit {
                    label: "START"@,
                    detail: match (request.options.wait_online, request.options.force) {
                        (false, false) => id,
                        (true, false) => id + " "@ + wait,
                        (false, true) => id + " "@ + "force"@,
                        (true, true) => id + " "@ + wait + " "@ + "force"@,
                    },
                },
            ]
        }),
{
    let wait = "wait "@ + duration_text((request.wait_online_secs * 1_000) as nat);
    let id = request.context.run_id;
    let none = Seq::<Seq<char>>::empty();
    assert(seq![id] + none + none =~= seq![id]);
    assert(seq![id] + seq![wait] + none =~= seq![id, wait]);
    assert(seq![id] + none + seq!["force"@] =~= seq![id, "force"@]);
    assert(seq![id] + seq![wait] + seq!["force"@] =~= seq![id, wait, "force"@]);
    assert(seq![id, wait].drop_last() =~= seq![id]);
    assert(seq![id, "force"@].drop_last() =~= seq![id]);
    assert(seq![id, wait, "force"@].drop_last() =~= seq![id, wait]);
    assert(join(seq![id], " "@) == id);
    assert(join(seq![id, wait], " "@) == id + " "@ + wait);
    assert(join(seq![id, "force"@], " "@) == id + " "@ + "force"@);
    assert(join(seq![id, wait, "force"@], " "@) == join(seq![id, wait], " "@) + " "@ + "force"@);
}

/// What the check of an unconfirmed start says: that it looks, that the start appears
/// submitted, or that it could not be verified.
pub proof fn checks_are_told(
    request: StartRequest<Seq<char>>,
    known: Option<Seq<char>>,
    failure: ProviderStartFailure<Seq<char>>,
    plan: CheckPlan<Seq<char>>,
    up: StatusView,
    down: StatusView,
    deadline_ms: u128,
    now_ms: u128,
)
    requires
        failure.uncertain_mutation == ProviderMutation::PowerStart,
        !is_down(up),
        is_down(down),
        now_ms >= deadline_ms,
        !request.options.wait_online,
    ensures
        ({
            let run = request.context.run_id;
            let asked = start_command_step(
                request,
                StartPhase::Running { known },
                StartEvent::Failed { failure },
                now_ms,
            );
            let seen = start_command_step(
                request,
                StartPhase::Checking { plan, deadline_ms, last: None },
                StartEvent::Status { status: Ok(up) },
                now_ms,
            );
            let lost = start_command_step(
                request,
                StartPhase::Checking { plan, deadline_ms, last: None },
                StartEvent::Status { status: Ok(down) },
                now_ms,
            );
            &&& asked.2 == (StartAction::Edit {
                content: "Start may have been submitted. Checking Minecraft status..."@ + "\nRun: `"@ + run + "`"@,
                screenshot: failure.screenshot_path,
            })
            &&& seen.2 == (StartAction::Edit {
                content: "Start appears submitted, but provider confirmation was lost.\nMinecraft: **"@ + status_text(up)
                    + "**"@ + "\nRun: `"@ + run + "`"@,
                screenshot: plan.screenshot,
            })
            &&& lost.2 == (StartAction::Edit {
                content: "Start could not be verified after provider confirmation was lost."@ + "\nRun: `"@ + run + "`"@,
                screenshot: plan.screenshot,
            })
        }),
{
}

/// A word that cannot be sent ends the command with its error: at once where nothing is
/// under way, and after the next start was let in where one was admitted.
pub proof fn unsent_words_end_the_command(
    request: StartRequest<Seq<char>>,
    phase: StartPhase<Seq<char>>,
    error: Seq<char>,
    now_ms: u128,
)
    requires
        phase is Deferring || phase is Replying || phase is Acknowledging || phase is Announcing,
    ensures
        ({
            let (next, effects, action) = start_command_step(
                request,
                phase,
                StartEvent::Done { error: Some(error) },
                now_ms,
            );
            &&& next is Over
            &&& action == (StartAction::Finish { error: Some(error) })
            &&& effects == if phase is Acknowledging || phase is Announcing {
                seq![Effect::<Seq<char>>::Release]
            } else {
                Seq::empty()
            }
        }),
{
}

/// A run that breaks off is told and logged by its cleaned error.
pub proof fn broken_runs_are_told(request: StartRequest<Seq<char>>, known: Option<Seq<char>>, error: Seq<char>, now_ms: u128)
    ensures
        ({
            let (next, effects, action) = start_command_step(
                request,
                StartPhase::Running { known },
                StartEvent::Broken { error },
                now_ms,
            );
            let told = cleaned("provider operation task failed: "@ + error);
            &&& effects.len() == 2
            &&& effects[1] == (Effect::Emit { label: "FAIL"@, detail: request.context.run_id + " error "@ + told })
            &&& action == (StartAction::Edit {
                content: "Start failed."@ + "\nRun: `"@ + request.context.run_id + "`"@ + "\nError: `"@ + told + "`"@,
                screenshot: None,
            })
        }),
{
}

} // verus!
