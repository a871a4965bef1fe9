use butler::auth::SensitiveCommandAccess;
use butler::config::ArtifactCapture;
use butler::minecraft::ServerStatus;
use butler::provider::{
    ProviderMutation, ProviderProgress, ProviderProgressStage, ProviderStartFailure,
    ProviderStartResult, StartOutcome,
};
use butler::run_history::artifacts::has_run_id_shape;
use butler::run_history::{RunContext, RunStore, RunSummary};
use butler::server_service::queries::{last_error, run, runs};
use butler::server_service::responses::{
    after_attachment, attachable_screenshot_path, discord_safe_provider_detail, edit_warning,
    format_failure_detail, format_provider_detail, format_run_detail,
    provider_failure_public_content, provider_progress_content, start_final_content,
    start_progress_content, start_submission_checking_content,
    start_submission_unverified_content, start_submitted_unconfirmed_content,
    start_submitted_unconfirmed_wait_final_content, status_confirms_start_submission, Wording,
};
use butler::server_service::start::{
    active_start_busy_message_for, caller_can_see_active_run_id_for, Effect, StartAction,
    StartEvent, StartPhase, StartRequest,
};
use butler::server_service::status::{
    active_run_display, diagnose, ping_line, status_content, status_log_line, Settings,
    PING_REPLY,
};
use butler::server_service::tracking::{
    generate_run_id, history_warning, run_context, run_id_from, run_result_label, RunEnd, RunTracker, StepNote,
};
use butler::server_service::StartOptions;
use butler::state::{ActiveStartRun, StartAdmissionError};
use butler::terminal::Console;

const PLAIN: Console = Console { epoch_secs: 0, color: false };

fn context() -> RunContext {
    RunContext {
        run_id: "abc123".to_string(),
        command: "server.start".to_string(),
        provider: "aternos".to_string(),
        guild_id: Some("guild-1".to_string()),
        guild_name: "Guild".to_string(),
        channel_id: "channel-1".to_string(),
        channel_name: Some("ops".to_string()),
        user_id: "user-1".to_string(),
        user_name: "alice".to_string(),
    }
}

fn summary(run_id: &str, guild_id: Option<&str>, failed: bool) -> RunSummary {
    let mut context = context();
    context.run_id = run_id.to_string();
    context.guild_id = guild_id.map(str::to_string);
    RunSummary {
        context,
        started_at_ms: 1,
        finished_at_ms: 3,
        duration_ms: 2,
        outcome: if failed { "Failed" } else { "StartClicked" }.to_string(),
        final_provider_status: Some("Starting".to_string()),
        final_minecraft_status: None,
        screenshot_path: Some("shot.png".to_string()),
        error_class: if failed { Some("StartNotAccepted".to_string()) } else { None },
        steps: Vec::new(),
    }
}

fn failure(uncertain_mutation: ProviderMutation) -> ProviderStartFailure {
    ProviderStartFailure {
        error_class: "StartNotAccepted".to_string(),
        message: "selector /tmp".to_string(),
        screenshot_path: Some("failure.png".to_string()),
        detail_artifact_path: Some("failure.html".to_string()),
        minecraft_address: None,
        uncertain_mutation,
        retryable: false,
    }
}

fn online() -> ServerStatus {
    ServerStatus::Online { online: 0, max: 20, players: Vec::new() }
}

#[test]
fn active_run_id_is_visible_to_owner_or_same_guild() {
    assert!(caller_can_see_active_run_id_for(true, None, Some("guild-1")));
    assert!(caller_can_see_active_run_id_for(false, Some("guild-1"), Some("guild-1")));
    assert!(!caller_can_see_active_run_id_for(false, Some("guild-2"), Some("guild-1")));
    assert!(!caller_can_see_active_run_id_for(false, None, None));
}

#[test]
fn active_busy_message_hides_cross_guild_run_id() {
    let hidden = active_start_busy_message_for("abc123", false, false);
    assert!(!hidden.contains("abc123"));
    let visible = active_start_busy_message_for("abc123", true, false);
    assert!(visible.contains("abc123"));
    assert!(active_start_busy_message_for("abc123", true, true).contains("began just now as"));
    assert!(!active_start_busy_message_for("abc123", false, true).contains("abc123"));
}

#[test]
fn provider_failure_public_content_hides_raw_message() {
    let content = provider_failure_public_content("StartNotAccepted", "abc123");
    assert!(content.contains("StartNotAccepted"));
    assert!(content.contains("abc123"));
    assert!(!content.contains("selector"));
    assert!(!content.contains("/tmp"));
    assert!(!content.contains("An owner or server Administrator"));
    assert!(!content.contains("/bot run"));
    assert_eq!(content, "Start failed: **StartNotAccepted**\nRun: `abc123`");
}

#[test]
fn allocation_timeout_content_explains_safe_retry() {
    let content = provider_failure_public_content("ProviderAllocationTimeout", "abc123");
    assert!(content.contains("did not finish"));
    assert!(content.contains("again is safe"));
    assert!(content.contains("abc123"));
    assert!(!content.contains("Start may have been submitted"));
}

#[test]
fn provider_progress_content_reports_allocation_state() {
    let content = provider_progress_content(
        "abc123",
        &ProviderProgress {
            stage: ProviderProgressStage::WaitingForAllocation,
            detail: "phase waking, queue 1/4, estimated 3 minutes".to_string(),
        },
    );
    assert!(content.contains("Waiting for host allocation"));
    assert!(content.contains("queue 1/4"));
    assert!(content.contains("abc123"));
}

#[test]
fn provider_progress_content_suppresses_mentions_and_bounds_text() {
    let content = provider_progress_content(
        "abc123",
        &ProviderProgress {
            stage: ProviderProgressStage::WaitingForAllocation,
            detail: format!("@everyone `{}`", "x".repeat(1_000)),
        },
    );
    assert!(!content.contains("@everyone"));
    assert!(!content.contains('`') || content.contains("`abc123`"));
    assert!(content.chars().count() < 650);
    assert_eq!(discord_safe_provider_detail("@a `b`"), "@\u{200b}a 'b'");
}

#[test]
fn start_submission_status_detection_accepts_transitional_and_online() {
    assert!(status_confirms_start_submission(&ServerStatus::Queued));
    assert!(status_confirms_start_submission(&ServerStatus::Starting));
    assert!(status_confirms_start_submission(&ServerStatus::Preparing));
    assert!(status_confirms_start_submission(&ServerStatus::Loading));
    assert!(status_confirms_start_submission(&online()));
    assert!(!status_confirms_start_submission(&ServerStatus::Offline));
    assert!(!status_confirms_start_submission(&ServerStatus::Unreachable {
        reason: "timeout".to_string(),
    }));
}

#[test]
fn unconfirmed_start_public_content_is_short_and_scoped() {
    let checking = start_submission_checking_content("abc123");
    assert_eq!(
        checking,
        "Start may have been submitted. Checking Minecraft status...\nRun: `abc123`"
    );

    let accepted = start_submitted_unconfirmed_content("abc123", &ServerStatus::Starting);
    assert!(accepted.contains("Start appears submitted"));
    assert!(accepted.contains("Minecraft: **Starting**"));
    assert!(accepted.contains("Run: `abc123`"));

    let wait_done =
        start_submitted_unconfirmed_wait_final_content("abc123", "pterodactyl", "MinecraftOnline");
    assert!(wait_done.contains("Server is online."));
    assert!(wait_done.contains("Provider (pterodactyl): **Unconfirmed"));
    assert!(wait_done.contains("Run: `abc123`"));

    let unverified = start_submission_unverified_content("abc123");
    assert_eq!(
        unverified,
        "Start could not be verified after provider confirmation was lost.\nRun: `abc123`"
    );
}

#[test]
fn diagnose_active_run_display_is_scoped() {
    let active_run = |run_id: &str, guild_id: Option<&str>| {
        Some(ActiveStartRun {
            run_id: run_id.to_string(),
            guild_id: guild_id.map(str::to_string),
        })
    };
    let owner = SensitiveCommandAccess::Owner;
    let admin = SensitiveCommandAccess::GuildAdministrator { guild_id: "guild-1".to_string() };
    let other_admin =
        SensitiveCommandAccess::GuildAdministrator { guild_id: "guild-2".to_string() };

    let active = active_run("abc123", Some("guild-1"));
    assert_eq!(active_run_display(&active, &owner), "abc123");
    assert_eq!(active_run_display(&active, &admin), "abc123");
    assert_eq!(active_run_display(&active, &other_admin), "hidden");

    let dm_active = active_run("dm123", None);
    assert_eq!(active_run_display(&dm_active, &owner), "dm123");
    assert_eq!(active_run_display(&dm_active, &admin), "hidden");
    assert_eq!(active_run_display(&None, &owner), "none");
}

#[test]
fn missing_screenshot_is_not_attachable() {
    assert_eq!(attachable_screenshot_path(true, Some("missing.png".to_string()), false), None);
}

#[test]
fn screenshot_attachment_respects_config_flag() {
    let path = Some("shot.png".to_string());
    assert_eq!(attachable_screenshot_path(true, path.clone(), true), path.clone());
    assert_eq!(attachable_screenshot_path(false, path, true), None);
    assert_eq!(
        after_attachment("shot.png", Some("too big")).as_deref(),
        Some("could not attach screenshot shot.png; error too big")
    );
    assert_eq!(after_attachment("shot.png", None), None);
    assert_eq!(edit_warning("gone"), "could not edit start progress message; error gone");
}

#[test]
fn contents_are_worded_for_provider_and_dashboard() {
    assert_eq!(
        start_final_content(Wording::Provider, "abc123", "aternos", "Starting", "StartClicked"),
        "Start accepted.\nProvider (aternos): **Starting**\nRun: `abc123`"
    );
    assert_eq!(
        start_final_content(Wording::Dashboard, "abc123", "aternos", "Starting", "WaitOnlineTimeout"),
        "Aternos accepted the start, but Minecraft did not report online before timeout.\nAternos: **Starting**\nRun: `abc123`"
    );
    assert_eq!(
        start_progress_content("abc123", &Some("Old command.".to_string())),
        "Old command.\n\nStarting server...\nRun: `abc123`"
    );
    assert_eq!(
        format_provider_detail(Wording::Provider, "Starting", &Some("a.html".to_string())),
        "Provider status: Starting; artifact=a.html"
    );
    assert_eq!(
        format_provider_detail(Wording::Dashboard, "Starting", &Some("a.html".to_string())),
        "Dashboard status: Starting; html=a.html"
    );
    assert_eq!(
        format_failure_detail(Wording::Provider, &failure(ProviderMutation::Nothing)),
        "selector /tmp; artifact=failure.html"
    );
}

// ---------------------------------------------------------------------------
// The start command
// ---------------------------------------------------------------------------

fn request(wait_online: bool, force: bool) -> StartRequest {
    StartRequest {
        context: context(),
        options: StartOptions { wait_online, force },
        wording: Wording::Provider,
        notice: None,
        provider_name: "aternos".to_string(),
        wait_online_secs: 60,
        caller_is_owner: false,
    }
}

struct World {
    statuses: Vec<Result<ServerStatus, String>>,
    provider: Vec<StartEvent>,
    log: Vec<String>,
}

fn play(request: &StartRequest, mut world: World) -> (World, Option<String>) {
    let mut now: u128 = 1_000;
    let (mut phase, _, mut action) = StartPhase::begin();
    let mut steps = 0;
    loop {
        steps += 1;
        assert!(steps < 200);
        let event = match action {
            StartAction::Finish { error } => return (world, error),
            StartAction::ReadActive => StartEvent::Active { active: None },
            StartAction::Admit => StartEvent::Admitted,
            StartAction::AskStatus => StartEvent::Status { status: world.statuses.remove(0) },
            StartAction::StartProvider => {
                world.log.push("start".to_string());
                world.provider.remove(0)
            }
            StartAction::AwaitProvider => world.provider.remove(0),
            StartAction::Edit { content, screenshot } => {
                world.log.push(format!("edit {content:?} {screenshot:?}"));
                StartEvent::Done { error: None }
            }
            StartAction::Pause { secs } => {
                now += u128::from(secs) * 1000;
                StartEvent::Paused
            }
            StartAction::Say { content } | StartAction::Reply { content } => {
                world.log.push(format!("say {content:?}"));
                StartEvent::Done { error: None }
            }
            StartAction::Announce { .. } | StartAction::Defer | StartAction::Prune => {
                StartEvent::Done { error: None }
            }
        };
        let (next, effects, asked) = phase.start_server_with_notice(request, event, now);
        for effect in effects {
            world.log.push(match effect {
                Effect::Track => "track".to_string(),
                Effect::Emit { label, detail } => format!("{label} {detail}"),
                Effect::Step { note } => format!("step {} {}", note.step, note.status),
                Effect::End { end } => format!(
                    "end {} {:?} {:?} {:?}",
                    end.outcome, end.provider_status, end.minecraft_status, end.error_class
                ),
                Effect::Release => "release".to_string(),
            });
        }
        phase = next;
        action = asked;
    }
}

fn accepted() -> StartEvent {
    StartEvent::Started {
        result: ProviderStartResult {
            outcome: StartOutcome::StartClicked,
            provider_status: "Starting".to_string(),
            minecraft_address: None,
            screenshot_path: Some("shot.png".to_string()),
            detail_artifact_path: None,
        },
    }
}

fn count(world: &World, entry: &str) -> usize {
    world.log.iter().filter(|line| line.as_str() == entry).count()
}

#[test]
fn an_accepted_start_is_recorded_and_released() {
    let (world, error) = play(
        &request(false, false),
        World {
            statuses: vec![Ok(ServerStatus::Offline)],
            provider: vec![
                StartEvent::Progress {
                    progress: ProviderProgress {
                        stage: ProviderProgressStage::RequestingPower,
                        detail: "go".to_string(),
                    },
                },
                accepted(),
            ],
            log: Vec::new(),
        },
    );
    assert_eq!(error, None);
    assert_eq!(count(&world, "start"), 1);
    assert_eq!(count(&world, "release"), 1);
    assert_eq!(count(&world, "START abc123"), 1);
    assert_eq!(count(&world, "WAIT abc123 RequestingPower go"), 1);
    assert_eq!(
        count(&world, "end StartClicked Some(\"Starting\") Some(\"Offline\") None"),
        1
    );
    assert!(world.log.contains(&"step provider_start StartClicked".to_string()));
}

#[test]
fn a_server_that_is_online_is_not_started() {
    let (world, error) = play(
        &request(false, false),
        World { statuses: vec![Ok(ServerStatus::Starting)], provider: Vec::new(), log: Vec::new() },
    );
    assert_eq!(error, None);
    assert_eq!(count(&world, "start"), 0);
    assert_eq!(count(&world, "end AlreadyOnline None Some(\"Starting\") None"), 1);
    assert_eq!(
        count(&world, "edit \"Server is already **Starting**.\\nRun: `abc123`\" None"),
        1
    );
}

#[test]
fn a_failed_status_check_does_not_keep_from_starting() {
    let (world, _) = play(
        &request(false, false),
        World {
            statuses: vec![Err("timeout".to_string())],
            provider: vec![accepted()],
            log: Vec::new(),
        },
    );
    assert_eq!(count(&world, "start"), 1);
    assert_eq!(count(&world, "WARN abc123 preflight failed; continuing; error timeout"), 1);
}

#[test]
fn a_wait_ends_online_or_at_its_deadline() {
    let (world, _) = play(
        &request(true, true),
        World {
            statuses: vec![Err("x".to_string()), Ok(ServerStatus::Loading), Ok(online())],
            provider: vec![accepted()],
            log: Vec::new(),
        },
    );
    assert_eq!(
        count(
            &world,
            "end MinecraftOnline Some(\"Starting\") Some(\"Online (0/20 players)\\nPlayers: None\") None"
        ),
        1
    );
    assert_eq!(count(&world, "START abc123 wait 1m force"), 1);

    let (world, _) = play(
        &request(true, true),
        World {
            statuses: vec![Ok(ServerStatus::Loading); 13],
            provider: vec![accepted()],
            log: Vec::new(),
        },
    );
    assert_eq!(
        count(
            &world,
            "end WaitOnlineTimeout Some(\"Starting\") Some(\"Loading\") Some(\"WaitOnlineTimeout\")"
        ),
        1
    );
    assert_eq!(count(&world, "step minecraft_wait_online timeout"), 1);
}

#[test]
fn a_failure_is_told_by_its_class() {
    let (world, error) = play(
        &request(false, true),
        World {
            statuses: Vec::new(),
            provider: vec![StartEvent::Failed { failure: failure(ProviderMutation::WakeAllocation) }],
            log: Vec::new(),
        },
    );
    assert_eq!(error, None);
    assert_eq!(
        count(
            &world,
            "edit \"Start failed: **StartNotAccepted**\\nRun: `abc123`\" Some(\"failure.png\")"
        ),
        1
    );
    assert_eq!(count(&world, "end Failed None None Some(\"StartNotAccepted\")"), 1);
    assert!(!world.log.iter().any(|line| line.contains("selector")));
}

#[test]
fn an_unconfirmed_start_is_looked_for() {
    let lost = || StartEvent::Failed { failure: failure(ProviderMutation::PowerStart) };
    let (world, _) = play(
        &request(false, true),
        World {
            statuses: vec![Ok(ServerStatus::Offline), Ok(ServerStatus::Starting)],
            provider: vec![lost()],
            log: Vec::new(),
        },
    );
    assert_eq!(
        count(
            &world,
            "end StartSubmittedUnconfirmed Some(\"Unconfirmed (provider confirmation lost)\") Some(\"Starting\") None"
        ),
        1
    );

    let (world, _) = play(
        &request(false, true),
        World {
            statuses: vec![Ok(ServerStatus::Offline); 13],
            provider: vec![lost()],
            log: Vec::new(),
        },
    );
    assert_eq!(
        count(
            &world,
            "end StartSubmissionUnverified Some(\"Unconfirmed (provider confirmation lost)\") Some(\"Offline\") Some(\"StartSubmissionUnverified\")"
        ),
        1
    );

    let (world, _) = play(
        &request(true, true),
        World {
            statuses: vec![Ok(ServerStatus::Queued), Ok(online())],
            provider: vec![lost()],
            log: Vec::new(),
        },
    );
    assert!(world.log.iter().any(|line| line.contains("Start appears submitted. Waiting up to 1m")));
    assert!(world.log.iter().any(|line| line.starts_with("end MinecraftOnline")));
}

#[test]
fn a_broken_task_fails_the_command_and_releases_it() {
    let (world, error) = play(
        &request(false, true),
        World {
            statuses: Vec::new(),
            provider: vec![StartEvent::Broken { error: "panicked".to_string() }],
            log: Vec::new(),
        },
    );
    assert_eq!(error, None);
    assert_eq!(count(&world, "release"), 1);
    assert_eq!(count(&world, "end Failed None None Some(\"CommandError\")"), 1);
    assert_eq!(
        count(&world, "FAIL abc123 error provider operation task failed: panicked"),
        1
    );
}

#[test]
fn refused_starts_are_answered() {
    let answered = |error: StartAdmissionError| {
        match StartPhase::Admitting.start_server_with_notice(
            &request(false, false),
            StartEvent::Refused { error },
            0,
        ) {
            (_, _, StartAction::Say { content }) => content,
            _ => panic!("expected an answer"),
        }
    };
    assert_eq!(
        answered(StartAdmissionError::ShuttingDown),
        "Butler is restarting; try again shortly."
    );
    assert_eq!(
        answered(StartAdmissionError::Unavailable),
        "A start operation cannot be admitted right now; try again shortly."
    );
    let other = StartAdmissionError::Busy(ActiveStartRun {
        run_id: "secret".to_string(),
        guild_id: Some("guild-2".to_string()),
    });
    assert!(!answered(other).contains("secret"));
}

#[test]
fn failed_answers_end_the_command_and_release_it() {
    match StartPhase::Acknowledging.start_server_with_notice(
        &request(false, false),
        StartEvent::Done { error: Some("no".to_string()) },
        0,
    ) {
        (StartPhase::Over, effects, StartAction::Finish { error }) => {
            assert_eq!(error.as_deref(), Some("no"));
            assert!(matches!(effects[0], Effect::Release));
        }
        _ => panic!("expected the end"),
    }
}

// ---------------------------------------------------------------------------
// Tracking and questions
// ---------------------------------------------------------------------------

#[test]
fn run_ids_have_their_shape() {
    assert_eq!(run_id_from(&vec![0, 25, 26, 35]), "az09");
    assert!(has_run_id_shape(&generate_run_id()));
}

#[test]
fn contexts_outside_of_guilds_are_direct_messages() {
    let made = run_context(
        "abc123".to_string(),
        "server.start",
        "aternos",
        None,
        None,
        "1".to_string(),
        None,
        "2".to_string(),
        "alice".to_string(),
    );
    assert_eq!(made.guild_name, "DM");
    assert_eq!(made.provider, "aternos");
}

#[test]
fn trackers_record_steps_and_ends() {
    let mut tracker = RunTracker::new(context(), 1_000);
    let (line, event) = tracker.step(
        &PLAIN,
        StepNote {
            step: "provider_start".to_string(),
            status: "failed".to_string(),
            detail: None,
            screenshot_path: None,
            error_class: Some("Class".to_string()),
        },
        1_500,
    );
    assert!(line.ends_with("abc123 provider_start failed error Class"));
    assert_eq!(event.step.at_ms, 1_500);
    let end = |error_class: Option<&str>| RunEnd {
        outcome: "AlreadyOnline".to_string(),
        provider_status: None,
        minecraft_status: None,
        screenshot_path: None,
        error_class: error_class.map(str::to_string),
    };
    let (line, summary) = tracker.finish(&PLAIN, end(None), 3_000);
    assert!(line.unwrap().contains("SKIP"));
    assert_eq!(summary.duration_ms, 2_000);
    assert_eq!(summary.steps.len(), 1);
    assert_eq!(run_result_label(&summary), "SKIP");
    let (line, summary) = tracker.finish(&PLAIN, end(Some("CommandError")), 500);
    assert_eq!(line, None);
    assert_eq!(summary.duration_ms, 0);
}

#[test]
fn questions_are_answered_within_their_scope() {
    let mut store = RunStore::new(10, true, true);
    store.push(summary("guild2", Some("guild-2"), true));
    store.push(summary("guild1", Some("guild-1"), false));
    let owner = SensitiveCommandAccess::Owner;
    let admin = SensitiveCommandAccess::GuildAdministrator { guild_id: "guild-1".to_string() };

    assert_eq!(
        runs(&store, &admin, Some(0)).content,
        "Last 1 completed runs:\n`guild1` StartClicked by alice in Guild (2ms)"
    );
    assert_eq!(
        runs(&store, &owner, None).content,
        "Last 2 completed runs:\n`guild1` StartClicked by alice in Guild (2ms)\n`guild2` Failed by alice in Guild (2ms) error=StartNotAccepted"
    );
    assert_eq!(runs(&RunStore::new(1, true, true), &owner, None).content, "No completed runs recorded yet.");
    assert_eq!(runs(&store, &owner, None).log_detail(5, 1_005), "2 runs 1s");

    let active = Some(ActiveStartRun {
        run_id: "active".to_string(),
        guild_id: Some("guild-2".to_string()),
    });
    assert_eq!(run(&store, &active, &admin, "guild2").content, "No run found for `guild2`.");
    assert_eq!(run(&store, &active, &admin, "active").label, "MISS");
    assert!(run(&store, &active, &owner, "active").content.contains("currently active"));
    let shown = run(&store, &active, &owner, "guild2");
    assert_eq!(shown.screenshot.as_deref(), Some("shot.png"));
    assert_eq!(
        shown.content,
        "Run `guild2`\nCommand: `server.start`\nOutcome: **Failed**\nUser: `alice` (`user-1`)\nGuild: `Guild`\nDuration: `2ms`\nProvider: `aternos`\nProvider status: **Starting**\nError: **StartNotAccepted**\nSteps:"
    );
    assert_eq!(shown.content, format_run_detail(&summary("guild2", Some("guild-2"), true)));
    assert_eq!(last_error(&store, &admin).content, "No failed runs recorded yet.");
    assert_eq!(last_error(&store, &owner).detail, "guild2 Failed");
}

#[test]
fn the_status_is_told_and_logged() {
    let seen: Result<ServerStatus, String> = Ok(ServerStatus::Queued);
    assert_eq!(status_content("host", &seen), "Status for `host`: **In Queue**");
    assert_eq!(status_log_line(&seen, 0, 1_000), ("OK", "\"Queued\" 1s".to_string()));
    let failed: Result<ServerStatus, String> = Err("bad\naddress".to_string());
    assert_eq!(status_content("host", &failed), "Status check failed: bad\naddress");
    assert_eq!(status_log_line(&failed, 0, 5), ("FAIL", "5ms error bad address".to_string()));
}

#[test]
fn diagnoses_list_the_settings() {
    let answer = diagnose(
        &Settings {
            minecraft_server_addr: "host".to_string(),
            server_id: None,
            headless: true,
            artifact_dir: "runs".to_string(),
            artifact_capture: ArtifactCapture::Full,
            attach_screenshots: true,
            persist_run_events: true,
            redact_run_events: false,
            owners: 2,
        },
        &None,
        &SensitiveCommandAccess::Owner,
        &Err("timeout".to_string()),
    );
    assert_eq!(
        answer.content,
        "Diagnostics\nServer address: `host`\nAternos server id: `not configured`\nHeadless: `true`\nArtifact dir: `runs`\nArtifact capture: `full`\nAttach screenshots: `true`\nPersist events: `true`\nRedact events: `false`\nConfigured owners: `2`\nActive start run: `none`\nMinecraft status: **error: timeout**"
    );
    assert_eq!(answer.detail, "active none MC \"error: timeout\"");
}

#[test]
fn unsaved_events_are_reported() {
    assert_eq!(
        history_warning("abc123", "disk \"full\""),
        "abc123 could not write run history; error disk 'full'"
    );
}

#[test]
fn provider_details_stay_on_one_line() {
    assert_eq!(discord_safe_provider_detail("say \"hi\"\r\nto me@"), "say 'hi' to me@\u{200b}");
    assert_eq!(discord_safe_provider_detail("@everyone"), "@\u{200b}everyone");
}

#[test]
fn options_left_open_are_not_wanted() {
    assert_eq!(StartOptions::chosen(None, None), StartOptions::default());
    assert_eq!(
        StartOptions::chosen(Some(true), None),
        StartOptions { wait_online: true, force: false }
    );
    assert_eq!(
        StartOptions::chosen(Some(false), Some(true)),
        StartOptions { wait_online: false, force: true }
    );
}

#[test]
fn pings_are_answered_and_shown() {
    assert_eq!(PING_REPLY, "\u{1f3d3} Pong!");
    let console = Console { epoch_secs: 3_661, color: false };
    assert_eq!(
        ping_line(&console, "ann", Some("Guild"), Some("general")),
        "01:01 OK    /ping @ann \"Guild\" #general"
    );
    assert_eq!(ping_line(&console, "ann", None, None), "01:01 OK    /ping @ann \"DM\"");
}
