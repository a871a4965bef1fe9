use butler::config::{ArtifactCapture, UserIds};
use butler::environment::{AternosConfig, Config, ProviderConfig};
use butler::provider::{
    provider_failure, ProviderMutation, ProviderStartResult, StartOutcome,
};
use butler::run_history::events::EventFileMaintenance;
use butler::run_history::RunContext;
use butler::state::lock::{
    lock_draft_name, lock_owner, lock_owner_pid, new_lock_draft_name, owns_lock, process_is_alive,
    reclaim_name, runtime_lock_owner, LockAction, LockEvent, LockFlow,
};
use butler::state::{
    maintenance_detail, marker_matches, needs_writable_artifacts, stale_marker_problem,
    ActiveStartLease, AdmissionNext, BotState, MarkerRemoval, StartAdmissionError,
};

fn context(run_id: &str) -> RunContext {
    RunContext {
        run_id: run_id.to_string(),
        command: "server.start".to_string(),
        provider: "aternos".to_string(),
        guild_id: Some("guild-1".to_string()),
        guild_name: "Guild".to_string(),
        channel_id: "channel-1".to_string(),
        channel_name: None,
        user_id: "user-1".to_string(),
        user_name: "alice".to_string(),
    }
}

fn admitted(state: &mut BotState, run_id: &str) {
    assert!(matches!(state.try_begin_start_run(), AdmissionNext::AcquireLock));
    match state.after_admission_lock(&context(run_id), None) {
        AdmissionNext::WriteMarker { contents } => assert_eq!(contents, format!("{run_id}\n")),
        _ => panic!("expected the marker"),
    }
    assert!(matches!(
        state.after_active_marker(&context(run_id), None),
        AdmissionNext::Admitted
    ));
}

#[test]
fn one_start_is_under_way_at_a_time() {
    let mut state = BotState::new("localhost:25565");
    admitted(&mut state, "run-1");
    match state.try_begin_start_run() {
        AdmissionNext::Refused { error: StartAdmissionError::Busy(active), warning: None } => {
            assert_eq!(active.run_id, "run-1");
            assert_eq!(active.guild_id.as_deref(), Some("guild-1"));
        }
        _ => panic!("expected a refusal"),
    }
    state.clear_active_start("run-2");
    assert!(state.active_start_run().is_some());
    state.clear_active_start("run-1");
    assert!(state.active_start_run().is_none());
    assert!(matches!(state.try_begin_start_run(), AdmissionNext::AcquireLock));
}

#[test]
fn shutdown_admits_no_start() {
    let mut state = BotState::new("localhost:25565");
    state.begin_shutdown();
    assert!(matches!(
        state.try_begin_start_run(),
        AdmissionNext::Refused { error: StartAdmissionError::ShuttingDown, warning: None }
    ));
}

#[test]
fn trouble_with_files_refuses_the_start() {
    let mut state = BotState::new("localhost:25565");
    match state.after_admission_lock(&context("run-1"), Some("lock is\nheld")) {
        AdmissionNext::Refused { error: StartAdmissionError::Unavailable, warning: Some(warning) } => {
            assert_eq!(warning.command, "start.admission");
            assert_eq!(
                warning.detail,
                "could not acquire start-admission lock; error lock is held"
            );
        }
        _ => panic!("expected a refusal"),
    }
    match state.after_active_marker(&context("run-1"), Some("disk full")) {
        AdmissionNext::Refused { error: StartAdmissionError::Unavailable, warning: Some(warning) } => {
            assert_eq!(warning.command, "start.marker");
            assert_eq!(warning.detail, "could not write active-start marker; error disk full");
        }
        _ => panic!("expected a refusal"),
    }
    assert!(state.active_start_run().is_none());
    assert!(state.is_idle());
}

#[test]
fn provider_operation_guard_blocks_shutdown_drain_until_drop() {
    let mut state = BotState::new("localhost:25565");
    admitted(&mut state, "run-1");
    assert!(!state.is_idle());
    assert!(state.end_provider_operation());
    assert!(state.is_idle());
}

#[test]
fn the_address_follows_the_provider() {
    let mut state = BotState::new("localhost:25565");
    assert_eq!(state.minecraft_address(), "localhost:25565");
    state.set_minecraft_address("host:1".to_string());
    assert_eq!(state.minecraft_address(), "host:1");
}

#[test]
fn markers_are_recognized() {
    assert!(marker_matches(Some("run-1\n"), "run-1"));
    assert!(!marker_matches(Some("run-2\n"), "run-1"));
    assert!(!marker_matches(None, "run-1"));
    assert_eq!(stale_marker_problem(MarkerRemoval::NotFound), None);
    assert_eq!(stale_marker_problem(MarkerRemoval::Removed), None);
    assert!(stale_marker_problem(MarkerRemoval::Failed).is_some());
    assert_eq!(
        maintenance_detail(&EventFileMaintenance::RotatedUnredacted("a".to_string())),
        "rotated unredacted events to a"
    );
    assert_eq!(
        maintenance_detail(&EventFileMaintenance::QuarantinedCorrupt("b".to_string())),
        "quarantined corrupt events to b"
    );
}

#[test]
fn artifacts_need_to_be_writable_where_they_are_written() {
    let config = |artifact_capture, persist_run_events| Config {
        discord_token: "token".to_string(),
        provider: ProviderConfig::Aternos(AternosConfig {
            user: "user".to_string(),
            password: "password".to_string(),
            server_id: None,
            headless: true,
            chrome_path: None,
        }),
        minecraft_server_addr: "localhost".to_string(),
        start_wait_online_secs: 600,
        run_history_limit: 20,
        artifact_dir: "artifacts/runs".to_string(),
        artifact_capture,
        attach_screenshots: true,
        persist_run_events,
        redact_run_events: true,
        owner_user_ids: UserIds::new(),
    };
    assert!(!needs_writable_artifacts(&config(ArtifactCapture::Off, false)));
    assert!(needs_writable_artifacts(&config(ArtifactCapture::Off, true)));
    assert!(needs_writable_artifacts(&config(ArtifactCapture::Full, false)));
}

struct LockFile {
    contents: Option<String>,
    reclaiming: bool,
    alive: bool,
}

fn acquire(file: &mut LockFile, owner: &str) -> Result<(), String> {
    let (mut flow, mut action) = LockFlow::begin();
    loop {
        let event = match action {
            LockAction::Held => return Ok(()),
            LockAction::Fail { message } => return Err(message),
            LockAction::Publish => {
                if file.contents.is_some() {
                    LockEvent::AlreadyExists
                } else {
                    file.contents = Some(owner.to_string());
                    LockEvent::Published
                }
            }
            LockAction::PublishReclaim => {
                if file.reclaiming {
                    LockEvent::AlreadyExists
                } else {
                    LockEvent::Published
                }
            }
            LockAction::Inspect => match &file.contents {
                Some(_) => LockEvent::RegularFile,
                None => LockEvent::Missing,
            },
            LockAction::Read => LockEvent::Contents { contents: file.contents.clone().unwrap() },
            LockAction::AskAlive { .. } => {
                if file.alive {
                    LockEvent::Alive
                } else {
                    LockEvent::Dead
                }
            }
            LockAction::Remove => {
                file.contents = None;
                LockEvent::Removed
            }
        };
        let (next, asked) = flow.acquire_runtime_lock(event, "test");
        flow = next;
        action = asked;
    }
}

#[test]
fn runtime_lock_rejects_live_owner_and_reclaims_stale_owner() {
    let mut file = LockFile { contents: None, reclaiming: false, alive: true };
    let owner = lock_owner(42, 7);
    assert!(acquire(&mut file, &owner).is_ok());
    assert_eq!(
        acquire(&mut file, "other"),
        Err("test lock is held by another process".to_string())
    );
    assert!(owns_lock(file.contents.as_deref(), &owner));

    let mut stale = LockFile {
        contents: Some("999999\nstale\n".to_string()),
        reclaiming: false,
        alive: false,
    };
    assert!(acquire(&mut stale, &owner).is_ok());
    assert_eq!(stale.contents.as_deref(), Some(owner.as_str()));
}

#[test]
fn runtime_lock_does_not_reclaim_invalid_or_replacement_ownership() {
    let mut invalid = LockFile {
        contents: Some("invalid\n".to_string()),
        reclaiming: false,
        alive: false,
    };
    assert_eq!(
        acquire(&mut invalid, "owner"),
        Err("existing test lock has invalid ownership".to_string())
    );
    assert_eq!(invalid.contents.as_deref(), Some("invalid\n"));
    assert!(!owns_lock(Some("42\nreplacement\n"), &lock_owner(42, 7)));
    assert!(!owns_lock(None, "owner"));
}

#[test]
fn concurrent_stale_reclaimers_allow_only_one_owner() {
    let mut file = LockFile {
        contents: Some("999999\nstale\n".to_string()),
        reclaiming: true,
        alive: false,
    };
    assert_eq!(
        acquire(&mut file, "second"),
        Err("could not serialize stale test lock inspection".to_string())
    );
    file.reclaiming = false;
    assert!(acquire(&mut file, "first").is_ok());
}

#[test]
fn other_lock_troubles_are_told() {
    let fails = |flow: LockFlow, event: LockEvent, message: &str| {
        match flow.acquire_runtime_lock(event, "x") {
            (LockFlow::Over, LockAction::Fail { message: told }) => assert_eq!(told, message),
            _ => panic!("expected a failure"),
        }
    };
    fails(LockFlow::Publishing, LockEvent::NotPublished, "could not create x lock");
    fails(LockFlow::Inspecting, LockEvent::OtherFile, "existing x lock is not a safe regular file");
    fails(LockFlow::Inspecting, LockEvent::NotInspected, "could not inspect existing x lock");
    fails(LockFlow::Reading, LockEvent::NotRead, "could not read existing x lock");
    fails(LockFlow::Removing, LockEvent::NotRemoved, "could not remove stale x lock");
    fails(LockFlow::Recovering, LockEvent::AlreadyExists, "could not acquire x lock after recovery");
}

#[test]
fn owners_are_written_and_read_back() {
    assert_eq!(lock_owner(42, 255), "42\n00000000000000ff\n");
    assert_eq!(lock_owner_pid(&lock_owner(42, u64::MAX)), Some(42));
    assert_eq!(lock_owner_pid("+5\r\nrest"), Some(5));
    assert_eq!(lock_owner_pid("-5\n"), None);
    assert_eq!(lock_owner_pid("0\n"), None);
    assert_eq!(lock_owner_pid("2147483648\n"), None);
    assert_eq!(lock_owner_pid(""), None);
    let owner = runtime_lock_owner(42);
    assert!(owner.starts_with("42\n"));
    assert_eq!(owner.len(), 20);
    assert_eq!(lock_draft_name("a.lock", 3, 9), ".a.lock.3.9.tmp");
    assert!(new_lock_draft_name("a.lock", 3).starts_with(".a.lock.3."));
    assert_eq!(reclaim_name("a.lock"), "a.lock.reclaim");
}

#[test]
fn processes_live_where_in_doubt() {
    assert!(process_is_alive(true, false));
    assert!(!process_is_alive(false, true));
    assert!(process_is_alive(false, false));
}

#[test]
fn a_told_address_is_kept() {
    let mut state = BotState::new("configured:25565");
    let mut result = ProviderStartResult {
        outcome: StartOutcome::StartRequested,
        provider_status: "Start requested".to_string(),
        minecraft_address: None,
        screenshot_path: None,
        detail_artifact_path: None,
    };
    state.after_provider(&Ok(result.clone()));
    assert_eq!(state.minecraft_address(), "configured:25565");
    result.minecraft_address = Some("play.example:1234".to_string());
    state.after_provider(&Ok(result));
    assert_eq!(state.minecraft_address(), "play.example:1234");
    let mut failure = provider_failure("ProviderStopping", "busy", None, ProviderMutation::Nothing);
    failure.minecraft_address = Some("other.example:99".to_string());
    state.after_provider(&Err(failure));
    assert_eq!(state.minecraft_address(), "other.example:99");
    assert_eq!(state.provider_operations(), 0);
}

#[test]
fn operation_guard_keeps_run_active_after_command_cancellation() {
    let mut state = BotState::new("localhost:25565");
    admitted(&mut state, "run-1");
    let lease = ActiveStartLease::new("run-1").operation_guard();

    let (lease, last) = state.release_lease(lease);
    assert!(!last);
    assert!(state.active_start_run().is_some());
    assert!(!state.is_idle());

    let (_, last) = state.release_lease(lease);
    assert!(last);
    assert!(state.active_start_run().is_none());
    assert!(marker_matches(Some("run-1\n"), "run-1"));
    assert!(state.end_provider_operation());
    assert!(state.is_idle());
}

#[test]
fn the_next_start_comes_after_the_first_is_forgotten() {
    let mut state = BotState::new("localhost:25565");
    admitted(&mut state, "run-1");
    assert!(matches!(
        state.try_begin_start_run(),
        AdmissionNext::Refused { error: StartAdmissionError::Busy(_), .. }
    ));
    state.clear_active_start("run-2");
    assert!(state.active_start_run().is_some());
    state.clear_active_start("run-1");
    admitted(&mut state, "run-2");
    state.clear_active_start("run-2");
    state.begin_shutdown();
    assert!(matches!(
        state.try_begin_start_run(),
        AdmissionNext::Refused { error: StartAdmissionError::ShuttingDown, .. }
    ));
}
