use butler::json::Json;
use butler::run_history::artifacts::{
    has_run_id_shape, is_butler_run_artifact_dir, legacy_run_artifact_files, marker_failure,
    probe_name,
    prune_run_artifact_dir_paths, prune_run_artifact_dirs, verify_artifact_dir_writable,
    ArtifactEntry, ProbeNext, ProbeOutcome,
};
use butler::run_history::events::{
    backup_event_path, classify_line, event_json_appears_unredacted, inspect_event_file,
    maintain_event_file_if_needed, EventFile, EventFileInspection, EventFileMaintenance, LineKind,
};
use butler::run_history::{
    RunContext, RunEvent, RunQueryScope, RunStep, RunStore, RunSummary,
};
use serde_json::{Map as Members, Value};

fn sample_context() -> RunContext {
    RunContext {
        run_id: "abc123".to_string(),
        command: "server.start".to_string(),
        provider: "aternos".to_string(),
        guild_id: Some("guild-1".to_string()),
        guild_name: "Guild".to_string(),
        channel_id: "channel-1".to_string(),
        channel_name: Some("ops".to_string()),
        user_id: "user-1".to_string(),
        user_name: "alice".to_string(),
    }
}

fn sample_event() -> RunEvent {
    RunEvent {
        context: sample_context(),
        step: RunStep {
            at_ms: 1,
            step: "aternos_dashboard".to_string(),
            status: "failed".to_string(),
            detail: Some("detail".to_string()),
            screenshot_path: Some("artifacts/runs/abc123/failure.png".to_string()),
            error_class: Some("StartNotAccepted".to_string()),
        },
    }
}

fn sample_summary(run_id: &str, guild_id: Option<&str>, failed: bool) -> RunSummary {
    let mut context = sample_context();
    context.run_id = run_id.to_string();
    context.guild_id = guild_id.map(str::to_string);
    context.guild_name = guild_id.unwrap_or("DM").to_string();
    RunSummary {
        context,
        started_at_ms: 1,
        finished_at_ms: 2,
        duration_ms: 1,
        outcome: if failed { "Failed" } else { "StartClicked" }.to_string(),
        final_provider_status: None,
        final_minecraft_status: None,
        screenshot_path: None,
        error_class: if failed { Some("StartNotAccepted".to_string()) } else { None },
        steps: Vec::new(),
    }
}

fn text_or_null(value: &Option<String>) -> Value {
    match value {
        Some(value) => Value::String(value.clone()),
        None => Value::Null,
    }
}

fn event_line(event: &RunEvent) -> String {
    let mut context = Members::new();
    context.insert("run_id".to_string(), Value::String(event.context.run_id.clone()));
    context.insert("command".to_string(), Value::String(event.context.command.clone()));
    context.insert("guild_id".to_string(), text_or_null(&event.context.guild_id));
    context.insert("guild_name".to_string(), Value::String(event.context.guild_name.clone()));
    context.insert("channel_id".to_string(), Value::String(event.context.channel_id.clone()));
    context.insert("channel_name".to_string(), text_or_null(&event.context.channel_name));
    context.insert("user_id".to_string(), Value::String(event.context.user_id.clone()));
    context.insert("user_name".to_string(), Value::String(event.context.user_name.clone()));
    let mut line = Members::new();
    line.insert("context".to_string(), Value::Object(context));
    Value::Object(line).to_string()
}

fn file(lines: Vec<String>) -> Option<EventFile> {
    Some(EventFile {
        lines: Some(lines.into_iter().map(Some).collect()),
        unredacted_backup_taken: false,
        corrupt_backup_taken: false,
    })
}

#[test]
fn artifact_writable_probe_creates_missing_dir_and_cleans_up() {
    let name = probe_name(7, 123, 0);
    assert_eq!(name, ".butler-write-probe-7-123-0");
    assert_eq!(
        verify_artifact_dir_writable(ProbeOutcome::Removed, 0, "dir", &name),
        ProbeNext::Writable
    );
    assert_eq!(
        verify_artifact_dir_writable(ProbeOutcome::NameTaken, 14, "dir", &name),
        ProbeNext::Try { attempt: 15 }
    );
    assert_eq!(
        verify_artifact_dir_writable(ProbeOutcome::NameTaken, 15, "dir", &name),
        ProbeNext::Fail {
            message: "ArtifactWrite: could not create unique artifact probe in dir".to_string()
        }
    );
    for (outcome, message) in [
        (ProbeOutcome::NoDirectory, "ArtifactWrite: could not create artifact dir dir"),
        (ProbeOutcome::CouldNotCreate, "ArtifactWrite: could not create artifact probe in dir"),
        (ProbeOutcome::CouldNotWrite, "ArtifactWrite: could not write artifact probe in dir"),
        (ProbeOutcome::CouldNotRemove, "ArtifactWrite: could not remove artifact probe probe"),
    ] {
        assert_eq!(
            verify_artifact_dir_writable(outcome, 0, "dir", "probe"),
            ProbeNext::Fail { message: message.to_string() }
        );
    }
}

#[test]
fn writes_redacted_jsonl_events_by_default() {
    let store = RunStore::new(10, true, true);
    let event = store.append_event(&sample_event()).unwrap();
    assert_eq!(event.context.run_id, "abc123");
    assert_eq!(event.context.guild_id, None);
    assert_eq!(event.context.guild_name, "redacted");
    assert_eq!(event.context.channel_id, "redacted");
    assert_eq!(event.context.channel_name, None);
    assert_eq!(event.context.user_id, "redacted");
    assert_eq!(event.context.user_name, "redacted");
    assert_eq!(event.step.step, "aternos_dashboard");
}

#[test]
fn writes_full_jsonl_when_redaction_is_disabled() {
    let store = RunStore::new(10, true, false);
    let event = store.append_event(&sample_event()).unwrap();
    assert_eq!(event.context.guild_id.as_deref(), Some("guild-1"));
    assert_eq!(event.context.guild_name, "Guild");
    assert_eq!(event.context.channel_id, "channel-1");
    assert_eq!(event.context.channel_name.as_deref(), Some("ops"));
    assert_eq!(event.context.user_id, "user-1");
    assert_eq!(event.context.user_name, "alice");
}

#[test]
fn persistence_disabled_does_not_create_event_file() {
    let store = RunStore::new(10, false, true);
    assert!(store.append_event(&sample_event()).is_none());
}

#[test]
fn rotates_unredacted_event_file_once() {
    let maintenance =
        maintain_event_file_if_needed(&file(vec![event_line(&sample_event())]), 5).unwrap();
    assert_eq!(
        maintenance,
        EventFileMaintenance::RotatedUnredacted("events.unredacted.backup.jsonl".to_string())
    );
    assert!(maintain_event_file_if_needed(
        &file(vec![event_line(&sample_event().redacted())]),
        5
    )
    .is_none());
    assert!(maintain_event_file_if_needed(&None, 5).is_none());
}

#[test]
fn rotates_when_unredacted_event_appears_after_many_redacted_events() {
    let mut lines = vec![event_line(&sample_event().redacted()); 25];
    lines.push(event_line(&sample_event()));
    assert!(matches!(
        maintain_event_file_if_needed(&file(lines), 5),
        Some(EventFileMaintenance::RotatedUnredacted(_))
    ));
}

#[test]
fn quarantines_corrupt_event_file() {
    let lines = vec![event_line(&sample_event().redacted()), "not-json".to_string()];
    assert_eq!(
        maintain_event_file_if_needed(&file(lines), 5),
        Some(EventFileMaintenance::QuarantinedCorrupt("events.corrupt.backup.jsonl".to_string()))
    );
}

#[test]
fn event_backup_name_collision_uses_timestamped_name() {
    let maintenance = maintain_event_file_if_needed(
        &Some(EventFile {
            lines: Some(vec![Some(event_line(&sample_event()))]),
            unredacted_backup_taken: true,
            corrupt_backup_taken: false,
        }),
        1234,
    );
    assert_eq!(
        maintenance,
        Some(EventFileMaintenance::RotatedUnredacted(
            "events.unredacted.backup.1234.jsonl".to_string()
        ))
    );
    assert_eq!(backup_event_path("corrupt", false, 1), "events.corrupt.backup.jsonl");
}

#[test]
fn lines_are_classified() {
    assert_eq!(classify_line(&None), LineKind::Unreadable);
    assert_eq!(classify_line(&Some("  ".to_string())), LineKind::Harmless);
    assert_eq!(classify_line(&Some("{}".to_string())), LineKind::Damaged);
    assert_eq!(
        classify_line(&Some(event_line(&sample_event().redacted()))),
        LineKind::Harmless
    );
    assert_eq!(inspect_event_file(&None), EventFileInspection::Corrupt);
    assert_eq!(
        inspect_event_file(&Some(vec![None, Some(event_line(&sample_event()))])),
        EventFileInspection::Corrupt
    );
    let event = Json::parse(event_line(&sample_event()).as_bytes()).unwrap();
    assert_eq!(event_json_appears_unredacted(&event), Some(true));
}

#[test]
fn run_query_scope_limits_history_by_guild() {
    let mut store = RunStore::new(10, true, true);
    store.push(sample_summary("guild2", Some("guild-2"), true));
    store.push(sample_summary("dmrun1", None, true));
    store.push(sample_summary("guild1", Some("guild-1"), true));

    let owner_runs = store.recent_scoped(10, &RunQueryScope::All);
    assert_eq!(owner_runs.len(), 3);

    let guild_scope = RunQueryScope::Guild("guild-1".to_string());
    let guild_runs = store.recent_scoped(10, &guild_scope);
    assert_eq!(guild_runs.len(), 1);
    assert_eq!(guild_runs[0].context.run_id, "guild1");
    assert!(store.find_scoped("guild2", &guild_scope).is_none());
    assert!(store.find_scoped("dmrun1", &guild_scope).is_none());
    assert_eq!(store.last_error_scoped(&guild_scope).unwrap().context.run_id, "guild1");
}

#[test]
fn newest_runs_come_first_and_the_oldest_are_forgotten() {
    let mut store = RunStore::new(2, true, true);
    for run_id in ["one", "two", "three"] {
        store.push(sample_summary(run_id, None, false));
    }
    let runs = store.recent_scoped(10, &RunQueryScope::All);
    let ids: Vec<&str> = runs.iter().map(|run| run.context.run_id.as_str()).collect();
    assert_eq!(ids, vec!["three", "two"]);
    assert_eq!(store.recent_scoped(1, &RunQueryScope::All).len(), 1);
    assert!(store.last_error_scoped(&RunQueryScope::All).is_none());

    let mut nothing = RunStore::new(0, true, true);
    nothing.push(sample_summary("one", None, false));
    assert!(nothing.recent_scoped(10, &RunQueryScope::All).is_empty());
}

#[test]
fn prunes_marked_run_directories_deterministically() {
    let removed = prune_run_artifact_dir_paths(
        &vec![
            (1_000_000_000, b"oldrun".to_vec()),
            (2_000_000_000, b"midrun".to_vec()),
            (3_000_000_000, b"newrun".to_vec()),
        ],
        2,
    );
    assert_eq!(removed, vec![0]);
}

#[test]
fn equally_old_directories_are_pruned_by_name() {
    let dirs = vec![(5, b"b".to_vec()), (5, b"a".to_vec()), (5, b"ba".to_vec())];
    assert_eq!(prune_run_artifact_dir_paths(&dirs, 1), vec![0, 1]);
    assert_eq!(prune_run_artifact_dir_paths(&dirs, 0), vec![2, 0, 1]);
    assert!(prune_run_artifact_dir_paths(&dirs, 3).is_empty());
}

fn entry(name: &str) -> ArtifactEntry {
    ArtifactEntry {
        is_dir: true,
        is_symlink: false,
        has_marker: false,
        has_legacy_file: false,
        name: Some(name.to_string()),
        name_bytes: name.as_bytes().to_vec(),
        modified_ns: 0,
    }
}

#[test]
fn pruning_skips_unknown_dirs_and_keeps_event_files() {
    let entries = vec![
        ArtifactEntry { is_dir: false, ..entry("events.jsonl") },
        entry("manual"),
        ArtifactEntry { has_marker: true, ..entry("marked") },
        ArtifactEntry { has_legacy_file: true, ..entry("abc123") },
        ArtifactEntry { has_legacy_file: true, ..entry("photos") },
        ArtifactEntry { has_legacy_file: true, ..entry("Photos") },
        ArtifactEntry { is_dir: false, ..entry("events.unredacted.backup.jsonl") },
    ];
    assert_eq!(prune_run_artifact_dirs(&entries, 0), vec![4, 2, 3]);
    assert!(legacy_run_artifact_files().contains(&"failure.png".to_string()));
    assert!(has_run_id_shape("abc123"));
    assert!(!has_run_id_shape("abc12"));
    assert!(!has_run_id_shape("abc12é"));
}

#[test]
fn pruning_skips_symlinks() {
    let entries = vec![
        ArtifactEntry { has_marker: true, ..entry("target") },
        ArtifactEntry { has_marker: true, is_symlink: true, ..entry("link01") },
    ];
    assert_eq!(prune_run_artifact_dirs(&entries, 0), vec![0]);
    assert!(!is_butler_run_artifact_dir(&entries[1]));
}

#[test]
fn unmarked_directories_are_reported() {
    assert_eq!(
        marker_failure("runs/abc123"),
        "ArtifactWrite: could not write marker in runs/abc123"
    );
}
