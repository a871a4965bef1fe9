use butler::aternos::blockers::{Sweep, SweepAction, SweepEvent};
use butler::aternos::dashboard::{
    dashboard_failure_detail, dashboard_open_action, dashboard_page_state, dashboard_state,
    dashboard_state_from_parts, dashboard_terminal_failure_hint, remember_first_error,
    DashboardOpenAction, DashboardPageState, DashboardState, ServerCardSelection,
};
use butler::aternos::errors::{
    apply_post_click_submission_metadata, artifact_capture_result_best_effort,
    artifact_warning_error_class, artifact_warning_message, browser_failure_message,
    browser_retry_warning, browser_setup_error_class, classify_browser_error,
    failure_screenshot_or_checkpoint, is_retryable_browser_failure, BrowserError, BrowserRetry,
    RetryNext,
};
use butler::aternos::flow::{
    classify_flow_failure, keeps_failure_artifacts, run_browser_start_once, setup_failure,
    BrowserFlowFailure, DashboardFlow, FlowAction, FlowEvent,
};
use butler::aternos::open::{OpenAction, OpenEvent, OpenFlow};
use butler::aternos::provider::BrowserAternosProvider;
use butler::config::ArtifactCapture;
use butler::environment::AternosConfig;
use butler::provider::{
    ProviderMutation, ProviderStartFailure, ProviderStartResult, StartOutcome,
};
use std::collections::VecDeque;

const CLOSED: &str = "Unable to make method calls because underlying connection is closed";
const TIMEOUT: &str = "The event waited for never came";

fn provider_success() -> ProviderStartResult {
    ProviderStartResult {
        outcome: StartOutcome::StartClicked,
        provider_status: "Starting".to_string(),
        minecraft_address: None,
        screenshot_path: None,
        detail_artifact_path: None,
    }
}

fn provider_failure(error_class: &str, message: &str) -> ProviderStartFailure {
    ProviderStartFailure {
        error_class: error_class.to_string(),
        message: message.to_string(),
        screenshot_path: None,
        detail_artifact_path: None,
        minecraft_address: None,
        uncertain_mutation: ProviderMutation::Nothing,
        retryable: false,
    }
}

fn error_chain(messages: &[&str]) -> BrowserError {
    BrowserError { chain: messages.iter().map(|message| message.to_string()).collect() }
}

fn run_with_retry(
    mut run: impl FnMut(bool) -> Result<ProviderStartResult, ProviderStartFailure>,
    max_attempts: usize,
    mut on_retry: impl FnMut(usize, &ProviderStartFailure),
) -> Result<ProviderStartResult, ProviderStartFailure> {
    let mut retry = BrowserRetry::begin(max_attempts);
    loop {
        match retry.after_attempt(run(retry.final_attempt())) {
            RetryNext::Again { retry: next, failed_attempt, failure } => {
                on_retry(failed_attempt, &failure);
                retry = next;
            }
            RetryNext::Done { end } => return end,
        }
    }
}

#[test]
fn artifact_capture_errors_are_best_effort() {
    let (path, warning) = artifact_capture_result_best_effort(
        Err(BrowserError::new("permission denied")),
        Some("butler_rs_best_effort"),
        "dashboard_after_start.png",
    );
    assert_eq!(path, None);
    assert_eq!(
        warning.as_deref(),
        Some("could not write dashboard_after_start.png for run butler_rs_best_effort; error_class ArtifactWarning")
    );
    let (path, warning) =
        artifact_capture_result_best_effort(Ok(Some("a.png".to_string())), None, "a.png");
    assert_eq!(path.as_deref(), Some("a.png"));
    assert_eq!(warning, None);
}

#[test]
fn dashboard_state_does_not_accept_unknown_hidden_start_button() {
    let unknown_hidden = dashboard_state_from_parts("unknown", false);
    assert!(!unknown_hidden.accepted);

    let offline_hidden = dashboard_state_from_parts("Offline", false);
    assert!(offline_hidden.accepted);

    let offline_visible = dashboard_state_from_parts("Offline", true);
    assert!(!offline_visible.accepted);
}

#[test]
fn dashboard_state_is_read_from_the_page_report() {
    let state = dashboard_state(r#"{"status":"Offline","visible":true}"#).unwrap();
    assert_eq!(state.status, "Offline");
    assert!(state.start_button_visible);
    assert!(!state.accepted);
    assert_eq!(dashboard_state("{}").unwrap().status, "unknown");
    assert!(dashboard_state("not json").is_none());
}

#[test]
fn dashboard_page_state_is_ready_when_dashboard_controls_exist() {
    assert!(DashboardPageState {
        has_start_button: true,
        start_button_visible: true,
        has_server_cards: true,
        ..DashboardPageState::default()
    }
    .dashboard_controls_ready());
    assert!(!DashboardPageState {
        has_start_button: true,
        start_button_visible: false,
        ..DashboardPageState::default()
    }
    .dashboard_controls_ready());
    assert!(DashboardPageState { has_status_label: true, ..DashboardPageState::default() }
        .dashboard_ready_for(None));
    assert!(!DashboardPageState {
        has_status_label: true,
        has_server_cards: true,
        server_card_count: 2,
        ..DashboardPageState::default()
    }
    .dashboard_controls_ready());
    assert!(!DashboardPageState::default().dashboard_controls_ready());
    assert!(!DashboardPageState {
        has_start_button: true,
        start_button_visible: true,
        has_dashboard_server_id: true,
        dashboard_server_id_matches: Some(false),
        ..DashboardPageState::default()
    }
    .dashboard_ready_for(Some("server-1")));
    assert!(DashboardPageState {
        has_start_button: true,
        start_button_visible: true,
        has_dashboard_server_id: true,
        dashboard_server_id_matches: Some(true),
        ..DashboardPageState::default()
    }
    .dashboard_ready_for(Some("server-1")));
}

#[test]
fn dashboard_open_action_selects_expected_next_step() {
    assert_eq!(
        dashboard_open_action(
            &DashboardPageState {
                has_start_button: true,
                start_button_visible: true,
                has_dashboard_server_id: true,
                dashboard_server_id_matches: Some(true),
                ..DashboardPageState::default()
            },
            Some("server-1"),
            false,
            false,
        ),
        DashboardOpenAction::Ready
    );
    assert_eq!(
        dashboard_open_action(
            &DashboardPageState { has_status_label: true, ..DashboardPageState::default() },
            None,
            false,
            false,
        ),
        DashboardOpenAction::Ready
    );
    assert_eq!(
        dashboard_open_action(
            &DashboardPageState {
                has_start_button: true,
                start_button_visible: true,
                has_dashboard_server_id: true,
                dashboard_server_id_matches: Some(false),
                ..DashboardPageState::default()
            },
            Some("server-1"),
            false,
            false,
        ),
        DashboardOpenAction::NavigateToServerPicker
    );
    assert_eq!(
        dashboard_open_action(
            &DashboardPageState {
                has_start_button: true,
                start_button_visible: true,
                has_dashboard_server_id: false,
                ..DashboardPageState::default()
            },
            Some("server-1"),
            false,
            false,
        ),
        DashboardOpenAction::Wait
    );
    assert_eq!(
        dashboard_open_action(
            &DashboardPageState {
                has_start_button: true,
                start_button_visible: true,
                has_dashboard_server_id: true,
                dashboard_server_id_matches: Some(false),
                ..DashboardPageState::default()
            },
            Some("server-1"),
            true,
            false,
        ),
        DashboardOpenAction::Fail("dashboard server id did not match configured SERVER_ID")
    );
    assert_eq!(
        dashboard_open_action(
            &DashboardPageState {
                has_server_cards: true,
                server_card_count: 2,
                has_target_server_card: Some(true),
                ..DashboardPageState::default()
            },
            Some("server-1"),
            false,
            false,
        ),
        DashboardOpenAction::ClickServerCard(ServerCardSelection::Configured)
    );
    assert_eq!(
        dashboard_open_action(
            &DashboardPageState {
                has_server_cards: true,
                server_card_count: 2,
                has_target_server_card: Some(false),
                ..DashboardPageState::default()
            },
            Some("server-1"),
            false,
            false,
        ),
        DashboardOpenAction::Wait
    );
    assert_eq!(
        dashboard_open_action(
            &DashboardPageState {
                has_server_cards: true,
                server_card_count: 2,
                has_target_server_card: Some(false),
                ..DashboardPageState::default()
            },
            Some("server-1"),
            true,
            false,
        ),
        DashboardOpenAction::Fail("configured SERVER_ID was not found on the server picker")
    );
    assert_eq!(
        dashboard_open_action(
            &DashboardPageState {
                has_server_cards: true,
                server_card_count: 1,
                ..DashboardPageState::default()
            },
            None,
            false,
            true,
        ),
        DashboardOpenAction::ClickServerCard(ServerCardSelection::Only)
    );
    assert_eq!(
        dashboard_open_action(
            &DashboardPageState {
                has_server_cards: true,
                server_card_count: 2,
                ..DashboardPageState::default()
            },
            None,
            false,
            true,
        ),
        DashboardOpenAction::NavigateToServer
    );
    assert_eq!(
        dashboard_open_action(
            &DashboardPageState {
                has_server_cards: true,
                server_card_count: 2,
                ..DashboardPageState::default()
            },
            None,
            true,
            true,
        ),
        DashboardOpenAction::Fail("multiple server cards; configure SERVER_ID")
    );
}

#[test]
fn dashboard_failure_detail_includes_page_context() {
    let detail = dashboard_failure_detail(
        Some(&DashboardPageState {
            url: "https://aternos.org/servers/".to_string(),
            title: "Servers | Aternos".to_string(),
            has_server_cards: true,
            server_card_count: 2,
            has_target_server_card: Some(true),
            ..DashboardPageState::default()
        }),
        Some("navigation failed"),
    );

    assert!(detail.contains("url=\"https://aternos.org/servers/\""));
    assert!(detail.contains("title=\"Servers | Aternos\""));
    assert!(detail.contains("has_server_cards=true"));
    assert!(detail.contains("server_cards=2"));
    assert!(detail.contains("target_card=true"));
    assert!(detail.contains("last_error=\"navigation failed\""));
}

#[test]
fn remember_first_error_preserves_navigation_failure() {
    let mut last_error = None;
    remember_first_error(&mut last_error, "navigation failed".to_string());
    remember_first_error(&mut last_error, "page inspection failed".to_string());

    assert_eq!(last_error.as_deref(), Some("navigation failed"));
}

#[test]
fn terminal_hint_is_given_for_an_unseen_page() {
    assert!(!dashboard_terminal_failure_hint(None, None).is_empty());
}

#[test]
fn browser_disconnect_text_is_retryable() {
    let failure = provider_failure("BrowserAutomation", CLOSED);

    assert!(is_retryable_browser_failure(&failure));
    assert_eq!(
        browser_setup_error_class(&failure.message, "BrowserTab"),
        "BrowserConnectionClosed"
    );
    assert_eq!(browser_setup_error_class("no chrome", "BrowserTab"), "BrowserTab");
}

#[test]
fn browser_error_classification_inspects_source_chain() {
    let error = error_chain(&[
        "DashboardUnavailable: could not open the Aternos dashboard",
        CLOSED,
    ]);

    assert_eq!(classify_browser_error(&error), "BrowserConnectionClosed");
    assert!(browser_failure_message(&error).contains("source: Unable to make method calls"));
}

#[test]
fn browser_event_timeout_is_classified_and_retryable_before_click() {
    let error = error_chain(&[TIMEOUT]);
    let failure = provider_failure("BrowserEventTimeout", TIMEOUT);

    assert_eq!(classify_browser_error(&error), "BrowserEventTimeout");
    assert!(is_retryable_browser_failure(&failure));
}

#[test]
fn browser_disconnect_retry_succeeds_on_second_attempt() {
    let mut attempts = VecDeque::new();
    attempts.push_back(Err(provider_failure("BrowserConnectionClosed", CLOSED)));
    attempts.push_back(Ok(provider_success()));
    let mut retry_warnings = 0;

    let result = run_with_retry(
        |_| attempts.pop_front().expect("attempt available"),
        2,
        |_, _| retry_warnings += 1,
    )
    .unwrap();

    assert_eq!(result.outcome, StartOutcome::StartClicked);
    assert_eq!(retry_warnings, 1);
    assert!(attempts.is_empty());
}

#[test]
fn browser_disconnect_retry_exhaustion_is_classified() {
    let mut attempts = VecDeque::new();
    attempts.push_back(Err(provider_failure("BrowserAutomation", CLOSED)));
    attempts.push_back(Err(provider_failure("BrowserAutomation", CLOSED)));
    let mut retry_warnings = 0;

    let failure = run_with_retry(
        |_| attempts.pop_front().expect("attempt available"),
        2,
        |_, _| retry_warnings += 1,
    )
    .unwrap_err();

    assert_eq!(failure.error_class, "BrowserConnectionClosed");
    assert!(failure.message.contains("after 2 attempts"));
    assert_eq!(retry_warnings, 1);
    assert!(attempts.is_empty());
}

#[test]
fn non_retryable_failures_do_not_retry() {
    for error_class in [
        "DashboardUnavailable",
        "StartNotAccepted",
        "ChallengeRequired",
        "BrowserConnectionClosedAfterStartClick",
    ] {
        let message = if error_class == "BrowserConnectionClosedAfterStartClick" {
            CLOSED
        } else {
            "not retryable"
        };
        let failure = provider_failure(error_class, message);
        let mut calls = 0;

        let result = run_with_retry(
            |_| {
                calls += 1;
                Err(failure.clone())
            },
            2,
            |_, _| panic!("unexpected retry for {error_class}"),
        )
        .unwrap_err();

        assert_eq!(result.error_class, error_class);
        assert_eq!(calls, 1);
    }
}

#[test]
fn retry_wrapper_marks_only_final_attempt_for_artifact_capture() {
    let mut final_attempts = Vec::new();

    let failure = run_with_retry(
        |final_attempt| {
            final_attempts.push(final_attempt);
            Err(provider_failure("BrowserConnectionClosed", CLOSED))
        },
        2,
        |_, _| {},
    )
    .unwrap_err();

    assert_eq!(failure.error_class, "BrowserConnectionClosed");
    assert_eq!(final_attempts, vec![false, true]);
}

#[test]
fn retry_wrapper_retries_event_timeout_before_click() {
    let mut attempts = VecDeque::new();
    attempts.push_back(Err(provider_failure("BrowserEventTimeout", TIMEOUT)));
    attempts.push_back(Ok(provider_success()));
    let mut retry_warnings = 0;

    let result = run_with_retry(
        |_| attempts.pop_front().expect("attempt available"),
        2,
        |_, _| retry_warnings += 1,
    )
    .unwrap();

    assert_eq!(result.outcome, StartOutcome::StartClicked);
    assert_eq!(retry_warnings, 1);
}

#[test]
fn post_click_ambiguous_failure_is_not_retryable() {
    let mut failure = provider_failure("BrowserEventTimeout", TIMEOUT);
    failure.uncertain_mutation = ProviderMutation::BrowserStart;

    assert!(!is_retryable_browser_failure(&failure));
}

#[test]
fn post_click_metadata_marks_ambiguous_failures() {
    let mut event_timeout = provider_failure("BrowserEventTimeout", TIMEOUT);
    apply_post_click_submission_metadata(&mut event_timeout, true);
    assert!(event_timeout.uncertain_mutation.may_have_started_server());
    assert_eq!(event_timeout.error_class, "BrowserEventTimeout");
    assert!(event_timeout.message.contains("start click may have been submitted"));

    let mut connection_closed = provider_failure("BrowserConnectionClosed", CLOSED);
    apply_post_click_submission_metadata(&mut connection_closed, true);
    assert!(connection_closed.uncertain_mutation.may_have_started_server());
    assert_eq!(connection_closed.error_class, "BrowserConnectionClosedAfterStartClick");
}

#[test]
fn clicked_attempts_are_not_retried_whatever_they_ran_into() {
    for message in [CLOSED, TIMEOUT, "StartNotAccepted: still offline"] {
        let failure = classify_flow_failure(&BrowserFlowFailure {
            error: error_chain(&[message]),
            start_clicked: true,
            checkpoint_screenshot_path: None,
        });
        assert!(!is_retryable_browser_failure(&failure));
        assert!(keeps_failure_artifacts(&failure, false));
    }
    let unclicked = classify_flow_failure(&BrowserFlowFailure {
        error: error_chain(&[CLOSED]),
        start_clicked: false,
        checkpoint_screenshot_path: None,
    });
    assert!(is_retryable_browser_failure(&unclicked));
    assert!(!keeps_failure_artifacts(&unclicked, false));
}

#[test]
fn checkpoint_screenshot_fills_missing_post_click_failure_capture() {
    let checkpoint = Some("dashboard_before_start.png".to_string());

    assert_eq!(failure_screenshot_or_checkpoint(None, true, checkpoint.clone()), checkpoint);
    assert_eq!(
        failure_screenshot_or_checkpoint(
            Some("failure.png".to_string()),
            true,
            Some("dashboard_before_start.png".to_string()),
        ),
        Some("failure.png".to_string())
    );
    assert_eq!(
        failure_screenshot_or_checkpoint(None, false, Some("checkpoint.png".to_string())),
        None
    );

    let mut failure = provider_failure("BrowserEventTimeout", TIMEOUT);
    failure.uncertain_mutation = ProviderMutation::BrowserStart;
    let told = run_browser_start_once(
        failure,
        None,
        Some("failure.html".to_string()),
        Some("before.png".to_string()),
    );
    assert_eq!(told.screenshot_path.as_deref(), Some("before.png"));
    assert_eq!(told.detail_artifact_path.as_deref(), Some("failure.html"));
}

#[test]
fn artifact_warning_distinguishes_browser_capture_from_write() {
    let browser_error =
        error_chain(&["BrowserCapture: could not capture screenshot failure.png: raw cdp detail"]);
    let write_error =
        error_chain(&["ArtifactWrite: could not write screenshot failure.png: permission denied"]);

    let browser_message = artifact_warning_message(Some("example"), "failure.png", &browser_error);
    assert!(browser_message.contains("could not capture failure.png from browser"));
    assert!(browser_message.contains("for run example"));
    assert!(browser_message.contains("error_class BrowserCapture"));
    assert!(!browser_message.contains("raw cdp detail"));

    let write_message = artifact_warning_message(Some("example"), "failure.png", &write_error);
    assert!(write_message.contains("could not write failure.png"));
    assert!(write_message.contains("for run example"));
    assert!(write_message.contains("error_class ArtifactWrite"));
    assert!(!write_message.contains("permission denied"));

    assert_eq!(artifact_warning_error_class(&error_chain(&["disk full"])), "ArtifactWarning");
}

#[test]
fn setup_failures_and_retry_warnings_are_worded() {
    let failure = setup_failure(CLOSED, "BrowserLaunch");
    assert_eq!(failure.error_class, "BrowserConnectionClosed");
    assert_eq!(failure.message, CLOSED);
    assert_eq!(
        browser_retry_warning(Some("abc123"), 1, &failure),
        "abc123 browser automation lost control on attempt 1; retrying; class BrowserConnectionClosed"
    );
    assert!(browser_retry_warning(None, 2, &failure).starts_with("run browser automation"));
}

#[test]
fn blockers_are_swept_until_nothing_is_dismissed() {
    let (mut sweep, mut action) = Sweep::begin();
    let mut steps = 0;
    loop {
        if let SweepAction::Finish { end } = action {
            assert!(end.is_ok());
            break;
        }
        steps += 1;
        assert!(steps < 100);
        let (next, asked) = sweep.dismiss_page_blockers(SweepEvent::Done { found: Ok(false) });
        sweep = next;
        action = asked;
    }
}

#[test]
fn dashboard_is_opened_where_the_server_is_shown() {
    let (flow, action) = OpenFlow::begin(Some("server-1".to_string()));
    assert!(matches!(action, OpenAction::ClearPage));
    let (flow, action) = flow.open_server_dashboard(OpenEvent::Cleared { result: Ok(()) }, 0);
    assert!(matches!(action, OpenAction::Look));
    let page = DashboardPageState {
        has_start_button: true,
        start_button_visible: true,
        has_dashboard_server_id: true,
        dashboard_server_id_matches: Some(true),
        ..DashboardPageState::default()
    };
    let (_, action) = flow.open_server_dashboard(OpenEvent::Seen { page: Ok(page) }, 1);
    assert!(matches!(action, OpenAction::Finish { end: Ok(()) }));
}

#[test]
fn dashboard_flow_clicks_captures_and_succeeds() {
    let (mut flow, mut action) = DashboardFlow::begin(ArtifactCapture::Full);
    let mut clicks = 0;
    let mut captures = Vec::new();
    let mut steps = 0;
    let end = loop {
        steps += 1;
        assert!(steps < 300);
        let event = match action {
            FlowAction::Finish { end } => break end,
            FlowAction::ReadState => FlowEvent::State {
                result: Ok(dashboard_state_from_parts("Offline", clicks == 0)),
            },
            FlowAction::FindStart => FlowEvent::Found { button: true },
            FlowAction::ClickStart => {
                clicks += 1;
                FlowEvent::Done { result: Ok(()) }
            }
            FlowAction::LookForAd => FlowEvent::Ad { result: Ok(false) },
            FlowAction::Take { wanted, .. } => {
                captures.push(wanted);
                FlowEvent::Taken { path: Some(format!("{}.png", captures.len())) }
            }
            _ => FlowEvent::Done { result: Ok(()) },
        };
        let (next, asked) = flow.run_dashboard_flow(event);
        flow = next;
        action = asked;
    };
    let result = end.unwrap();
    assert_eq!(clicks, 1);
    assert_eq!(result.outcome, StartOutcome::StartClicked);
    assert_eq!(captures, vec![true, true, true]);
    assert_eq!(result.screenshot_path.as_deref(), Some("2.png"));
    assert_eq!(result.detail_artifact_path.as_deref(), Some("3.png"));
}

#[test]
fn dashboard_flow_reports_a_start_that_is_not_accepted() {
    let (mut flow, mut action) = DashboardFlow::begin(ArtifactCapture::Off);
    let mut clicks = 0;
    let mut steps = 0;
    let end = loop {
        steps += 1;
        assert!(steps < 300);
        let event = match action {
            FlowAction::Finish { end } => break end,
            FlowAction::ReadState => FlowEvent::State {
                result: Ok(DashboardState {
                    status: "Offline".to_string(),
                    start_button_visible: true,
                    accepted: false,
                }),
            },
            FlowAction::FindStart => FlowEvent::Found { button: true },
            FlowAction::ClickStart => {
                clicks += 1;
                FlowEvent::Done { result: Ok(()) }
            }
            FlowAction::LookForAd => FlowEvent::Ad { result: Ok(false) },
            FlowAction::Take { .. } => FlowEvent::Taken { path: None },
            _ => FlowEvent::Done { result: Ok(()) },
        };
        let (next, asked) = flow.run_dashboard_flow(event);
        flow = next;
        action = asked;
    };
    let failure = end.unwrap_err();
    assert_eq!(clicks, 5);
    assert!(failure.start_clicked);
    assert_eq!(
        failure.error.to_string(),
        "StartNotAccepted: dashboard still appears offline after clicking start"
    );
}

#[test]
fn page_state_is_read_from_its_report() {
    let page = dashboard_page_state(r#"{"url":"https://aternos.org/server/","title":"Server"}"#)
        .unwrap();
    assert_eq!(page.url, "https://aternos.org/server/");
    assert_eq!(page.title, "Server");
    assert!(!page.has_start_button);
    assert!(dashboard_page_state("nothing").is_none());
}

#[test]
fn provider_is_named() {
    let provider = BrowserAternosProvider::new(
        AternosConfig {
            user: "user".to_string(),
            password: "password".to_string(),
            server_id: None,
            headless: true,
            chrome_path: None,
        },
        "artifacts/runs".to_string(),
        ArtifactCapture::Screenshots,
    );
    assert_eq!(provider.name(), "aternos");
    assert_eq!(provider.artifact_dir, "artifacts/runs");
}

#[test]
fn a_page_that_stays_blocked_ends_a_sweep() {
    let (mut sweep, mut action) = Sweep::begin();
    let mut actions = 0;
    let end = loop {
        if let SweepAction::Finish { end } = action {
            break end;
        }
        actions += 1;
        assert!(actions <= 21);
        let (next, asked) = sweep.dismiss_page_blockers(SweepEvent::Done { found: Ok(true) });
        sweep = next;
        action = asked;
    };
    assert!(end.is_ok());
}

#[test]
fn an_attempt_that_changes_nothing_ends() {
    let (mut flow, mut action) = DashboardFlow::begin(ArtifactCapture::Full);
    let mut actions = 0;
    let mut clicks = 0;
    let end = loop {
        let event = match action {
            FlowAction::Finish { end } => break end,
            FlowAction::ReadState => FlowEvent::State {
                result: Ok(dashboard_state_from_parts("Offline", true)),
            },
            FlowAction::FindStart => FlowEvent::Found { button: true },
            FlowAction::LookForAd => FlowEvent::Ad { result: Ok(false) },
            FlowAction::Take { .. } => FlowEvent::Taken { path: None },
            FlowAction::ClickStart => {
                clicks += 1;
                FlowEvent::Done { result: Ok(()) }
            }
            _ => FlowEvent::Done { result: Ok(()) },
        };
        actions += 1;
        assert!(actions <= 113);
        let (next, asked) = flow.run_dashboard_flow(event);
        flow = next;
        action = asked;
    };
    let failure = end.unwrap_err();
    assert_eq!(clicks, 5);
    assert!(failure.start_clicked);
    assert_eq!(classify_browser_error(&failure.error), "StartNotAccepted");
}

#[test]
fn a_dashboard_that_never_loads_is_given_up() {
    let (mut flow, mut action) = OpenFlow::begin(Some("abc".to_string()));
    let mut now: u64 = 0;
    let mut waited: u64 = 0;
    let end = loop {
        let event = match action {
            OpenAction::Finish { end } => break end,
            OpenAction::ClearPage => OpenEvent::Cleared { result: Ok(()) },
            OpenAction::Look => OpenEvent::Seen {
                page: Ok(DashboardPageState {
                    has_status_label: true,
                    ..DashboardPageState::default()
                }),
            },
            OpenAction::ClickCard { .. } => OpenEvent::Clicked { hit: Ok(true) },
            OpenAction::Navigate { .. } => OpenEvent::Navigated { error: None },
            OpenAction::Delay => OpenEvent::Rested,
            OpenAction::Pause { pause_ms } => {
                now += pause_ms;
                waited += pause_ms;
                OpenEvent::Rested
            }
        };
        assert!(waited <= 60_000);
        let (next, asked) = flow.open_server_dashboard(event, now);
        flow = next;
        action = asked;
    };
    assert_eq!(
        end.unwrap_err().to_string().split(';').next(),
        Some("DashboardUnavailable: dashboard server id was not available")
    );
}

#[test]
fn successes_report_the_state_that_was_accepted() {
    let (mut flow, mut action) = DashboardFlow::begin(ArtifactCapture::Off);
    let mut clicks = 0;
    let mut steps = 0;
    let end = loop {
        steps += 1;
        assert!(steps < 300);
        let event = match action {
            FlowAction::Finish { end } => break end,
            FlowAction::ReadState => FlowEvent::State {
                result: Ok(if clicks == 0 {
                    dashboard_state_from_parts("Offline", true)
                } else {
                    dashboard_state_from_parts("Preparing ...", false)
                }),
            },
            FlowAction::FindStart => FlowEvent::Found { button: true },
            FlowAction::ClickStart => {
                clicks += 1;
                FlowEvent::Done { result: Ok(()) }
            }
            FlowAction::LookForAd => FlowEvent::Ad { result: Ok(false) },
            FlowAction::Take { .. } => FlowEvent::Taken { path: None },
            _ => FlowEvent::Done { result: Ok(()) },
        };
        let (next, asked) = flow.run_dashboard_flow(event);
        flow = next;
        action = asked;
    };
    assert!(dashboard_state_from_parts("Preparing ...", false).accepted);
    let result = end.unwrap();
    assert_eq!(clicks, 1);
    assert_eq!(result.provider_status, "Preparing ...");
}
