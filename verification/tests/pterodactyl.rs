use butler::provider::{
    provider_failure, ProviderMutation, ProviderProgress, ProviderProgressStage,
    ProviderStartFailure, ProviderStartResult, StartOutcome,
};
use butler::pterodactyl::clearance::{
    after_clearance_attempt, cached_clearance, clearance_failure_is_retryable,
    cookie_domain_matches, parse_clearance, refresh_clearance_once, Clearance, ClearanceStep,
    FlareSolverrCookie, FlareSolverrResponse, FlareSolverrSolution, SolverReply,
};
use butler::pterodactyl::panel::{
    state_artifact_warning, PanelAction, PanelEvent, PostReply, StateArtifact,
};
use butler::pterodactyl::requests::{
    after_first_read, after_second_read, api_url, authorization, fetch_details, fetch_resources,
    fetch_sleep_status, solver_url, ReadNext, ReadReply, POWER_ENDPOINT, POWER_REQUEST,
    WAKE_ENDPOINT,
};
use butler::pterodactyl::start::StartFlow;
use butler::pterodactyl::{
    action_for_server_details, action_for_state, allocation_status_detail,
    allocation_status_failure, announces_too_much, body_error, classify_api_response,
    is_cloudflare_challenge, minecraft_connection, sleep_status_allocation_ready,
    sleep_status_confirms_wake, take_chunk, valid_server_reference, ApiError, LimitedBodyError,
    PlaySleepStatus, PterodactylResources, PterodactylServer, ServerDetailsAction, StateAction,
};
use serde_json::Value;
use std::collections::VecDeque;

const UUID: &str = "34634dd7-e564-480e-a3a7-84baf53c9328";
const NOW: u64 = 1_700_000_000;

fn flaresolverr_response(domain: &str, cookie: &str) -> FlareSolverrResponse {
    FlareSolverrResponse {
        status: "ok".to_string(),
        solution: Some(FlareSolverrSolution {
            status: 200,
            user_agent: "Mozilla/5.0 test".to_string(),
            cookies: vec![FlareSolverrCookie {
                name: "cf_clearance".to_string(),
                value: cookie.to_string(),
                domain: Some(domain.to_string()),
                expires: Some(NOW + 3600),
            }],
        }),
    }
}

fn server_details(is_limbo: bool, is_suspended: bool) -> PterodactylServer {
    PterodactylServer { uuid: UUID.to_string(), is_suspended, is_limbo, status: None }
}

fn text_at(value: &Value, name: &str) -> Option<String> {
    value.get(name).and_then(Value::as_str).map(str::to_string)
}

fn bool_at(value: &Value, name: &str) -> bool {
    value.get(name).and_then(Value::as_bool).unwrap_or(false)
}

fn parsed(body: &str) -> Option<Value> {
    serde_json::from_str::<Value>(body).ok()
}

fn details_of(body: &str) -> Option<PterodactylServer> {
    let value = parsed(body)?;
    let attributes = value.get("attributes")?;
    Some(PterodactylServer {
        uuid: text_at(attributes, "uuid")?,
        is_suspended: bool_at(attributes, "is_suspended"),
        is_limbo: bool_at(attributes, "is_limbo"),
        status: text_at(attributes, "status"),
    })
}

fn resources_of(body: &str) -> Option<PterodactylResources> {
    let value = parsed(body)?;
    let attributes = value.get("attributes")?;
    Some(PterodactylResources {
        current_state: text_at(attributes, "current_state")?,
        is_suspended: bool_at(attributes, "is_suspended"),
    })
}

fn sleep_status(body: &str) -> Option<PlaySleepStatus> {
    let value = parsed(body)?;
    Some(PlaySleepStatus {
        phase: text_at(&value, "phase").or(text_at(&value, "status"))?,
        connection: text_at(&value, "connection"),
        position: value.get("position").and_then(Value::as_u64),
        total: value.get("total").and_then(Value::as_u64),
        estimated_minutes: value.get("estimated_minutes").and_then(Value::as_u64),
        blocked: value.get("blocked").and_then(Value::as_bool),
        enabled: value.get("enabled").and_then(Value::as_bool),
    })
}

type Exchange = (&'static str, u16, &'static str);

struct Panel {
    exchanges: VecDeque<Exchange>,
    saved: Vec<StateArtifact>,
    progress: Vec<ProviderProgress>,
}

impl Panel {
    fn answer(&mut self, method: &str, reference: &str, endpoint: Option<&str>) -> (u16, &'static str) {
        let (expected, status, body) = self.exchanges.pop_front().expect("unexpected request");
        let url = api_url("https://panel.example/", reference, endpoint).unwrap();
        assert_eq!(format!("{method} {}", &url["https://panel.example".len()..]), expected);
        (status, body)
    }

    fn read<V>(
        &mut self,
        reference: &str,
        endpoint: Option<&str>,
        decode: fn(&str) -> Option<V>,
        fetch: fn(ReadReply<V>) -> Result<V, ApiError>,
    ) -> Result<V, ProviderStartFailure> {
        let (status, body) = self.answer("GET", reference, endpoint);
        let reply = ReadReply::Answered {
            status,
            cf_mitigated: None,
            body: body.as_bytes().to_vec(),
            parsed: decode(body),
        };
        match after_first_read(fetch(reply)) {
            ReadNext::Refresh => panic!("no challenge expected"),
            ReadNext::Done { end } => end,
        }
    }

    fn post(&mut self, reference: &str, endpoint: &str) -> PostReply {
        let (status, body) = self.answer("POST", reference, Some(endpoint));
        PostReply::Answered { status, cf_mitigated: None, body: body.as_bytes().to_vec() }
    }
}

fn run(
    exchanges: &[Exchange],
    power_enabled: bool,
    wait_ms: u64,
) -> (Result<ProviderStartResult, ProviderStartFailure>, Panel) {
    let mut panel = Panel {
        exchanges: exchanges.iter().copied().collect(),
        saved: Vec::new(),
        progress: Vec::new(),
    };
    let mut now: u64 = 0;
    let (mut flow, mut step) = StartFlow::begin(power_enabled, wait_ms);
    loop {
        if let Some(report) = step.report {
            panel.progress.push(report);
        }
        let event = match step.action {
            PanelAction::Finish { end } => {
                assert!(panel.exchanges.is_empty());
                return (end, panel);
            }
            PanelAction::ReadDetails => PanelEvent::Details {
                reply: panel.read("34634dd7", None, details_of, fetch_details),
            },
            PanelAction::ReadResources { .. } => PanelEvent::Resources {
                reply: panel.read("34634dd7", Some("resources"), resources_of, fetch_resources),
            },
            PanelAction::ReadSleepStatus { server_uuid, .. } => PanelEvent::SleepStatus {
                reply: panel.read(
                    &server_uuid,
                    Some("sleep-status"),
                    sleep_status,
                    fetch_sleep_status,
                ),
            },
            PanelAction::PostWake { server_uuid } => {
                PanelEvent::Posted { reply: panel.post(&server_uuid, "wake") }
            }
            PanelAction::PostPower => PanelEvent::Posted { reply: panel.post("34634dd7", "power") },
            PanelAction::Pause { pause_ms } => {
                now += pause_ms;
                PanelEvent::Paused
            }
            PanelAction::SaveState { artifact } => {
                panel.saved.push(artifact);
                PanelEvent::Saved { path: Some("state.json".to_string()) }
            }
        };
        let (next, asked) = flow.start_inner(event, now);
        flow = next;
        step = asked;
    }
}

const DETAILS: &str = "GET /api/client/servers/34634dd7";
const SLEEP: &str =
    "GET /api/client/servers/34634dd7-e564-480e-a3a7-84baf53c9328/sleep-status";
const WAKE: &str = "POST /api/client/servers/34634dd7-e564-480e-a3a7-84baf53c9328/wake";
const RESOURCES: &str = "GET /api/client/servers/34634dd7/resources";
const POWER: &str = "POST /api/client/servers/34634dd7/power";

const LIMBO_SUSPENDED: &str = r#"{"attributes":{"uuid":"34634dd7-e564-480e-a3a7-84baf53c9328","is_suspended":true,"is_limbo":true,"status":"suspended"}}"#;
const LIMBO: &str = r#"{"attributes":{"uuid":"34634dd7-e564-480e-a3a7-84baf53c9328","is_suspended":false,"is_limbo":true,"status":null}}"#;
const PLAIN: &str = r#"{"attributes":{"uuid":"34634dd7-e564-480e-a3a7-84baf53c9328","is_suspended":false,"is_limbo":false,"status":"offline"}}"#;
const OFFLINE: &str = r#"{"attributes":{"current_state":"offline","is_suspended":false}}"#;
const ACTIVE: &str = r#"{"phase":"active","connection":"server.example"}"#;

#[test]
fn limbo_server_uses_full_uuid_wake_endpoint_once() {
    let (end, _) = run(
        &[
            (DETAILS, 200, LIMBO_SUSPENDED),
            (SLEEP, 200, r#"{"phase":"asleep","connection":null}"#),
            (WAKE, 204, ""),
            (SLEEP, 200, ACTIVE),
            (RESOURCES, 200, OFFLINE),
            (POWER, 204, ""),
        ],
        true,
        720_000,
    );
    let result = end.unwrap();
    assert_eq!(result.outcome, StartOutcome::StartRequested);
    assert_eq!(result.provider_status, "Start requested");
}

#[test]
fn active_limbo_allocation_skips_wake_and_starts_server() {
    let (end, panel) = run(
        &[
            (DETAILS, 200, LIMBO),
            (SLEEP, 200, ACTIVE),
            (RESOURCES, 200, OFFLINE),
            (POWER, 204, ""),
        ],
        true,
        720_000,
    );
    let result = end.unwrap();
    assert_eq!(result.outcome, StartOutcome::StartRequested);
    assert_eq!(result.minecraft_address.as_deref(), Some("server.example"));
    assert!(result.detail_artifact_path.is_some());
    let last = panel.saved.last().unwrap();
    assert_eq!(last.workflow_stage, "power_start");
    assert_eq!(last.phase.as_deref(), Some("active"));
    assert_eq!(last.connection.as_deref(), Some("server.example"));
    assert!(last.power_requested);
}

#[test]
fn queued_limbo_allocation_waits_without_replaying_wake() {
    let (end, _) = run(
        &[
            (DETAILS, 200, LIMBO),
            (SLEEP, 200, r#"{"phase":"queued","connection":null}"#),
            (SLEEP, 200, ACTIVE),
            (RESOURCES, 200, OFFLINE),
            (POWER, 204, ""),
        ],
        true,
        720_000,
    );
    assert_eq!(end.unwrap().outcome, StartOutcome::StartRequested);
}

#[test]
fn delayed_allocation_with_many_polls_completes_before_one_power_request() {
    let mut exchanges: Vec<Exchange> = vec![
        (DETAILS, 200, LIMBO_SUSPENDED),
        (SLEEP, 200, r#"{"phase":"asleep","connection":null,"enabled":true}"#),
        (WAKE, 204, ""),
    ];
    for _ in 0..64 {
        exchanges.push((
            SLEEP,
            200,
            r#"{"phase":"waking","connection":null,"position":1,"total":8,"estimated_minutes":6,"blocked":false,"enabled":true}"#,
        ));
    }
    exchanges.extend([
        (SLEEP, 200, r#"{"phase":"active","connection":"server.example","enabled":true}"#),
        (RESOURCES, 200, OFFLINE),
        (POWER, 204, ""),
    ]);
    let (end, panel) = run(&exchanges, true, 720_000);
    assert_eq!(end.unwrap().outcome, StartOutcome::StartRequested);
    assert!(panel.progress.iter().any(|item| {
        item.stage == ProviderProgressStage::WaitingForAllocation
            && item.detail.contains("queue 1/8")
    }));
    assert!(panel
        .progress
        .iter()
        .any(|item| item.stage == ProviderProgressStage::RequestingPower));
}

#[test]
fn allocation_timeout_is_not_treated_as_power_submission() {
    let (end, panel) = run(
        &[
            (DETAILS, 200, LIMBO),
            (
                SLEEP,
                200,
                r#"{"phase":"queued","connection":null,"position":1,"total":4,"estimated_minutes":6,"enabled":true}"#,
            ),
            (
                SLEEP,
                200,
                r#"{"phase":"waking","connection":null,"position":1,"total":4,"estimated_minutes":6,"enabled":true}"#,
            ),
        ],
        true,
        15_000,
    );
    let failure = end.unwrap_err();
    assert_eq!(failure.error_class, "ProviderAllocationTimeout");
    assert_eq!(failure.uncertain_mutation, ProviderMutation::WakeAllocation);
    assert!(!failure.uncertain_mutation.may_have_started_server());
    assert!(failure.message.contains("phase waking"));
    assert!(failure.message.contains("queue 1/4"));
    assert!(failure.detail_artifact_path.is_some());
    let last = panel.saved.last().unwrap();
    assert_eq!(last.workflow_stage, "allocation");
    assert_eq!(last.phase.as_deref(), Some("waking"));
    assert_eq!(last.position, Some(1));
}

#[test]
fn read_only_mode_allows_active_limbo_server_status() {
    let (end, _) = run(
        &[
            (DETAILS, 200, LIMBO),
            (SLEEP, 200, ACTIVE),
            (
                RESOURCES,
                200,
                r#"{"attributes":{"current_state":"running","is_suspended":false}}"#,
            ),
        ],
        false,
        720_000,
    );
    assert_eq!(end.unwrap().outcome, StartOutcome::AlreadyActive);
}

#[test]
fn ambiguous_wake_uses_sleep_status_without_replaying_post() {
    let (end, _) = run(
        &[
            (DETAILS, 200, LIMBO_SUSPENDED),
            (SLEEP, 200, r#"{"phase":"asleep","connection":null}"#),
            (WAKE, 502, "{}"),
            (SLEEP, 200, r#"{"phase":"queued","connection":null}"#),
            (SLEEP, 200, ACTIVE),
            (RESOURCES, 200, OFFLINE),
            (POWER, 204, ""),
        ],
        true,
        720_000,
    );
    assert_eq!(end.unwrap().outcome, StartOutcome::StartRequested);
}

#[test]
fn ambiguous_wake_preserves_definitive_verification_failure() {
    let (end, _) = run(
        &[
            (DETAILS, 200, LIMBO_SUSPENDED),
            (SLEEP, 200, r#"{"phase":"asleep","connection":null}"#),
            (WAKE, 502, "{}"),
            (SLEEP, 401, "{}"),
        ],
        true,
        720_000,
    );
    let failure = end.unwrap_err();
    assert_eq!(failure.error_class, "ProviderAuthentication");
    assert_eq!(failure.uncertain_mutation, ProviderMutation::WakeAllocation);
    assert!(!failure.uncertain_mutation.may_have_started_server());
}

#[test]
fn offline_server_uses_standard_power_endpoint_once() {
    let (end, _) = run(
        &[(DETAILS, 200, PLAIN), (RESOURCES, 200, OFFLINE), (POWER, 204, "")],
        true,
        720_000,
    );
    assert_eq!(end.unwrap().outcome, StartOutcome::StartRequested);
}

#[test]
fn ambiguous_power_uses_resources_without_replaying_post() {
    let (end, _) = run(
        &[
            (DETAILS, 200, PLAIN),
            (RESOURCES, 200, OFFLINE),
            (POWER, 502, "{}"),
            (
                RESOURCES,
                200,
                r#"{"attributes":{"current_state":"starting","is_suspended":false}}"#,
            ),
        ],
        true,
        720_000,
    );
    assert_eq!(end.unwrap().outcome, StartOutcome::StartRequested);
}

#[test]
fn power_disabled_fails_before_mutating_request() {
    let (end, _) =
        run(&[(DETAILS, 200, PLAIN), (RESOURCES, 200, OFFLINE)], false, 720_000);
    assert_eq!(end.unwrap_err().error_class, "ProviderPowerDisabled");
}

#[test]
fn limbo_takes_precedence_over_suspension() {
    assert_eq!(
        action_for_server_details(&server_details(true, true)),
        ServerDetailsAction::Wake
    );
    assert_eq!(
        action_for_server_details(&server_details(false, true)),
        ServerDetailsAction::FailSuspended
    );
    assert_eq!(
        action_for_server_details(&server_details(false, false)),
        ServerDetailsAction::FetchResources
    );
}

#[test]
fn selects_actions_for_provider_states() {
    assert_eq!(action_for_state("running"), StateAction::AlreadyActive);
    assert_eq!(action_for_state("starting"), StateAction::AlreadyActive);
    assert_eq!(action_for_state("offline"), StateAction::RequestStart);
    assert_eq!(action_for_state("stopped"), StateAction::RequestStart);
    assert_eq!(action_for_state("stopping"), StateAction::WaitForStopping);
    assert_eq!(action_for_state("mystery"), StateAction::FailUnknown);
}

#[test]
fn selects_wake_confirmation_sleep_states() {
    let status = |json: &str| sleep_status(json).unwrap();

    let active = status(r#"{"phase":"active","connection":"minecrafteruni.play.hosting"}"#);
    let queued = status(r#"{"phase":"queued","connection":null}"#);
    assert!(sleep_status_confirms_wake(&active));
    assert!(sleep_status_allocation_ready(&active));
    assert!(sleep_status_confirms_wake(&queued));
    assert!(!sleep_status_allocation_ready(&queued));
    assert!(sleep_status_confirms_wake(&status(r#"{"status":"waking"}"#)));
    assert!(!sleep_status_confirms_wake(&status(r#"{"phase":"asleep","connection":null}"#)));
    assert!(!sleep_status_confirms_wake(&status(r#"{"phase":"pausing","connection":""}"#)));
    assert_eq!(
        minecraft_connection(&active).as_deref(),
        Some("minecrafteruni.play.hosting")
    );
    assert!(allocation_status_detail(&queued).contains("phase queued"));
}

#[test]
fn rejects_blocked_disabled_and_unknown_allocation_states() {
    let status = |json: &str| sleep_status(json).unwrap();

    assert_eq!(
        allocation_status_failure(&status(r#"{"phase":"waking","blocked":true}"#))
            .map(|failure| failure.0),
        Some("ProviderAllocationBlocked")
    );
    assert_eq!(
        allocation_status_failure(&status(r#"{"phase":"suspended","enabled":false}"#))
            .map(|failure| failure.0),
        Some("ProviderAllocationDisabled")
    );
    assert_eq!(
        allocation_status_failure(&status(r#"{"phase":"mystery"}"#)).map(|failure| failure.0),
        Some("ProviderAllocationStateUnknown")
    );
    assert!(allocation_status_failure(&status(r#"{"phase":"queued"}"#)).is_none());
}

#[test]
fn detects_cloudflare_challenge() {
    assert!(is_cloudflare_challenge(Some("challenge"), b""));
    assert!(is_cloudflare_challenge(None, b"Cloudflare - Just a moment"));
    assert!(!is_cloudflare_challenge(None, b"forbidden"));
}

#[test]
fn challenges_are_found_in_broken_text() {
    let mut body = b"\xff\xfe".to_vec();
    body.extend_from_slice(b"Cloudflare - Just a moment");
    assert!(is_cloudflare_challenge(None, &body));
}

#[test]
fn accepts_only_panel_scoped_clearance() {
    assert!(parse_clearance(
        flaresolverr_response(".play.hosting", "safe-cookie"),
        "panel.play.hosting"
    )
    .is_ok());
    assert!(parse_clearance(
        flaresolverr_response("attacker.example", "safe-cookie"),
        "panel.play.hosting"
    )
    .is_err());
}

#[test]
fn rejects_header_injection_in_clearance() {
    let failure = match parse_clearance(
        flaresolverr_response(".play.hosting", "value\r\nInjected: yes"),
        "panel.play.hosting",
    ) {
        Ok(_) => panic!("header injection must be rejected"),
        Err(failure) => failure,
    };
    assert_eq!(failure.error_class, "FlareSolverrProtocol");
    assert!(!failure.message.contains("Injected"));
}

#[test]
fn rejects_cookie_delimiters_in_clearance() {
    let failure = match parse_clearance(
        flaresolverr_response(".play.hosting", "safe; session=injected"),
        "panel.play.hosting",
    ) {
        Ok(_) => panic!("cookie delimiters must be rejected"),
        Err(failure) => failure,
    };
    assert_eq!(failure.error_class, "FlareSolverrProtocol");
}

#[test]
fn retries_only_transient_clearance_failures() {
    assert!(clearance_failure_is_retryable(&provider_failure(
        "FlareSolverrUnavailable",
        "challenge timed out",
        None,
        ProviderMutation::Nothing,
    )));
    assert!(!clearance_failure_is_retryable(&provider_failure(
        "FlareSolverrProtocol",
        "invalid response",
        None,
        ProviderMutation::Nothing,
    )));
    assert!(!clearance_failure_is_retryable(&provider_failure(
        "FlareSolverrConfiguration",
        "invalid endpoint",
        None,
        ProviderMutation::Nothing,
    )));
}

#[test]
fn clearances_are_asked_for_twice_at_most() {
    let unreached = || refresh_clearance_once(SolverReply::Unreached, "panel.play.hosting");
    assert!(matches!(
        after_clearance_attempt(1, unreached()),
        ClearanceStep::AskAgain { .. }
    ));
    assert!(matches!(after_clearance_attempt(2, unreached()), ClearanceStep::Done(Err(_))));
}

#[test]
fn cached_clearances_expire() {
    let clearance = |expires_at: Option<u64>| Clearance {
        user_agent: "agent".to_string(),
        cookie_header: "cf_clearance=a".to_string(),
        expires_at,
    };
    assert!(cached_clearance(Some(clearance(Some(NOW + 3600))), NOW).is_some());
    assert!(cached_clearance(Some(clearance(Some(NOW + 10))), NOW).is_none());
    assert!(cached_clearance(Some(clearance(None)), NOW).is_some());
    assert!(cached_clearance(None, NOW).is_none());
    assert!(cookie_domain_matches(Some(".play.hosting"), "panel.play.hosting"));
    assert!(!cookie_domain_matches(Some("evilplay.hosting"), "play.hosting"));
}

#[test]
fn power_server_errors_are_ambiguous() {
    let error = classify_api_response(502, None, b"", ProviderMutation::PowerStart);
    assert_eq!(error.uncertain_mutation, ProviderMutation::PowerStart);
    let wake_error = classify_api_response(502, None, b"", ProviderMutation::WakeAllocation);
    assert_eq!(wake_error.uncertain_mutation, ProviderMutation::WakeAllocation);
    assert!(!wake_error.uncertain_mutation.may_have_started_server());
    let definitive = classify_api_response(422, None, b"", ProviderMutation::PowerStart);
    assert_eq!(definitive.uncertain_mutation, ProviderMutation::Nothing);
    assert!(!definitive.retryable);

    let read_retry = classify_api_response(503, None, b"", ProviderMutation::Nothing);
    assert!(read_retry.retryable);
    assert_eq!(read_retry.uncertain_mutation, ProviderMutation::Nothing);
}

#[test]
fn validates_provider_server_references() {
    assert!(valid_server_reference("34634dd7"));
    assert!(valid_server_reference("34634dd7-e564-480e-a3a7-84baf53c9328"));
    assert!(!valid_server_reference("../other-server"));
    assert!(!valid_server_reference("server name"));
    assert!(!valid_server_reference(""));
}

#[test]
fn urls_are_joined_to_the_panel() {
    assert_eq!(
        api_url("https://panel.play.hosting/", "34634dd7", Some("power")).unwrap(),
        "https://panel.play.hosting/api/client/servers/34634dd7/power"
    );
    assert!(api_url("https://panel.play.hosting/", "../x", None).is_err());
    assert_eq!(
        solver_url("http://127.0.0.1:8191/").as_deref(),
        Some("http://127.0.0.1:8191/v1")
    );
}

#[test]
fn tokens_must_fit_a_header() {
    assert_eq!(authorization("token").unwrap(), "Bearer token");
    assert!(authorization("bad\ntoken").is_err());
}

#[test]
fn failed_reads_leave_nothing_in_doubt() {
    for status in [401, 404, 500, 503] {
        let reply: ReadReply<PterodactylServer> = ReadReply::Answered {
            status,
            cf_mitigated: None,
            body: Vec::new(),
            parsed: None,
        };
        let failure = match after_second_read(fetch_details(reply)) {
            Ok(_) => panic!("expected a failure"),
            Err(failure) => failure,
        };
        assert_eq!(failure.uncertain_mutation, ProviderMutation::Nothing);
    }
}

#[test]
fn bodies_are_bounded() {
    assert!(announces_too_much(Some(11), 10));
    assert!(!announces_too_much(Some(10), 10));
    assert!(!announces_too_much(None, 10));
    let mut body = vec![1, 2];
    assert!(take_chunk(&mut body, &[3], 3).is_ok());
    assert_eq!(body, vec![1, 2, 3]);
    assert!(matches!(take_chunk(&mut body, &[4], 3), Err(LimitedBodyError::TooLarge)));
    assert!(!body_error(LimitedBodyError::TooLarge).message.is_empty());
}

#[test]
fn unsaved_states_are_reported() {
    assert_eq!(
        state_artifact_warning("abc123", "disk\nfull"),
        "could not write sanitized provider state for run abc123; error disk full"
    );
}

#[test]
fn a_server_that_keeps_stopping_is_given_up() {
    let (mut flow, mut step) = StartFlow::begin(true, 1_000);
    let mut reads = 0;
    let end = loop {
        let event = match step.action {
            PanelAction::Finish { end } => break end,
            PanelAction::ReadDetails => PanelEvent::Details {
                reply: Ok(PterodactylServer {
                    uuid: UUID.to_string(),
                    is_suspended: false,
                    is_limbo: false,
                    status: None,
                }),
            },
            PanelAction::ReadResources { .. } => {
                reads += 1;
                PanelEvent::Resources {
                    reply: Ok(PterodactylResources {
                        current_state: "stopping".to_string(),
                        is_suspended: false,
                    }),
                }
            }
            PanelAction::Pause { pause_ms } => {
                assert_eq!(pause_ms, 5_000);
                PanelEvent::Paused
            }
            PanelAction::SaveState { .. } => PanelEvent::Saved { path: None },
            _ => panic!("a stopping server is left alone"),
        };
        let (next, asked) = flow.start_inner(event, 0);
        flow = next;
        step = asked;
    };
    assert_eq!(end.unwrap_err().error_class, "ProviderStopping");
    assert_eq!(reads, 7);
}

#[test]
fn active_servers_are_left_alone_and_named() {
    let running = r#"{"attributes":{"current_state":"running","is_suspended":false}}"#;
    let (end, _) = run(&[(DETAILS, 200, PLAIN), (RESOURCES, 200, running)], true, 720_000);
    let result = end.unwrap();
    assert_eq!(result.outcome, StartOutcome::AlreadyActive);
    assert_eq!(result.provider_status, "Running");
}

#[test]
fn power_requests_ask_for_a_start() {
    let request = parsed(POWER_REQUEST).unwrap();
    assert_eq!(request.as_object().unwrap().len(), 1);
    assert_eq!(text_at(&request, "signal").as_deref(), Some("start"));
    assert_eq!(
        api_url("https://panel.example/", "34634dd7", Some(POWER_ENDPOINT)).unwrap(),
        "https://panel.example/api/client/servers/34634dd7/power"
    );
    assert_eq!(
        api_url("https://panel.example/", "34634dd7", Some(WAKE_ENDPOINT)).unwrap(),
        "https://panel.example/api/client/servers/34634dd7/wake"
    );
}

#[test]
fn refused_power_is_not_looked_into() {
    let (end, _) = run(
        &[(DETAILS, 200, PLAIN), (RESOURCES, 200, OFFLINE), (POWER, 403, "{}")],
        true,
        720_000,
    );
    assert_eq!(end.unwrap_err().uncertain_mutation, ProviderMutation::Nothing);
}
