use butler::aternos::http::{
    after_login_page, after_server_page, check_before_start, conclude, host_of, request,
    start_reply, HttpAction, HttpEvent, HttpRequest, HttpStart, StartCheck,
};
use butler::json::Json;

fn answer(text: &str) -> HttpEvent {
    HttpEvent::Answer { reply: Ok(Json::parse(text.as_bytes()).unwrap()) }
}

fn page(text: &str) -> HttpEvent {
    HttpEvent::Page { reply: Ok(text.to_string()) }
}

fn run(server_id: Option<&str>, start_answer: &str) -> Result<String, String> {
    let id = server_id.map(str::to_string);
    let (flow, action) = HttpStart::begin();
    assert!(matches!(action, HttpAction::GetLoginPage));
    let (flow, action) = flow.start(page("<script>AJAX_TOKEN = \"tok\";</script>"), &id);
    match action {
        HttpAction::PostLogin { token } => assert_eq!(token, "tok"),
        _ => panic!("expected the login"),
    }
    let (mut flow, mut action) = flow.start(answer(r#"{"success":true}"#), &id);
    if server_id.is_some() {
        assert!(matches!(action, HttpAction::VisitServer { .. }));
        let (next, asked) = flow.start(HttpEvent::Visited { error: None }, &id);
        flow = next;
        action = asked;
    }
    assert!(matches!(action, HttpAction::GetServerPage));
    let (flow, action) = flow.start(page("SEC=\"sec\""), &id);
    match action {
        HttpAction::PostStart { sec, token } => {
            assert_eq!(sec, "sec");
            assert_eq!(token, "tok");
        }
        _ => panic!("expected the start"),
    }
    match flow.start(answer(start_answer), &id) {
        (_, HttpAction::Finish { end }) => end,
        _ => panic!("expected the end"),
    }
}

#[test]
fn a_start_logs_in_and_sends_its_tokens() {
    assert_eq!(
        run(None, r#"{"success":true}"#),
        Ok("Server start command sent successfully!".to_string())
    );
    assert_eq!(
        run(Some("server-1"), r#"{"success":false,"error":"Server is ALREADY up"}"#),
        Ok("Server is already running (Aternos said: Server is ALREADY up)".to_string())
    );
    assert_eq!(
        run(None, r#"{"success":false,"error":"no credits"}"#),
        Err("Failed to start server: no credits".to_string())
    );
    assert_eq!(run(None, "{}"), Err("Failed to start server: Unknown error".to_string()));
}

#[test]
fn missing_tokens_and_failed_logins_end_the_start() {
    let (flow, _) = HttpStart::begin();
    match flow.start(page("nothing"), &None) {
        (_, HttpAction::Finish { end: Err(message) }) => assert!(message.contains("AJAX_TOKEN")),
        _ => panic!("expected a failure"),
    }
    match after_server_page("tok".to_string(), None) {
        (_, HttpAction::Finish { end: Err(message) }) => assert!(message.contains("SEC token")),
        _ => panic!("expected a failure"),
    }
    let (flow, _) = after_login_page(Some("tok".to_string()));
    match flow.start(answer(r#"{"error":"bad password"}"#), &None) {
        (_, HttpAction::Finish { end: Err(message) }) => {
            assert_eq!(message, "Aternos login failed: bad password")
        }
        _ => panic!("expected a failure"),
    }
    let (flow, _) = HttpStart::begin();
    match flow.start(HttpEvent::Page { reply: Err("offline".to_string()) }, &None) {
        (_, HttpAction::Finish { end: Err(message) }) => assert_eq!(message, "offline"),
        _ => panic!("expected a failure"),
    }
}

#[test]
fn ends_and_checks_are_worded() {
    assert_eq!(
        conclude(false, "Running", "running"),
        Ok("Server is already running (Aternos said: Running)".to_string())
    );
    assert_eq!(host_of("example.com:25565"), "example.com");
    assert_eq!(host_of("example.com"), "example.com");
    assert!(matches!(check_before_start(Ok("Offline (x)")), StartCheck::Proceed));
    match check_before_start(Ok("Online")) {
        StartCheck::Abort { reply } => {
            assert_eq!(reply, "⚠️ Server is already **Online**. Aborting start.")
        }
        _ => panic!("expected an abort"),
    }
    match check_before_start(Err("timeout")) {
        StartCheck::Warn { reply } => assert_eq!(
            reply,
            "⚠️ Could not check server status (timeout), proceeding with start anyway..."
        ),
        _ => panic!("expected a warning"),
    }
    assert_eq!(start_reply(Ok("sent")), "✅ sent");
    assert_eq!(start_reply(Err("bad")), "❌ Error: bad");
}

fn form(fields: &[(&str, &str)]) -> Vec<(String, String)> {
    fields.iter().map(|(name, value)| (name.to_string(), value.to_string())).collect()
}

#[test]
fn actions_are_sent_where_aternos_takes_them() {
    let sent = |action: &HttpAction| request(action, "me", "hidden");
    assert_eq!(
        sent(&HttpAction::GetLoginPage),
        Some(HttpRequest::Get { url: "https://aternos.org/go/".to_string() })
    );
    assert_eq!(
        sent(&HttpAction::PostLogin { token: "tok".to_string() }),
        Some(HttpRequest::Post {
            url: "https://aternos.org/panel/ajax/account/login.php".to_string(),
            form: form(&[("user", "me"), ("password", "hidden"), ("token", "tok")]),
        })
    );
    assert_eq!(
        sent(&HttpAction::VisitServer { server_id: "abc".to_string() }),
        Some(HttpRequest::Get { url: "https://aternos.org/server/abc/".to_string() })
    );
    assert_eq!(
        sent(&HttpAction::GetServerPage),
        Some(HttpRequest::Get { url: "https://aternos.org/server/".to_string() })
    );
    assert_eq!(
        sent(&HttpAction::PostStart { sec: "sec".to_string(), token: "tok".to_string() }),
        Some(HttpRequest::Post {
            url: "https://aternos.org/panel/ajax/start.php".to_string(),
            form: form(&[("SEC", "sec"), ("token", "tok")]),
        })
    );
    assert_eq!(sent(&HttpAction::Finish { end: Ok("done".to_string()) }), None);
}
