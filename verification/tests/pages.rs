use butler::aternos::dashboard::ServerCardSelection;
use butler::aternos::errors::{classify_browser_error, artifact_warning_error_class, BrowserError};
use butler::aternos::flow::{Capture, LoginElement};
use butler::aternos::pages::{
    ad_was_closed, after_ad_click, artifact_error, capture_file, click_server_card,
    fail_if_challenge_present, open_login_page, page_state_script, random_delay, selector,
    wait_for_browser_element, ArtifactStep, PageArtifact, RANDOM_DELAY_MAX_MS,
    RANDOM_DELAY_MIN_MS,
};

#[test]
fn a_server_id_cannot_end_the_script() {
    let script = page_state_script(Some("a\"; alert(1); \""));
    assert!(script.contains("const targetServerId = \"a\\\"; alert(1); \\\"\";"));
    assert!(page_state_script(None).contains("const targetServerId = null;"));
    assert!(page_state_script(None).starts_with("(function() {"));
}

#[test]
fn the_configured_card_needs_a_configured_server() {
    assert!(click_server_card(ServerCardSelection::Configured, None).is_none());
    let configured = click_server_card(ServerCardSelection::Configured, Some("abc")).unwrap();
    assert!(configured.contains("const selection = \"configured\";"));
    assert!(configured.contains("const targetServerId = \"abc\";"));
    let only = click_server_card(ServerCardSelection::Only, None).unwrap();
    assert!(only.contains("const selection = \"only\";"));
    assert!(only.contains("const targetServerId = null;"));
}

#[test]
fn pauses_vary_within_their_bounds() {
    let mut seen = Vec::new();
    for _ in 0..50 {
        let pause = random_delay();
        assert!(RANDOM_DELAY_MIN_MS <= pause && pause < RANDOM_DELAY_MAX_MS);
        if !seen.contains(&pause) {
            seen.push(pause);
        }
    }
    assert!(seen.len() > 1);
}

#[test]
fn login_failures_get_their_class() {
    let missing = wait_for_browser_element(
        LoginElement::Password,
        Err(BrowserError::new("no element found")),
    )
    .unwrap_err();
    assert_eq!(missing.to_string(), "LoginFormUnavailable: password field was not available");
    assert_eq!(missing.chain.len(), 2);
    assert_eq!(classify_browser_error(&missing), "LoginFormUnavailable");
    assert!(wait_for_browser_element(LoginElement::Username, Ok(())).is_ok());

    let closed = open_login_page(Err(BrowserError::new("page gone"))).unwrap_err();
    assert_eq!(classify_browser_error(&closed), "LoginPageUnavailable");
    assert!(open_login_page(Ok(())).is_ok());
    assert_eq!(selector(LoginElement::LoginButton), ".login-button");
}

#[test]
fn only_a_shown_challenge_ends_the_attempt() {
    let shown = fail_if_challenge_present(Ok(Some(true))).unwrap_err();
    assert_eq!(classify_browser_error(&shown), "ChallengeRequired");
    assert!(fail_if_challenge_present(Ok(Some(false))).is_ok());
    assert!(fail_if_challenge_present(Ok(None)).is_ok());
    let broken = fail_if_challenge_present(Err(BrowserError::new("gone"))).unwrap_err();
    assert_eq!(broken.to_string(), "gone");
}

#[test]
fn artifact_failures_tell_the_browser_from_the_disk() {
    let cause = || BrowserError::new("why");
    let captured =
        artifact_error(PageArtifact::Html, ArtifactStep::Capture, "failure.html", cause());
    assert_eq!(captured.to_string(), "BrowserCapture: could not capture HTML failure.html");
    assert_eq!(artifact_warning_error_class(&captured), "BrowserCapture");
    let written =
        artifact_error(PageArtifact::Screenshot, ArtifactStep::Write, "failure.png", cause());
    assert_eq!(written.to_string(), "ArtifactWrite: could not write screenshot failure.png");
    assert_eq!(artifact_warning_error_class(&written), "ArtifactWrite");
    let protected =
        artifact_error(PageArtifact::Screenshot, ArtifactStep::Protect, "failure.png", cause());
    assert_eq!(protected.to_string(), "ArtifactWrite: could not protect screenshot failure.png");
    assert_eq!(capture_file(Capture::BeforeStart), "dashboard_before_start.png");
    assert_eq!(capture_file(Capture::AfterStartPage), "dashboard_after_start.html");
}

#[test]
fn reports_say_whether_an_advertisement_was_closed() {
    assert_eq!(ad_was_closed(r#"{"clicked":true,"width":800,"height":600}"#), Some(true));
    assert_eq!(ad_was_closed(r#"{"clicked":false,"width":800,"height":600}"#), Some(false));
    assert_eq!(ad_was_closed(r#"{"clicked":"true"}"#), Some(false));
    assert_eq!(ad_was_closed("{}"), Some(false));
    assert_eq!(ad_was_closed("[true]"), Some(false));
    assert_eq!(ad_was_closed("{\"clicked\":true"), None);
    assert_eq!(ad_was_closed(""), None);
}

#[test]
fn places_are_clicked_until_the_advertisement_is_gone() {
    assert_eq!(after_ad_click(0, true), Some(0));
    assert_eq!(after_ad_click(1, true), Some(1));
    assert_eq!(after_ad_click(2, true), Some(2));
    assert_eq!(after_ad_click(3, true), None);
    assert_eq!(after_ad_click(1, false), None);
}
