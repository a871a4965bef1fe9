//! What the bot does in single pages: the scripts that hold settings, the
//! elements of the login form, and how a step that fails is named.

use vstd::prelude::*;
use vstd::utf8::encode_utf8;
use crate::aternos::dashboard::ServerCardSelection;
use crate::aternos::errors::BrowserError;
use crate::aternos::flow::{Capture, LoginElement};
use crate::json::{json_document, json_text, Json, JsonTree};
use crate::outside;
use crate::text;
use crate::text::{opt_str, opt_text};

verus! {

/// The script that reports on a page, before the wanted server.
pub const PAGE_SCRIPT_HEAD: &'static str = "(function() {
    const targetServerId = ";

/// The script that reports on a page, behind the wanted server.
pub const PAGE_SCRIPT_TAIL: &'static str = ";
    const startButton = document.querySelector('#start');
    const statusLabel = document.querySelector('.statuslabel-label');
    const cards = Array.from(document.querySelectorAll('.servercard'));
    const targetCard = targetServerId === null
        ? null
        : cards.find((card) => card.getAttribute('data-id') === targetServerId);
    const startButtonStyle = startButton ? window.getComputedStyle(startButton) : null;
    const startButtonVisible = !!startButton &&
        startButtonStyle.display !== 'none' &&
        startButtonStyle.visibility !== 'hidden' &&
        startButton.offsetParent !== null;
    const dashboardServerId = typeof lastStatus !== 'undefined' &&
        lastStatus &&
        lastStatus.id
            ? String(lastStatus.id)
            : '';
    return JSON.stringify({
        url: window.location.href,
        title: document.title,
        hasStartButton: !!startButton,
        startButtonVisible,
        hasStatusLabel: !!statusLabel,
        statusText: statusLabel ? statusLabel.innerText.trim() : '',
        hasServerCards: cards.length > 0,
        serverCardCount: cards.length,
        hasTargetServerCard: targetServerId === null ? null : !!targetCard,
        hasDashboardServerId: dashboardServerId !== '',
        dashboardServerIdMatches: targetServerId === null || dashboardServerId === ''
            ? null
            : dashboardServerId === targetServerId
    });
})()";

/// The script that clicks a card, before the kind of choice.
pub const CARD_SCRIPT_HEAD: &'static str = "(function() {
    const selection = ";

/// The script that clicks a card, between the choice and the wanted server.
pub const CARD_SCRIPT_MIDDLE: &'static str = ";
    const targetServerId = ";

/// The script that clicks a card, behind the wanted server.
pub const CARD_SCRIPT_TAIL: &'static str = ";
    const cards = Array.from(document.querySelectorAll('.servercard'));
    const targetCard = selection === 'configured'
        ? cards.find((card) => card.getAttribute('data-id') === targetServerId)
        : (cards.length === 1 ? cards[0] : null);
    if (!targetCard) return false;
    targetCard.scrollIntoView({ block: 'center', inline: 'center' });
    targetCard.click();
    return true;
})()";

/// A text as a script writes it, or null.
pub open spec fn script_text(value: Option<Seq<char>>) -> Seq<char> {
    match value {
        Some(value) => json_text(JsonTree::Text(value)),
        None => "null"@,
    }
}

fn script_literal(value: Option<&str>) -> (r: String)
    ensures
        r@ == script_text(opt_str(value)),
{
    match value {
        Some(value) => Json::text(value).to_string(),
        None => "null".to_owned(),
    }
}

/// The script that reports on a page with respect to the configured server. The
/// server's ID stands in it as a quoted text, so that it cannot end the script.
pub fn page_state_script(server_id: Option<&str>) -> (r: String)
    ensures
        r@ == PAGE_SCRIPT_HEAD@ + script_text(opt_str(server_id)) + PAGE_SCRIPT_TAIL@,
{
    text::cat3(PAGE_SCRIPT_HEAD, script_literal(server_id).as_str(), PAGE_SCRIPT_TAIL)
}

/// How a script is told which card to click.
pub open spec fn selection_name(selection: ServerCardSelection) -> Seq<char> {
    match selection {
        ServerCardSelection::Configured => "configured"@,
        ServerCardSelection::Only => "only"@,
    }
}

/// The script that clicks a server's card; none where the configured server's
/// card is wanted and no server is configured.
pub open spec fn card_script(selection: ServerCardSelection, server_id: Option<Seq<char>>) -> Option<Seq<char>> {
    if selection == ServerCardSelection::Configured && server_id is None {
        None
    } else {
        Some(
            CARD_SCRIPT_HEAD@ + script_text(Some(selection_name(selection))) + CARD_SCRIPT_MIDDLE@
                + script_text(server_id) + CARD_SCRIPT_TAIL@,
        )
    }
}

/// The script that clicks a server's card; none where the configured server's
/// card is wanted and no server is configured.
pub fn click_server_card(selection: ServerCardSelection, server_id: Option<&str>) -> (r: Option<String>)
    ensures
        opt_text(r) == card_script(selection, opt_str(server_id)),
{
    let name = match selection {
        ServerCardSelection::Configured => {
            if server_id.is_none() {
                return None;
            }
            "configured"
        },
        ServerCardSelection::Only => "only",
    };
    Some(
        text::cat5(
            CARD_SCRIPT_HEAD,
            script_literal(Some(name)).as_str(),
            CARD_SCRIPT_MIDDLE,
            script_literal(server_id).as_str(),
            CARD_SCRIPT_TAIL,
        ),
    )
}

/// The least pause between two actions in a page, in milliseconds.
pub const RANDOM_DELAY_MIN_MS: u64 = 500;

/// The bound of the pauses between two actions in a page, in milliseconds.
pub const RANDOM_DELAY_MAX_MS: u64 = 1_500;

/// A pause between two actions in a page, drawn at random.
pub fn random_delay() -> (r: u64)
    ensures
        RANDOM_DELAY_MIN_MS <= r < RANDOM_DELAY_MAX_MS,
{
    let drawn: usize = outside::random_below(1_000);
    RANDOM_DELAY_MIN_MS + drawn as u64
}

// ---------------------------------------------------------------------------
// The login form
// ---------------------------------------------------------------------------

/// How an element of the login form is found.
pub open spec fn selector_text(element: LoginElement) -> Seq<char> {
    match element {
        LoginElement::Username => ".username"@,
        LoginElement::Password => ".password"@,
        LoginElement::LoginButton => ".login-button"@,
    }
}

/// How an element of the login form is found.
pub fn selector(element: LoginElement) -> (r: &'static str)
    ensures
        r@ == selector_text(element),
{
    match element {
        LoginElement::Username => ".username",
        LoginElement::Password => ".password",
        LoginElement::LoginButton => ".login-button",
    }
}

/// What is said where an element of the login form does not appear.
pub open spec fn missing_element(element: LoginElement) -> Seq<char> {
    match element {
        LoginElement::Username => "LoginFormUnavailable: username field was not available"@,
        LoginElement::Password => "LoginFormUnavailable: password field was not available"@,
        LoginElement::LoginButton => "LoginFormUnavailable: login button was not available"@,
    }
}

/// The wait for an element of the login form: it appears, or the form counts as
/// unavailable.
pub fn wait_for_browser_element(element: LoginElement, found: Result<(), BrowserError>) -> (r: Result<(), BrowserError>)
    ensures
        match found {
            Ok(()) => r is Ok,
            Err(error) => r is Err && r->Err_0@ == seq![missing_element(element)] + error@,
        },
{
    match found {
        Ok(()) => Ok(()),
        Err(error) => {
            let message = match element {
                LoginElement::Username => "LoginFormUnavailable: username field was not available",
                LoginElement::Password => "LoginFormUnavailable: password field was not available",
                LoginElement::LoginButton => "LoginFormUnavailable: login button was not available",
            };
            Err(error.in_context(message))
        },
    }
}

/// The visit of the login page: it opens, or it counts as unavailable.
pub fn open_login_page(opened: Result<(), BrowserError>) -> (r: Result<(), BrowserError>)
    ensures
        match opened {
            Ok(()) => r is Ok,
            Err(error) => r is Err && r->Err_0@ == seq![
                "LoginPageUnavailable: could not open the Aternos login page"@,
            ] + error@,
        },
{
    match opened {
        Ok(()) => Ok(()),
        Err(error) => Err(
            error.in_context("LoginPageUnavailable: could not open the Aternos login page"),
        ),
    }
}

/// The look for a challenge on the page, which ends the attempt where one is
/// shown. A page that says nothing of it shows none.
pub fn fail_if_challenge_present(shown: Result<Option<bool>, BrowserError>) -> (r: Result<(), BrowserError>)
    ensures
        match shown {
            Ok(shown) => if shown == Some(true) {
                r is Err && r->Err_0@ == seq![
                    "ChallengeRequired: Aternos displayed a browser challenge or CAPTCHA"@,
                ]
            } else {
                r is Ok
            },
            Err(error) => r is Err && r->Err_0@ == error@,
        },
{
    match shown {
        Ok(Some(true)) => Err(
            BrowserError::new("ChallengeRequired: Aternos displayed a browser challenge or CAPTCHA"),
        ),
        Ok(_) => Ok(()),
        Err(error) => Err(error),
    }
}

// ---------------------------------------------------------------------------
// The advertisement over a page
// ---------------------------------------------------------------------------

/// How many places on a page are clicked to close an advertisement.
pub const AD_CLICK_PLACES: u8 = 3;

/// Whether a report says that the advertisement's own button was clicked.
pub open spec fn says_clicked(report: JsonTree) -> bool {
    report.bool_member("clicked"@) == Some(true)
}

/// Whether the script that looks for an advertisement's own button clicked it;
/// none where its report is not a document.
pub fn ad_was_closed(report: &str) -> (r: Option<bool>)
    ensures
        r == match json_document(encode_utf8(report@)) {
            Some(document) => Some(says_clicked(document)),
            None => None,
        },
{
    match Json::parse(report.as_bytes()) {
        Some(document) => Some(matches!(document.bool_of("clicked"), Some(true))),
        None => None,
    }
}

/// Which place is clicked next, after so many were: none once the advertisement
/// is gone or every place was tried.
pub fn after_ad_click(clicked: u8, ad_shown: bool) -> (r: Option<u8>)
    ensures
        r == (if ad_shown && clicked < AD_CLICK_PLACES {
            Some(clicked)
        } else {
            None
        }),
{
    if ad_shown && clicked < AD_CLICK_PLACES {
        Some(clicked)
    } else {
        None
    }
}

// ---------------------------------------------------------------------------
// What is kept of a page
// ---------------------------------------------------------------------------

/// The screenshot of a failed attempt.
pub const FAILURE_SCREENSHOT: &'static str = "failure.png";

/// The page of a failed attempt.
pub const FAILURE_HTML: &'static str = "failure.html";

/// The file that holds a capture.
pub open spec fn capture_name(capture: Capture) -> Seq<char> {
    match capture {
        Capture::BeforeStart => "dashboard_before_start.png"@,
        Capture::AfterStart => "dashboard_after_start.png"@,
        Capture::AfterStartPage => "dashboard_after_start.html"@,
    }
}

/// The file that holds a capture.
pub fn capture_file(capture: Capture) -> (r: &'static str)
    ensures
        r@ == capture_name(capture),
{
    match capture {
        Capture::BeforeStart => "dashboard_before_start.png",
        Capture::AfterStart => "dashboard_after_start.png",
        Capture::AfterStartPage => "dashboard_after_start.html",
    }
}

/// What is kept of a page.
#[derive(Clone, Copy, Debug, PartialEq, Eq, Structural)]
pub enum PageArtifact {
    Screenshot,
    Html,
}

/// The steps in which it is kept.
#[derive(Clone, Copy, Debug, PartialEq, Eq, Structural)]
pub enum ArtifactStep {
    Capture,
    Write,
    Protect,
}

/// What is said where a step fails. What the browser does not hand out is told
/// apart from what cannot be stored.
pub open spec fn artifact_failure(artifact: PageArtifact, step: ArtifactStep, filename: Seq<char>) -> Seq<char> {
    (match step {
        ArtifactStep::Capture => "BrowserCapture: could not capture "@,
        ArtifactStep::Write => "ArtifactWrite: could not write "@,
        ArtifactStep::Protect => "ArtifactWrite: could not protect "@,
    }) + (match artifact {
        PageArtifact::Screenshot => "screenshot "@,
        PageArtifact::Html => "HTML "@,
    }) + filename
}

/// The error of a step in which an artifact is kept.
pub fn artifact_error(
    artifact: PageArtifact,
    step: ArtifactStep,
    filename: &str,
    cause: BrowserError,
) -> (r: BrowserError)
    ensures
        r@ == seq![artifact_failure(artifact, step, filename@)] + cause@,
{
    let beginning = match step {
        ArtifactStep::Capture => "BrowserCapture: could not capture ",
        ArtifactStep::Write => "ArtifactWrite: could not write ",
        ArtifactStep::Protect => "ArtifactWrite: could not protect ",
    };
    let kind = match artifact {
        PageArtifact::Screenshot => "screenshot ",
        PageArtifact::Html => "HTML ",
    };
    cause.in_context(text::cat3(beginning, kind, filename).as_str())
}

} // verus!
