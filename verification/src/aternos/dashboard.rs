//! The Aternos dashboard: what a look at the page shows, and what to do to get
//! to the controls of the configured server.

use vstd::prelude::*;
use vstd::utf8::encode_utf8;
use crate::json::{json_document, Json, JsonTree};
use crate::terminal;
use crate::terminal::quoted;
use crate::text;
use crate::text::{decimal, holds, join, only_if, opt_str, opt_text, texts};

verus! {

// ---------------------------------------------------------------------------
// The state of the server
// ---------------------------------------------------------------------------

/// What the dashboard says of the server.
#[verifier::ext_equal]
#[derive(Clone, Debug)]
pub struct DashboardState<T = String> {
    pub status: T,
    pub start_button_visible: bool,
    pub accepted: bool,
}

impl View for DashboardState<String> {
    type V = DashboardState<Seq<char>>;

    open spec fn view(&self) -> DashboardState<Seq<char>> {
        DashboardState {
            status: self.status@,
            start_button_visible: self.start_button_visible,
            accepted: self.accepted,
        }
    }
}

/// What a status and the visibility of the start button amount to: a known
/// status that is not offline, or that hides the button, is an accepted start.
pub open spec fn state_of(status: Seq<char>, start_button_visible: bool) -> DashboardState<Seq<char>> {
    DashboardState {
        status,
        start_button_visible,
        accepted: status != "unknown"@ && (!holds(status, "Offline"@) || !start_button_visible),
    }
}

/// What a status and the visibility of the start button amount to.
pub fn dashboard_state_from_parts(status: &str, start_button_visible: bool) -> (r: DashboardState)
    ensures
        r@ == state_of(status@, start_button_visible),
{
    DashboardState {
        status: status.to_owned(),
        start_button_visible,
        accepted: !text::same(status, "unknown") && (!text::contains(status, "Offline")
            || !start_button_visible),
    }
}

/// The text of a member, or `fallback`.
pub open spec fn text_or(tree: JsonTree, name: Seq<char>, fallback: Seq<char>) -> Seq<char> {
    match tree.text_member(name) {
        Some(value) => value,
        None => fallback,
    }
}

/// The boolean of a member, or false.
pub open spec fn flag(tree: JsonTree, name: Seq<char>) -> bool {
    tree.bool_member(name) == Some(true)
}

fn json_text_or(json: &Json, name: &str, fallback: &str) -> (r: String)
    ensures
        r@ == text_or(json@, name@, fallback@),
{
    match json.text_of(name) {
        Some(value) => value,
        None => fallback.to_owned(),
    }
}

fn json_flag(json: &Json, name: &str) -> (r: bool)
    ensures
        r == flag(json@, name@),
{
    match json.bool_of(name) {
        Some(value) => value,
        None => false,
    }
}

/// The state that the page's own report describes.
pub fn state_from_report(report: &Json) -> (r: DashboardState)
    ensures
        r@ == state_of(text_or(report@, "status"@, "unknown"@), flag(report@, "visible"@)),
{
    let status = json_text_or(report, "status", "unknown");
    dashboard_state_from_parts(status.as_str(), json_flag(report, "visible"))
}

/// The state that the page's own report describes, where it is JSON.
pub fn dashboard_state(raw: &str) -> (r: Option<DashboardState>)
    ensures
        match json_document(encode_utf8(raw@)) {
            Some(tree) => r matches Some(state) && state@ == state_of(
                text_or(tree, "status"@, "unknown"@),
                flag(tree, "visible"@),
            ),
            None => r is None,
        },
{
    match Json::parse(raw.as_bytes()) {
        Some(report) => Some(state_from_report(&report)),
        None => None,
    }
}

// ---------------------------------------------------------------------------
// The page
// ---------------------------------------------------------------------------

/// What a look at the page shows.
#[verifier::ext_equal]
#[derive(Clone, Debug, PartialEq, Eq)]
pub struct DashboardPageState<T = String> {
    pub url: T,
    pub title: T,
    pub has_start_button: bool,
    pub start_button_visible: bool,
    pub has_status_label: bool,
    pub status_text: T,
    pub has_server_cards: bool,
    pub server_card_count: usize,
    pub has_target_server_card: Option<bool>,
    pub has_dashboard_server_id: bool,
    pub dashboard_server_id_matches: Option<bool>,
}

impl View for DashboardPageState<String> {
    type V = DashboardPageState<Seq<char>>;

    open spec fn view(&self) -> DashboardPageState<Seq<char>> {
        DashboardPageState {
            url: self.url@,
            title: self.title@,
            has_start_button: self.has_start_button,
            start_button_visible: self.start_button_visible,
            has_status_label: self.has_status_label,
            status_text: self.status_text@,
            has_server_cards: self.has_server_cards,
            server_card_count: self.server_card_count,
            has_target_server_card: self.has_target_server_card,
            has_dashboard_server_id: self.has_dashboard_server_id,
            dashboard_server_id_matches: self.dashboard_server_id_matches,
        }
    }
}

/// The view of an optional look.
pub open spec fn opt_page(value: Option<DashboardPageState>) -> Option<DashboardPageState<Seq<char>>> {
    match value {
        Some(state) => Some(state@),
        None => None,
    }
}

impl Default for DashboardPageState<String> {
    /// A page that shows nothing.
    fn default() -> (r: DashboardPageState)
        ensures
            r@ == (DashboardPageState {
                url: ""@,
                title: ""@,
                has_start_button: false,
                start_button_visible: false,
                has_status_label: false,
                status_text: ""@,
                has_server_cards: false,
                server_card_count: 0,
                has_target_server_card: None,
                has_dashboard_server_id: false,
                dashboard_server_id_matches: None,
            }),
    {
        DashboardPageState {
            url: "".to_owned(),
            title: "".to_owned(),
            has_start_button: false,
            start_button_visible: false,
            has_status_label: false,
            status_text: "".to_owned(),
            has_server_cards: false,
            server_card_count: 0,
            has_target_server_card: None,
            has_dashboard_server_id: false,
            dashboard_server_id_matches: None,
        }
    }
}

impl DashboardPageState<Seq<char>> {
    /// Whether the controls of some server are there.
    pub open spec fn controls_ready(self) -> bool {
        self.start_button_visible || (self.has_status_label && !self.has_server_cards)
    }

    /// Whether the controls of the configured server are there.
    pub open spec fn ready_for(self, server_id: Option<Seq<char>>) -> bool {
        self.controls_ready() && (server_id is None || self.dashboard_server_id_matches == Some(true))
    }
}

impl DashboardPageState<String> {
    /// Whether the controls of some server are there.
    pub fn dashboard_controls_ready(&self) -> (r: bool)
        ensures
            r == self@.controls_ready(),
    {
        self.start_button_visible || (self.has_status_label && !self.has_server_cards)
    }

    /// Whether the controls of the configured server are there.
    pub fn dashboard_ready_for(&self, server_id: Option<&str>) -> (r: bool)
        ensures
            r == self@.ready_for(opt_str(server_id)),
    {
        let matches_id = match self.dashboard_server_id_matches {
            Some(value) => value,
            None => false,
        };
        self.dashboard_controls_ready() && (server_id.is_none() || matches_id)
    }

    /// A copy of the look.
    pub fn copied(&self) -> (r: DashboardPageState)
        ensures
            r@ == self@,
    {
        DashboardPageState {
            url: self.url.clone(),
            title: self.title.clone(),
            has_start_button: self.has_start_button,
            start_button_visible: self.start_button_visible,
            has_status_label: self.has_status_label,
            status_text: self.status_text.clone(),
            has_server_cards: self.has_server_cards,
            server_card_count: self.server_card_count,
            has_target_server_card: self.has_target_server_card,
            has_dashboard_server_id: self.has_dashboard_server_id,
            dashboard_server_id_matches: self.dashboard_server_id_matches,
        }
    }
}

/// The look that the page's own report describes.
pub open spec fn page_of(tree: JsonTree) -> DashboardPageState<Seq<char>> {
    DashboardPageState {
        url: text_or(tree, "url"@, ""@),
        title: text_or(tree, "title"@, ""@),
        has_start_button: flag(tree, "hasStartButton"@),
        start_button_visible: flag(tree, "startButtonVisible"@),
        has_status_label: flag(tree, "hasStatusLabel"@),
        status_text: text_or(tree, "statusText"@, ""@),
        has_server_cards: flag(tree, "hasServerCards"@),
        server_card_count: match tree.number_member("serverCardCount"@) {
            Some(n) if n <= usize::MAX => n as usize,
            _ => 0,
        },
        has_target_server_card: tree.bool_member("hasTargetServerCard"@),
        has_dashboard_server_id: flag(tree, "hasDashboardServerId"@),
        dashboard_server_id_matches: tree.bool_member("dashboardServerIdMatches"@),
    }
}

/// The look that the page's own report describes.
pub fn page_from_report(report: &Json) -> (r: DashboardPageState)
    ensures
        r@ == page_of(report@),
{
    let server_card_count: usize = match report.number_of("serverCardCount") {
        Some(n) => {
            if n <= usize::MAX as u64 {
                n as usize
            } else {
                0
            }
        },
        None => 0,
    };
    DashboardPageState {
        url: json_text_or(report, "url", ""),
        title: json_text_or(report, "title", ""),
        has_start_button: json_flag(report, "hasStartButton"),
        start_button_visible: json_flag(report, "startButtonVisible"),
        has_status_label: json_flag(report, "hasStatusLabel"),
        status_text: json_text_or(report, "statusText", ""),
        has_server_cards: json_flag(report, "hasServerCards"),
        server_card_count,
        has_target_server_card: report.bool_of("hasTargetServerCard"),
        has_dashboard_server_id: json_flag(report, "hasDashboardServerId"),
        dashboard_server_id_matches: report.bool_of("dashboardServerIdMatches"),
    }
}

/// The look that the page's own report describes, where it is JSON.
pub fn dashboard_page_state(raw: &str) -> (r: Option<DashboardPageState>)
    ensures
        match json_document(encode_utf8(raw@)) {
            Some(tree) => r matches Some(state) && state@ == page_of(tree),
            None => r is None,
        },
{
    match Json::parse(raw.as_bytes()) {
        Some(report) => Some(page_from_report(&report)),
        None => None,
    }
}

// ---------------------------------------------------------------------------
// The way to the controls
// ---------------------------------------------------------------------------

/// Which server card is clicked.
#[derive(Clone, Copy, Debug, PartialEq, Eq, Structural)]
pub enum ServerCardSelection {
    Configured,
    Only,
}

/// What a look at the page asks for.
#[verifier::ext_equal]
#[derive(Clone, Copy, Debug, PartialEq, Eq)]
pub enum DashboardOpenAction<T = &'static str> {
    Ready,
    ClickServerCard(ServerCardSelection),
    NavigateToServer,
    NavigateToServerPicker,
    Wait,
    Fail(T),
}

impl View for DashboardOpenAction<&'static str> {
    type V = DashboardOpenAction<Seq<char>>;

    open spec fn view(&self) -> DashboardOpenAction<Seq<char>> {
        match *self {
            DashboardOpenAction::Ready => DashboardOpenAction::Ready,
            DashboardOpenAction::ClickServerCard(selection) => DashboardOpenAction::ClickServerCard(
                selection,
            ),
            DashboardOpenAction::NavigateToServer => DashboardOpenAction::NavigateToServer,
            DashboardOpenAction::NavigateToServerPicker => DashboardOpenAction::NavigateToServerPicker,
            DashboardOpenAction::Wait => DashboardOpenAction::Wait,
            DashboardOpenAction::Fail(detail) => DashboardOpenAction::Fail(detail@),
        }
    }
}

/// What a look at the page asks for. `last_look` says that no other look
/// follows; `allow_single_card` that a lone card may be taken for the server.
pub open spec fn open_action(
    state: DashboardPageState<Seq<char>>,
    server_id: Option<Seq<char>>,
    last_look: bool,
    allow_single_card: bool,
) -> DashboardOpenAction<Seq<char>> {
    if state.ready_for(server_id) {
        DashboardOpenAction::Ready
    } else if state.controls_ready() {
        match (state.dashboard_server_id_matches, last_look) {
            (Some(_), true) => DashboardOpenAction::Fail(
                "dashboard server id did not match configured SERVER_ID"@,
            ),
            (Some(_), false) => DashboardOpenAction::NavigateToServerPicker,
            (None, true) => DashboardOpenAction::Fail("dashboard server id was not available"@),
            (None, false) => DashboardOpenAction::Wait,
        }
    } else if !state.has_server_cards {
        DashboardOpenAction::NavigateToServer
    } else if server_id is Some {
        if state.has_target_server_card == Some(true) {
            DashboardOpenAction::ClickServerCard(ServerCardSelection::Configured)
        } else if last_look {
            DashboardOpenAction::Fail("configured SERVER_ID was not found on the server picker"@)
        } else {
            DashboardOpenAction::Wait
        }
    } else if state.server_card_count == 1 && allow_single_card {
        DashboardOpenAction::ClickServerCard(ServerCardSelection::Only)
    } else if state.server_card_count > 1 && last_look {
        DashboardOpenAction::Fail("multiple server cards; configure SERVER_ID"@)
    } else {
        DashboardOpenAction::NavigateToServer
    }
}

/// What a look at the page asks for.
pub fn dashboard_open_action(
    state: &DashboardPageState,
    server_id: Option<&str>,
    final_snapshot: bool,
    allow_single_card_without_id: bool,
) -> (r: DashboardOpenAction)
    ensures
        r@ == open_action(state@, opt_str(server_id), final_snapshot, allow_single_card_without_id),
{
    if state.dashboard_ready_for(server_id) {
        return DashboardOpenAction::Ready;
    }
    if state.dashboard_controls_ready() {
        return match state.dashboard_server_id_matches {
            Some(_) => if final_snapshot {
                DashboardOpenAction::Fail("dashboard server id did not match configured SERVER_ID")
            } else {
                DashboardOpenAction::NavigateToServerPicker
            },
            None => if final_snapshot {
                DashboardOpenAction::Fail("dashboard server id was not available")
            } else {
                DashboardOpenAction::Wait
            },
        };
    }
    if !state.has_server_cards {
        return DashboardOpenAction::NavigateToServer;
    }
    if server_id.is_some() {
        let target = match state.has_target_server_card {
            Some(value) => value,
            None => false,
        };
        return if target {
            DashboardOpenAction::ClickServerCard(ServerCardSelection::Configured)
        } else if final_snapshot {
            DashboardOpenAction::Fail("configured SERVER_ID was not found on the server picker")
        } else {
            DashboardOpenAction::Wait
        };
    }
    if state.server_card_count == 1 && allow_single_card_without_id {
        DashboardOpenAction::ClickServerCard(ServerCardSelection::Only)
    } else if state.server_card_count > 1 && final_snapshot {
        DashboardOpenAction::Fail("multiple server cards; configure SERVER_ID")
    } else {
        DashboardOpenAction::NavigateToServer
    }
}

/// With a configured server the dashboard counts as reached only where it shows
/// that server.
pub proof fn ready_means_the_configured_server(
    state: DashboardPageState<Seq<char>>,
    server_id: Option<Seq<char>>,
    last_look: bool,
    allow_single_card: bool,
)
    requires
        open_action(state, server_id, last_look, allow_single_card) is Ready,
    ensures
        state.controls_ready(),
        server_id is Some ==> state.dashboard_server_id_matches == Some(true),
{
}

/// No server is picked by guess: a card is clicked only if it is the configured
/// server's, or the only one while none is configured.
pub proof fn cards_are_not_guessed(
    state: DashboardPageState<Seq<char>>,
    server_id: Option<Seq<char>>,
    last_look: bool,
    allow_single_card: bool,
)
    ensures
        open_action(state, server_id, last_look, allow_single_card)
            matches DashboardOpenAction::ClickServerCard(selection) ==> match selection {
            ServerCardSelection::Configured => server_id is Some && state.has_target_server_card
                == Some(true),
            ServerCardSelection::Only => server_id is None && state.server_card_count == 1
                && allow_single_card,
        },
{
}

// ---------------------------------------------------------------------------
// Why it was not reached
// ---------------------------------------------------------------------------

/// A boolean as text.
pub open spec fn bool_text(value: bool) -> Seq<char> {
    if value {
        "true"@
    } else {
        "false"@
    }
}

fn show_bool(value: bool) -> (r: &'static str)
    ensures
        r@ == bool_text(value),
{
    if value {
        "true"
    } else {
        "false"
    }
}

/// One text with the flag behind it, where there is one.
pub open spec fn flag_part(name: Seq<char>, value: Option<bool>) -> Seq<Seq<char>> {
    match value {
        Some(value) => seq![name + bool_text(value)],
        None => Seq::empty(),
    }
}

/// The parts of a description of the page.
pub open spec fn page_parts(state: Option<DashboardPageState<Seq<char>>>) -> Seq<Seq<char>> {
    match state {
        Some(state) => seq![
            "url="@ + quoted(state.url),
            "title="@ + quoted(state.title),
            "has_server_cards="@ + bool_text(state.has_server_cards),
            "server_cards="@ + decimal(state.server_card_count as nat),
        ] + flag_part("target_card="@, state.has_target_server_card) + seq![
            "dashboard_id_present="@ + bool_text(state.has_dashboard_server_id),
        ] + flag_part("dashboard_id_matches="@, state.dashboard_server_id_matches) + only_if(
            state.status_text.len() > 0,
            "status="@ + quoted(state.status_text),
        ),
        None => seq!["page_state=unavailable"@],
    }
}

/// What is known of a dashboard that was not reached.
pub open spec fn failure_detail(
    state: Option<DashboardPageState<Seq<char>>>,
    last_error: Option<Seq<char>>,
) -> Seq<char> {
    join(
        page_parts(state) + (match last_error {
            Some(error) => seq!["last_error="@ + quoted(error)],
            None => Seq::empty(),
        }),
        "; "@,
    )
}

/// What is known of a dashboard that was not reached.
pub fn dashboard_failure_detail(
    state: Option<&DashboardPageState>,
    last_error: Option<&str>,
) -> (r: String)
    ensures
        r@ == failure_detail(
            match state {
                Some(state) => Some(state@),
                None => None,
            },
            opt_str(last_error),
        ),
{
    let mut parts = text::no_texts();
    match state {
        Some(state) => {
            text::add_text(
                &mut parts,
                text::cat2("url=", terminal::quote(state.url.as_str()).as_str()),
            );
            text::add_text(
                &mut parts,
                text::cat2("title=", terminal::quote(state.title.as_str()).as_str()),
            );
            text::add_text(
                &mut parts,
                text::cat2("has_server_cards=", show_bool(state.has_server_cards)),
            );
            text::add_text(
                &mut parts,
                text::cat2("server_cards=", text::decimal_usize(state.server_card_count).as_str()),
            );
            let ghost p0 = seq![
                "url="@ + quoted(state@.url),
                "title="@ + quoted(state@.title),
                "has_server_cards="@ + bool_text(state@.has_server_cards),
                "server_cards="@ + decimal(state@.server_card_count as nat),
            ];
            assert(texts(parts@) =~= p0);
            if let Some(value) = state.has_target_server_card {
                text::add_text(&mut parts, text::cat2("target_card=", show_bool(value)));
            }
            let ghost p1 = p0 + flag_part("target_card="@, state@.has_target_server_card);
            assert(texts(parts@) =~= p1);
            text::add_text(
                &mut parts,
                text::cat2("dashboard_id_present=", show_bool(state.has_dashboard_server_id)),
            );
            let ghost p2 = p1 + seq![
                "dashboard_id_present="@ + bool_text(state@.has_dashboard_server_id),
            ];
            assert(texts(parts@) =~= p2);
            if let Some(value) = state.dashboard_server_id_matches {
                text::add_text(&mut parts, text::cat2("dashboard_id_matches=", show_bool(value)));
            }
            let ghost p3 = p2 + flag_part(
                "dashboard_id_matches="@,
                state@.dashboard_server_id_matches,
            );
            assert(texts(parts@) =~= p3);
            if !state.status_text.as_str().is_empty() {
                text::add_text(
                    &mut parts,
                    text::cat2("status=", terminal::quote(state.status_text.as_str()).as_str()),
                );
            }
            assert(texts(parts@) =~= page_parts(Some(state@)));
        },
        None => {
            text::add_text(&mut parts, "page_state=unavailable".to_owned());
            assert(texts(parts@) =~= page_parts(None));
        },
    }
    let ghost shown = texts(parts@);
    if let Some(error) = last_error {
        text::add_text(&mut parts, text::cat2("last_error=", terminal::quote(error).as_str()));
    }
    assert(texts(parts@) =~= shown + (match opt_str(last_error) {
        Some(error) => seq!["last_error="@ + quoted(error)],
        None => Seq::empty(),
    }));
    text::joined(&parts, "; ")
}

/// The most likely reason why the dashboard was not reached.
pub open spec fn failure_hint(
    state: Option<DashboardPageState<Seq<char>>>,
    server_id: Option<Seq<char>>,
) -> Seq<char> {
    match state {
        None => "dashboard controls did not load"@,
        Some(state) => if state.controls_ready() && server_id is Some
            && state.dashboard_server_id_matches == Some(false) {
            "dashboard server id did not match configured SERVER_ID"@
        } else if state.controls_ready() && server_id is Some && !state.has_dashboard_server_id {
            "dashboard server id was not available"@
        } else if state.has_server_cards && server_id is Some && state.has_target_server_card
            != Some(true) {
            "configured SERVER_ID was not found on the server picker"@
        } else if state.has_server_cards && server_id is None && state.server_card_count > 1 {
            "multiple server cards; configure SERVER_ID"@
        } else {
            "dashboard controls did not load"@
        },
    }
}

/// The most likely reason why the dashboard was not reached.
pub fn dashboard_terminal_failure_hint(
    state: Option<&DashboardPageState>,
    server_id: Option<&str>,
) -> (r: &'static str)
    ensures
        r@ == failure_hint(
            match state {
                Some(state) => Some(state@),
                None => None,
            },
            opt_str(server_id),
        ),
{
    let state = match state {
        Some(state) => state,
        None => return "dashboard controls did not load",
    };
    let controls = state.dashboard_controls_ready();
    let configured = server_id.is_some();
    let mismatch = match state.dashboard_server_id_matches {
        Some(value) => !value,
        None => false,
    };
    let target = match state.has_target_server_card {
        Some(value) => value,
        None => false,
    };
    if controls && configured && mismatch {
        return "dashboard server id did not match configured SERVER_ID";
    }
    if controls && configured && !state.has_dashboard_server_id {
        return "dashboard server id was not available";
    }
    if state.has_server_cards && configured && !target {
        return "configured SERVER_ID was not found on the server picker";
    }
    if state.has_server_cards && !configured && state.server_card_count > 1 {
        return "multiple server cards; configure SERVER_ID";
    }
    "dashboard controls did not load"
}

/// Keeps the error, unless an earlier one is held.
pub fn remember_first_error(last_error: &mut Option<String>, error: String)
    ensures
        opt_text(*final(last_error)) == (match opt_text(*old(last_error)) {
            Some(first) => Some(first),
            None => Some(error@),
        }),
{
    if last_error.is_none() {
        *last_error = Some(error);
    }
}

} // verus!
