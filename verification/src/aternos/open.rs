//! Getting from wherever the browser is to the dashboard of the configured
//! server.

use vstd::prelude::*;
use crate::aternos::dashboard::{
    dashboard_failure_detail, dashboard_open_action, dashboard_terminal_failure_hint,
    failure_detail, failure_hint, open_action, opt_page, remember_first_error, DashboardOpenAction,
    DashboardPageState, ServerCardSelection,
};
use crate::aternos::errors::BrowserError;
use crate::pterodactyl::allocation::{later, time_after};
use crate::terminal;
use crate::terminal::cleaned;
use crate::text;
use crate::text::opt_text;

verus! {

/// How often the dashboard is tried.
pub const DASHBOARD_OPEN_ATTEMPTS: u64 = 3;

/// How long a page may take to show the controls.
pub const DASHBOARD_READY_WAIT_MS: u64 = 10_000;

/// The pause between two looks at the page.
pub const DASHBOARD_POLL_MS: u64 = 500;

/// The pages that are opened on the way.
#[derive(Clone, Copy, Debug, PartialEq, Eq, Structural)]
pub enum DashboardPage {
    /// The dashboard of the last used server.
    Server,
    /// The list of servers.
    Picker,
}

/// What the way asks for next.
#[verifier::ext_equal]
#[derive(Debug)]
pub enum OpenAction<E = BrowserError> {
    /// Dismiss prompts and blockers, and fail on a browser challenge.
    ClearPage,
    /// Look at the page.
    Look,
    ClickCard { selection: ServerCardSelection },
    /// A short pause of random length.
    Delay,
    /// Open a page and let it settle.
    Navigate { page: DashboardPage },
    Pause { pause_ms: u64 },
    /// The way is over: the dashboard is reached, or not.
    Finish { end: Result<(), E> },
}

impl View for OpenAction<BrowserError> {
    type V = OpenAction<Seq<Seq<char>>>;

    open spec fn view(&self) -> OpenAction<Seq<Seq<char>>> {
        match *self {
            OpenAction::ClearPage => OpenAction::ClearPage,
            OpenAction::Look => OpenAction::Look,
            OpenAction::ClickCard { selection } => OpenAction::ClickCard { selection },
            OpenAction::Delay => OpenAction::Delay,
            OpenAction::Navigate { page } => OpenAction::Navigate { page },
            OpenAction::Pause { pause_ms } => OpenAction::Pause { pause_ms },
            OpenAction::Finish { end: Ok(done) } => OpenAction::Finish { end: Ok(done) },
            OpenAction::Finish { end: Err(error) } => OpenAction::Finish { end: Err(error@) },
        }
    }
}

/// What came of an action.
#[verifier::ext_equal]
#[derive(Debug)]
pub enum OpenEvent<T = String, E = BrowserError> {
    Cleared { result: Result<(), E> },
    /// What a look shows, or the message of its error.
    Seen { page: Result<DashboardPageState<T>, T> },
    Clicked { hit: Result<bool, E> },
    Rested,
    /// The message of the error of a navigation, if any.
    Navigated { error: Option<T> },
}

impl View for OpenEvent<String, BrowserError> {
    type V = OpenEvent<Seq<char>, Seq<Seq<char>>>;

    open spec fn view(&self) -> OpenEvent<Seq<char>, Seq<Seq<char>>> {
        match *self {
            OpenEvent::Cleared { result: Ok(done) } => OpenEvent::Cleared { result: Ok(done) },
            OpenEvent::Cleared { result: Err(error) } => OpenEvent::Cleared { result: Err(error@) },
            OpenEvent::Seen { page: Ok(state) } => OpenEvent::Seen { page: Ok(state@) },
            OpenEvent::Seen { page: Err(message) } => OpenEvent::Seen { page: Err(message@) },
            OpenEvent::Clicked { hit: Ok(hit) } => OpenEvent::Clicked { hit: Ok(hit) },
            OpenEvent::Clicked { hit: Err(error) } => OpenEvent::Clicked { hit: Err(error@) },
            OpenEvent::Rested => OpenEvent::Rested,
            OpenEvent::Navigated { error } => OpenEvent::Navigated { error: opt_text(error) },
        }
    }
}

/// Which outcome the way waits for. Each attempt has two halves: the page as it
/// is, then the freshly opened dashboard, on which a lone card may be taken.
#[derive(Clone, Copy, Debug, PartialEq, Eq, Structural)]
pub enum OpenPhase {
    Clearing { second: bool },
    Looking { second: bool },
    Clicking { second: bool },
    ClickRest { second: bool },
    PickerFirst { second: bool },
    /// A look within a wait, which ends at the deadline.
    WaitLook { second: bool, deadline: u64 },
    WaitClick { second: bool, deadline: u64 },
    WaitPicker { second: bool, deadline: u64 },
    WaitPause { second: bool, deadline: u64 },
    BeforeNavigation,
    Navigating,
    LastLook,
    Over,
}

/// The way to the dashboard.
#[verifier::ext_equal]
#[derive(Debug)]
pub struct OpenFlow<T = String> {
    pub server_id: Option<T>,
    pub attempt: u64,
    pub last_error: Option<T>,
    pub last_state: Option<DashboardPageState<T>>,
    pub phase: OpenPhase,
}

impl View for OpenFlow<String> {
    type V = OpenFlow<Seq<char>>;

    open spec fn view(&self) -> OpenFlow<Seq<char>> {
        OpenFlow {
            server_id: opt_text(self.server_id),
            attempt: self.attempt,
            last_error: opt_text(self.last_error),
            last_state: opt_page(self.last_state),
            phase: self.phase,
        }
    }
}

/// A way and what it asks for.
pub type OpenStep = (OpenFlow<Seq<char>>, OpenAction<Seq<Seq<char>>>);

// ---------------------------------------------------------------------------
// What each step is
// ---------------------------------------------------------------------------

/// What a phase waits for the outcome of.
pub open spec fn open_awaits(phase: OpenPhase, event: OpenEvent<Seq<char>, Seq<Seq<char>>>) -> bool {
    match phase {
        OpenPhase::Clearing { .. } => event is Cleared,
        OpenPhase::Looking { .. } | OpenPhase::WaitLook { .. } | OpenPhase::LastLook => event is Seen,
        OpenPhase::Clicking { .. } | OpenPhase::WaitClick { .. } => event is Clicked,
        OpenPhase::ClickRest { .. } | OpenPhase::WaitPause { .. } | OpenPhase::BeforeNavigation => event
            is Rested,
        OpenPhase::PickerFirst { .. } | OpenPhase::WaitPicker { .. } | OpenPhase::Navigating => event
            is Navigated,
        OpenPhase::Over => false,
    }
}

/// The way goes to `phase` and asks for `action`.
pub open spec fn goes(
    flow: OpenFlow<Seq<char>>,
    phase: OpenPhase,
    action: OpenAction<Seq<Seq<char>>>,
) -> OpenStep {
    (OpenFlow { phase, ..flow }, action)
}

/// The way is over.
pub open spec fn arrives(flow: OpenFlow<Seq<char>>, end: Result<(), Seq<Seq<char>>>) -> OpenStep {
    goes(flow, OpenPhase::Over, OpenAction::Finish { end })
}

/// The way remembers the error, unless it remembers an earlier one.
pub open spec fn noting(flow: OpenFlow<Seq<char>>, error: Seq<char>) -> OpenFlow<Seq<char>> {
    OpenFlow {
        last_error: match flow.last_error {
            Some(first) => Some(first),
            None => Some(error),
        },
        ..flow
    }
}

/// The way remembers the error of a navigation, if there was one.
pub open spec fn noting_navigation(
    flow: OpenFlow<Seq<char>>,
    prefix: Seq<char>,
    error: Option<Seq<char>>,
) -> OpenFlow<Seq<char>> {
    match error {
        Some(message) => noting(flow, prefix + cleaned(message)),
        None => flow,
    }
}

/// The dashboard was not reached, for this reason.
pub open spec fn not_reached(
    reason: Seq<char>,
    state: Option<DashboardPageState<Seq<char>>>,
    last_error: Option<Seq<char>>,
) -> Seq<Seq<char>> {
    seq!["DashboardUnavailable: "@ + reason + "; "@ + failure_detail(state, last_error)]
}

/// A half of an attempt did not reach the dashboard.
pub open spec fn half_over(flow: OpenFlow<Seq<char>>, second: bool) -> OpenStep {
    if !second {
        goes(flow, OpenPhase::BeforeNavigation, OpenAction::Delay)
    } else if flow.attempt < DASHBOARD_OPEN_ATTEMPTS {
        goes(
            OpenFlow { attempt: (flow.attempt + 1) as u64, ..flow },
            OpenPhase::Clearing { second: false },
            OpenAction::ClearPage,
        )
    } else {
        goes(flow, OpenPhase::LastLook, OpenAction::Look)
    }
}

/// A wait for the controls begins.
pub open spec fn begin_waiting(flow: OpenFlow<Seq<char>>, second: bool, now: u64) -> OpenStep {
    goes(
        flow,
        OpenPhase::WaitLook { second, deadline: later(now, DASHBOARD_READY_WAIT_MS) },
        OpenAction::Look,
    )
}

/// A round of a wait is over.
pub open spec fn wait_on(flow: OpenFlow<Seq<char>>, second: bool, deadline: u64, now: u64) -> OpenStep {
    if now >= deadline {
        half_over(flow, second)
    } else {
        goes(
            flow,
            OpenPhase::WaitPause { second, deadline },
            OpenAction::Pause { pause_ms: DASHBOARD_POLL_MS },
        )
    }
}

/// The first look of a half.
pub open spec fn looked(
    flow: OpenFlow<Seq<char>>,
    second: bool,
    page: Result<DashboardPageState<Seq<char>>, Seq<char>>,
    now: u64,
) -> OpenStep {
    match page {
        Err(message) => half_over(
            noting(flow, "page inspection failed: "@ + cleaned(message)),
            second,
        ),
        Ok(state) => {
            let flow = OpenFlow { last_state: Some(state), ..flow };
            match open_action(state, flow.server_id, false, second) {
                DashboardOpenAction::Ready => arrives(flow, Ok(())),
                DashboardOpenAction::ClickServerCard(selection) => goes(
                    flow,
                    OpenPhase::Clicking { second },
                    OpenAction::ClickCard { selection },
                ),
                DashboardOpenAction::NavigateToServer => half_over(flow, second),
                DashboardOpenAction::Wait => begin_waiting(flow, second, now),
                DashboardOpenAction::NavigateToServerPicker => goes(
                    flow,
                    OpenPhase::PickerFirst { second },
                    OpenAction::Navigate { page: DashboardPage::Picker },
                ),
                DashboardOpenAction::Fail(detail) => arrives(
                    flow,
                    Err(not_reached(detail, Some(state), flow.last_error)),
                ),
            }
        },
    }
}

/// A look within a wait; at the deadline it is the last.
pub open spec fn wait_looked(
    flow: OpenFlow<Seq<char>>,
    second: bool,
    deadline: u64,
    page: Result<DashboardPageState<Seq<char>>, Seq<char>>,
    now: u64,
) -> OpenStep {
    match page {
        Err(message) => wait_on(
            noting(flow, "page inspection failed: "@ + cleaned(message)),
            second,
            deadline,
            now,
        ),
        Ok(state) => {
            let flow = OpenFlow { last_state: Some(state), ..flow };
            match open_action(state, flow.server_id, now >= deadline, second) {
                DashboardOpenAction::Ready => arrives(flow, Ok(())),
                DashboardOpenAction::ClickServerCard(selection) => goes(
                    flow,
                    OpenPhase::WaitClick { second, deadline },
                    OpenAction::ClickCard { selection },
                ),
                DashboardOpenAction::NavigateToServerPicker => goes(
                    flow,
                    OpenPhase::WaitPicker { second, deadline },
                    OpenAction::Navigate { page: DashboardPage::Picker },
                ),
                DashboardOpenAction::Fail(detail) => arrives(
                    flow,
                    Err(not_reached(detail, Some(state), flow.last_error)),
                ),
                DashboardOpenAction::NavigateToServer | DashboardOpenAction::Wait => wait_on(
                    flow,
                    second,
                    deadline,
                    now,
                ),
            }
        },
    }
}

/// The next step of the way.
pub open spec fn open_step(
    flow: OpenFlow<Seq<char>>,
    event: OpenEvent<Seq<char>, Seq<Seq<char>>>,
    now: u64,
) -> OpenStep {
    match (flow.phase, event) {
        (OpenPhase::Clearing { .. }, OpenEvent::Cleared { result: Err(error) }) => arrives(
            flow,
            Err(error),
        ),
        (OpenPhase::Clearing { second }, _) => goes(
            flow,
            OpenPhase::Looking { second },
            OpenAction::Look,
        ),
        (OpenPhase::Looking { second }, OpenEvent::Seen { page }) => looked(flow, second, page, now),
        (OpenPhase::Clicking { .. }, OpenEvent::Clicked { hit: Err(error) }) => arrives(
            flow,
            Err(error),
        ),
        (OpenPhase::Clicking { second }, OpenEvent::Clicked { hit: Ok(false) }) => half_over(
            noting(flow, "server card click returned false"@),
            second,
        ),
        (OpenPhase::Clicking { second }, _) => goes(
            flow,
            OpenPhase::ClickRest { second },
            OpenAction::Delay,
        ),
        (OpenPhase::ClickRest { second }, _) => begin_waiting(flow, second, now),
        (OpenPhase::PickerFirst { second }, OpenEvent::Navigated { error }) => begin_waiting(
            noting_navigation(flow, "server picker navigation failed: "@, error),
            second,
            now,
        ),
        (OpenPhase::WaitLook { second, deadline }, OpenEvent::Seen { page }) => wait_looked(
            flow,
            second,
            deadline,
            page,
            now,
        ),
        (OpenPhase::WaitClick { .. }, OpenEvent::Clicked { hit: Err(error) }) => arrives(
            flow,
            Err(error),
        ),
        (OpenPhase::WaitClick { second, deadline }, OpenEvent::Clicked { hit: Ok(hit) }) => wait_on(
            if hit {
                flow
            } else {
                noting(flow, "server card click returned false"@)
            },
            second,
            deadline,
            now,
        ),
        (OpenPhase::WaitPicker { second, deadline }, OpenEvent::Navigated { error }) => wait_on(
            noting_navigation(flow, "server picker navigation failed: "@, error),
            second,
            deadline,
            now,
        ),
        (OpenPhase::WaitPause { second, deadline }, _) => goes(
            flow,
            OpenPhase::WaitLook { second, deadline },
            OpenAction::Look,
        ),
        (OpenPhase::BeforeNavigation, _) => goes(
            flow,
            OpenPhase::Navigating,
            OpenAction::Navigate { page: DashboardPage::Server },
        ),
        (OpenPhase::Navigating, OpenEvent::Navigated { error }) => goes(
            noting_navigation(flow, "navigation failed: "@, error),
            OpenPhase::Clearing { second: true },
            OpenAction::ClearPage,
        ),
        (OpenPhase::LastLook, OpenEvent::Seen { page }) => {
            let state = match page {
                Ok(state) => Some(state),
                Err(_) => flow.last_state,
            };
            arrives(
                flow,
                Err(not_reached(failure_hint(state, flow.server_id), state, flow.last_error)),
            )
        },
        _ => arbitrary(),
    }
}

// ---------------------------------------------------------------------------
// The steps
// ---------------------------------------------------------------------------

impl OpenFlow<String> {
    /// A way that is about to begin, and what it asks for first.
    pub fn begin(server_id: Option<String>) -> (r: (OpenFlow, OpenAction))
        ensures
            r.0@ == (OpenFlow {
                server_id: opt_text(server_id),
                attempt: 1,
                last_error: None,
                last_state: None,
                phase: OpenPhase::Clearing { second: false },
            }),
            r.1@ == OpenAction::<Seq<Seq<char>>>::ClearPage,
    {
        let flow = OpenFlow {
            server_id,
            attempt: 1,
            last_error: None,
            last_state: None,
            phase: OpenPhase::Clearing { second: false },
        };
        (flow, OpenAction::ClearPage)
    }

    fn go(self, phase: OpenPhase, action: OpenAction) -> (r: (OpenFlow, OpenAction))
        ensures
            (r.0@, r.1@) == goes(self@, phase, action@),
    {
        let mut flow = self;
        flow.phase = phase;
        (flow, action)
    }

    fn arrive(self) -> (r: (OpenFlow, OpenAction))
        ensures
            (r.0@, r.1@) == arrives(self@, Ok(())),
    {
        self.go(OpenPhase::Over, OpenAction::Finish { end: Ok(()) })
    }

    fn give_up(self, error: BrowserError) -> (r: (OpenFlow, OpenAction))
        ensures
            (r.0@, r.1@) == arrives(self@, Err(error@)),
    {
        self.go(OpenPhase::Over, OpenAction::Finish { end: Err(error) })
    }

    fn note(self, error: String) -> (r: OpenFlow)
        ensures
            r@ == noting(self@, error@),
    {
        let mut flow = self;
        remember_first_error(&mut flow.last_error, error);
        flow
    }

    fn note_navigation(self, prefix: &str, error: Option<String>) -> (r: OpenFlow)
        ensures
            r@ == noting_navigation(self@, prefix@, opt_text(error)),
    {
        match error {
            Some(message) => self.note(
                text::cat2(prefix, terminal::clean(message.as_str()).as_str()),
            ),
            None => self,
        }
    }

    fn unreachable(&self, reason: &str, state: Option<&DashboardPageState>) -> (r: BrowserError)
        ensures
            r@ == not_reached(
                reason@,
                match state {
                    Some(state) => Some(state@),
                    None => None,
                },
                self@.last_error,
            ),
    {
        let last_error = match &self.last_error {
            Some(error) => Some(error.as_str()),
            None => None,
        };
        let detail = dashboard_failure_detail(state, last_error);
        BrowserError::new(
            text::cat4("DashboardUnavailable: ", reason, "; ", detail.as_str()).as_str(),
        )
    }

    fn end_half(self, second: bool) -> (r: (OpenFlow, OpenAction))
        ensures
            (r.0@, r.1@) == half_over(self@, second),
    {
        if !second {
            return self.go(OpenPhase::BeforeNavigation, OpenAction::Delay);
        }
        if self.attempt < DASHBOARD_OPEN_ATTEMPTS {
            let mut flow = self;
            flow.attempt = flow.attempt + 1;
            return flow.go(OpenPhase::Clearing { second: false }, OpenAction::ClearPage);
        }
        self.go(OpenPhase::LastLook, OpenAction::Look)
    }

    fn wait(self, second: bool, now: u64) -> (r: (OpenFlow, OpenAction))
        ensures
            (r.0@, r.1@) == begin_waiting(self@, second, now),
    {
        let deadline: u64 = time_after(now, DASHBOARD_READY_WAIT_MS);
        self.go(OpenPhase::WaitLook { second, deadline }, OpenAction::Look)
    }

    fn keep_waiting(self, second: bool, deadline: u64, now: u64) -> (r: (OpenFlow, OpenAction))
        ensures
            (r.0@, r.1@) == wait_on(self@, second, deadline, now),
    {
        if now >= deadline {
            self.end_half(second)
        } else {
            self.go(
                OpenPhase::WaitPause { second, deadline },
                OpenAction::Pause { pause_ms: DASHBOARD_POLL_MS },
            )
        }
    }

    fn action_for(&self, state: &DashboardPageState, last_look: bool, second: bool) -> (r: DashboardOpenAction)
        ensures
            r@ == open_action(state@, self@.server_id, last_look, second),
    {
        let server_id = match &self.server_id {
            Some(id) => Some(id.as_str()),
            None => None,
        };
        dashboard_open_action(state, server_id, last_look, second)
    }

    /// The first look of a half came back.
    fn handle_current_dashboard_state(
        self,
        second: bool,
        page: Result<DashboardPageState, String>,
        now: u64,
    ) -> (r: (OpenFlow, OpenAction))
        ensures
            (r.0@, r.1@) == looked(
                self@,
                second,
                match page {
                    Ok(state) => Ok(state@),
                    Err(message) => Err(message@),
                },
                now,
            ),
    {
        let state = match page {
            Ok(state) => state,
            Err(message) => {
                let note = text::cat2(
                    "page inspection failed: ",
                    terminal::clean(message.as_str()).as_str(),
                );
                return self.note(note).end_half(second);
            },
        };
        let action = self.action_for(&state, false, second);
        let mut flow = self;
        flow.last_state = Some(state.copied());
        match action {
            DashboardOpenAction::Ready => flow.arrive(),
            DashboardOpenAction::ClickServerCard(selection) => flow.go(
                OpenPhase::Clicking { second },
                OpenAction::ClickCard { selection },
            ),
            DashboardOpenAction::NavigateToServer => flow.end_half(second),
            DashboardOpenAction::Wait => flow.wait(second, now),
            DashboardOpenAction::NavigateToServerPicker => flow.go(
                OpenPhase::PickerFirst { second },
                OpenAction::Navigate { page: DashboardPage::Picker },
            ),
            DashboardOpenAction::Fail(detail) => {
                let error = flow.unreachable(detail, Some(&state));
                flow.give_up(error)
            },
        }
    }

    /// A look within a wait came back.
    fn wait_for_dashboard_ready(
        self,
        second: bool,
        deadline: u64,
        page: Result<DashboardPageState, String>,
        now: u64,
    ) -> (r: (OpenFlow, OpenAction))
        ensures
            (r.0@, r.1@) == wait_looked(
                self@,
                second,
                deadline,
                match page {
                    Ok(state) => Ok(state@),
                    Err(message) => Err(message@),
                },
                now,
            ),
    {
        let state = match page {
            Ok(state) => state,
            Err(message) => {
                let note = text::cat2(
                    "page inspection failed: ",
                    terminal::clean(message.as_str()).as_str(),
                );
                return self.note(note).keep_waiting(second, deadline, now);
            },
        };
        let action = self.action_for(&state, now >= deadline, second);
        let mut flow = self;
        flow.last_state = Some(state.copied());
        match action {
            DashboardOpenAction::Ready => flow.arrive(),
            DashboardOpenAction::ClickServerCard(selection) => flow.go(
                OpenPhase::WaitClick { second, deadline },
                OpenAction::ClickCard { selection },
            ),
            DashboardOpenAction::NavigateToServerPicker => flow.go(
                OpenPhase::WaitPicker { second, deadline },
                OpenAction::Navigate { page: DashboardPage::Picker },
            ),
            DashboardOpenAction::Fail(detail) => {
                let error = flow.unreachable(detail, Some(&state));
                flow.give_up(error)
            },
            _ => flow.keep_waiting(second, deadline, now),
        }
    }

    fn last_look(self, page: Result<DashboardPageState, String>) -> (r: (OpenFlow, OpenAction))
        ensures
            (r.0@, r.1@) == ({
                let state = match page {
                    Ok(state) => Some(state@),
                    Err(_) => self@.last_state,
                };
                arrives(
                    self@,
                    Err(not_reached(failure_hint(state, self@.server_id), state, self@.last_error)),
                )
            }),
    {
        let shown = match &page {
            Ok(state) => Some(state),
            Err(_) => self.last_state.as_ref(),
        };
        let server_id = match &self.server_id {
            Some(id) => Some(id.as_str()),
            None => None,
        };
        let hint = dashboard_terminal_failure_hint(shown, server_id);
        let error = self.unreachable(hint, shown);
        self.give_up(error)
    }

    /// Takes the outcome that the way waits for to its next action.
    pub fn open_server_dashboard(self, event: OpenEvent, now: u64) -> (r: (OpenFlow, OpenAction))
        requires
            open_awaits(self.phase, event@),
        ensures
            (r.0@, r.1@) == open_step(self@, event@, now),
    {
        let phase = self.phase;
        match (phase, event) {
            (OpenPhase::Clearing { .. }, OpenEvent::Cleared { result: Err(error) }) => self.give_up(error),
            (OpenPhase::Clearing { second }, _) => self.go(
                OpenPhase::Looking { second },
                OpenAction::Look,
            ),
            (OpenPhase::Looking { second }, OpenEvent::Seen { page }) => {
                self.handle_current_dashboard_state(second, page, now)
            },
            (OpenPhase::Clicking { .. }, OpenEvent::Clicked { hit: Err(error) }) => self.give_up(error),
            (OpenPhase::Clicking { second }, OpenEvent::Clicked { hit: Ok(hit) }) => {
                if hit {
                    self.go(OpenPhase::ClickRest { second }, OpenAction::Delay)
                } else {
                    self.note("server card click returned false".to_owned()).end_half(second)
                }
            },
            (OpenPhase::ClickRest { second }, _) => self.wait(second, now),
            (OpenPhase::PickerFirst { second }, OpenEvent::Navigated { error }) => self.note_navigation(
                "server picker navigation failed: ",
                error,
            ).wait(second, now),
            (OpenPhase::WaitLook { second, deadline }, OpenEvent::Seen { page }) => {
                self.wait_for_dashboard_ready(second, deadline, page, now)
            },
            (OpenPhase::WaitClick { .. }, OpenEvent::Clicked { hit: Err(error) }) => self.give_up(error),
            (OpenPhase::WaitClick { second, deadline }, OpenEvent::Clicked { hit: Ok(hit) }) => {
                let flow = if hit {
                    self
                } else {
                    self.note("server card click returned false".to_owned())
                };
                flow.keep_waiting(second, deadline, now)
            },
            (OpenPhase::WaitPicker { second, deadline }, OpenEvent::Navigated { error }) =>
                self.note_navigation("server picker navigation failed: ", error).keep_waiting(
                second,
                deadline,
                now,
            ),
            (OpenPhase::WaitPause { second, deadline }, _) => self.go(
                OpenPhase::WaitLook { second, deadline },
                OpenAction::Look,
            ),
            (OpenPhase::BeforeNavigation, _) => self.go(
                OpenPhase::Navigating,
                OpenAction::Navigate { page: DashboardPage::Server },
            ),
            (OpenPhase::Navigating, OpenEvent::Navigated { error }) => self.note_navigation(
                "navigation failed: ",
                error,
            ).go(OpenPhase::Clearing { second: true }, OpenAction::ClearPage),
            (OpenPhase::LastLook, OpenEvent::Seen { page }) => self.last_look(page),
            _ => vstd::pervasive::unreached(),
        }
    }
}

/// The dashboard counts as reached only after a look that showed the controls,
/// and with a configured server only where it showed that server.
pub proof fn arrival_needs_the_configured_server(
    flow: OpenFlow<Seq<char>>,
    event: OpenEvent<Seq<char>, Seq<Seq<char>>>,
    now: u64,
)
    requires
        open_awaits(flow.phase, event),
        open_step(flow, event, now).1 == (OpenAction::<Seq<Seq<char>>>::Finish { end: Ok(()) }),
    ensures
        event matches OpenEvent::Seen { page: Ok(state) } && state.ready_for(flow.server_id),
{
}

/// The first error on the way is the one that is told.
pub proof fn first_error_is_kept(
    flow: OpenFlow<Seq<char>>,
    event: OpenEvent<Seq<char>, Seq<Seq<char>>>,
    now: u64,
)
    requires
        open_awaits(flow.phase, event),
        flow.last_error is Some,
    ensures
        open_step(flow, event, now).0.last_error == flow.last_error,
{
}

/// How far a way is from its end, pauses of a wait aside.
pub open spec fn way_left(flow: OpenFlow<Seq<char>>) -> int {
    let later_attempts = (DASHBOARD_OPEN_ATTEMPTS - flow.attempt) * 20;
    match flow.phase {
        OpenPhase::Clearing { second } => later_attempts + 8 + first_half(second),
        OpenPhase::Looking { second } => later_attempts + 7 + first_half(second),
        OpenPhase::Clicking { second } | OpenPhase::PickerFirst { second } => later_attempts + 6
            + first_half(second),
        OpenPhase::ClickRest { second } => later_attempts + 5 + first_half(second),
        OpenPhase::WaitPause { second, .. } => later_attempts + 4 + first_half(second),
        OpenPhase::WaitLook { second, .. } => later_attempts + 3 + first_half(second),
        OpenPhase::WaitClick { second, .. } | OpenPhase::WaitPicker { second, .. } => later_attempts + 2
            + first_half(second),
        OpenPhase::BeforeNavigation => later_attempts + 10,
        OpenPhase::Navigating => later_attempts + 9,
        OpenPhase::LastLook => 1,
        OpenPhase::Over => 0,
    }
}

/// What the first half of an attempt has ahead of it beside its own steps.
pub open spec fn first_half(second: bool) -> int {
    if second {
        0
    } else {
        9
    }
}

/// The deadline of the wait that a way is in.
pub open spec fn way_deadline(phase: OpenPhase) -> Option<u64> {
    match phase {
        OpenPhase::WaitLook { deadline, .. }
        | OpenPhase::WaitClick { deadline, .. }
        | OpenPhase::WaitPicker { deadline, .. }
        | OpenPhase::WaitPause { deadline, .. } => Some(deadline),
        _ => None,
    }
}

/// Every step brings the way nearer to its end, but for a pause within a wait,
/// which is only made before the deadline of that wait and leaves the deadline as
/// it is. There are three attempts with two waits each at most, so a way ends.
pub proof fn ways_end(
    flow: OpenFlow<Seq<char>>,
    event: OpenEvent<Seq<char>, Seq<Seq<char>>>,
    now: u64,
)
    requires
        open_awaits(flow.phase, event),
        1 <= flow.attempt <= DASHBOARD_OPEN_ATTEMPTS,
    ensures
        1 <= open_step(flow, event, now).0.attempt <= DASHBOARD_OPEN_ATTEMPTS,
        match open_step(flow, event, now).0.phase {
            OpenPhase::WaitPause { deadline, .. } => now < deadline && way_deadline(flow.phase) == Some(
                deadline,
            ),
            _ => 0 <= way_left(open_step(flow, event, now).0) < way_left(flow),
        },
{
}

} // verus!
