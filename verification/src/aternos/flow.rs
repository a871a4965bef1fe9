//! One attempt to start the server on its dashboard: log in, open the
//! dashboard, click, and see whether the start was accepted.

use vstd::prelude::*;
use crate::aternos::dashboard::DashboardState;
use crate::aternos::errors::{
    after_click, apply_post_click_submission_metadata, browser_failure_message,
    classify_browser_error, error_class, failure_message, failure_screenshot_or_checkpoint,
    is_retryable, is_retryable_browser_failure, BrowserError,
};
use crate::config::ArtifactCapture;
use crate::provider::{
    failure_view, provider_failure, ProviderMutation, ProviderStartFailure, ProviderStartResult,
    StartOutcome,
};
use crate::text;
use crate::text::opt_text;

verus! {

/// How often the start button is tried.
pub const START_RETRY_ATTEMPTS: u64 = 5;

/// The settling time of a page.
pub const PAGE_SETTLE_MS: u64 = 2_000;

/// The pause between scrolling to the button and clicking it.
pub const START_CLICK_SETTLE_MS: u64 = 500;

/// The pause after a click on the button.
pub const START_ACCEPT_WAIT_MS: u64 = 5_000;

/// The pause after dialogs were clicked.
pub const DIALOG_SETTLE_MS: u64 = 3_000;

/// The pause before the page is captured.
pub const FINAL_CAPTURE_SETTLE_MS: u64 = 500;

/// The captures of an attempt.
#[derive(Clone, Copy, Debug, PartialEq, Eq, Structural)]
pub enum Capture {
    /// A screenshot before the first click.
    BeforeStart,
    /// A screenshot of an accepted start.
    AfterStart,
    /// The page of an accepted start.
    AfterStartPage,
}

/// The fields and buttons of the login form.
#[derive(Clone, Copy, Debug, PartialEq, Eq, Structural)]
pub enum LoginElement {
    Username,
    Password,
    LoginButton,
}

/// What an attempt asks for next.
#[verifier::ext_equal]
#[derive(Debug)]
pub enum FlowAction<T = String, E = BrowserError> {
    OpenLoginPage,
    /// A short pause of random length.
    Delay,
    Pause { pause_ms: u64 },
    ClickConsent,
    DismissNotification,
    DismissBlockers,
    FailOnChallenge,
    WaitFor { element: LoginElement },
    Click { element: LoginElement },
    Type { element: LoginElement },
    OpenDashboard,
    ReadState,
    ScrollToStart,
    FindStart,
    ClickStart,
    ClickDialogs,
    LookForAd,
    /// Capture the page; where it is not wanted, nothing is captured.
    Take { capture: Capture, wanted: bool },
    /// The attempt is over.
    Finish { end: Result<ProviderStartResult<T>, BrowserFlowFailure<T, E>> },
}

/// An attempt that failed: why, whether the button had been clicked, and the
/// screenshot from before the click.
#[verifier::ext_equal]
#[derive(Debug)]
pub struct BrowserFlowFailure<T = String, E = BrowserError> {
    pub error: E,
    pub start_clicked: bool,
    pub checkpoint_screenshot_path: Option<T>,
}

impl View for BrowserFlowFailure<String, BrowserError> {
    type V = BrowserFlowFailure<Seq<char>, Seq<Seq<char>>>;

    open spec fn view(&self) -> BrowserFlowFailure<Seq<char>, Seq<Seq<char>>> {
        BrowserFlowFailure {
            error: self.error@,
            start_clicked: self.start_clicked,
            checkpoint_screenshot_path: opt_text(self.checkpoint_screenshot_path),
        }
    }
}

impl View for FlowAction<String, BrowserError> {
    type V = FlowAction<Seq<char>, Seq<Seq<char>>>;

    open spec fn view(&self) -> FlowAction<Seq<char>, Seq<Seq<char>>> {
        match *self {
            FlowAction::OpenLoginPage => FlowAction::OpenLoginPage,
            FlowAction::Delay => FlowAction::Delay,
            FlowAction::Pause { pause_ms } => FlowAction::Pause { pause_ms },
            FlowAction::ClickConsent => FlowAction::ClickConsent,
            FlowAction::DismissNotification => FlowAction::DismissNotification,
            FlowAction::DismissBlockers => FlowAction::DismissBlockers,
            FlowAction::FailOnChallenge => FlowAction::FailOnChallenge,
            FlowAction::WaitFor { element } => FlowAction::WaitFor { element },
            FlowAction::Click { element } => FlowAction::Click { element },
            FlowAction::Type { element } => FlowAction::Type { element },
            FlowAction::OpenDashboard => FlowAction::OpenDashboard,
            FlowAction::ReadState => FlowAction::ReadState,
            FlowAction::ScrollToStart => FlowAction::ScrollToStart,
            FlowAction::FindStart => FlowAction::FindStart,
            FlowAction::ClickStart => FlowAction::ClickStart,
            FlowAction::ClickDialogs => FlowAction::ClickDialogs,
            FlowAction::LookForAd => FlowAction::LookForAd,
            FlowAction::Take { capture, wanted } => FlowAction::Take { capture, wanted },
            FlowAction::Finish { end: Ok(result) } => FlowAction::Finish { end: Ok(result@) },
            FlowAction::Finish { end: Err(failure) } => FlowAction::Finish { end: Err(failure@) },
        }
    }
}

/// What came of an action.
#[verifier::ext_equal]
#[allow(inconsistent_fields)]
#[derive(Debug)]
pub enum FlowEvent<T = String, E = BrowserError> {
    Done { result: Result<(), E> },
    State { result: Result<DashboardState<T>, E> },
    /// Whether the start button was found.
    Found { button: bool },
    /// Whether an advertisement is in the way.
    Ad { result: Result<bool, E> },
    /// Where the capture stands, if it was made.
    Taken { path: Option<T> },
}

impl View for FlowEvent<String, BrowserError> {
    type V = FlowEvent<Seq<char>, Seq<Seq<char>>>;

    open spec fn view(&self) -> FlowEvent<Seq<char>, Seq<Seq<char>>> {
        match *self {
            FlowEvent::Done { result: Ok(done) } => FlowEvent::Done { result: Ok(done) },
            FlowEvent::Done { result: Err(error) } => FlowEvent::Done { result: Err(error@) },
            FlowEvent::State { result: Ok(state) } => FlowEvent::State { result: Ok(state@) },
            FlowEvent::State { result: Err(error) } => FlowEvent::State { result: Err(error@) },
            FlowEvent::Found { button } => FlowEvent::Found { button },
            FlowEvent::Ad { result: Ok(present) } => FlowEvent::Ad { result: Ok(present) },
            FlowEvent::Ad { result: Err(error) } => FlowEvent::Ad { result: Err(error@) },
            FlowEvent::Taken { path } => FlowEvent::Taken { path: opt_text(path) },
        }
    }
}

/// Which outcome an attempt waits for.
#[verifier::ext_equal]
#[derive(Debug)]
pub enum FlowPhase<T = String> {
    /// Step number `step` of the login.
    Login { step: u64 },
    /// The first look at the dashboard.
    FirstState,
    // One round of the start.
    RoundBlockers,
    RoundChallenge,
    RoundState,
    Scrolling,
    ScrollPause,
    Finding,
    Checkpoint,
    Clicking,
    AcceptPause,
    AcceptNotification,
    AcceptBlockers,
    Dialogs,
    DialogPause,
    DialogNotification,
    DialogBlockers,
    RoundStateAgain,
    /// Why the start was not accepted.
    AdLook,
    // The capture of an accepted start.
    FinalNotification,
    FinalPause,
    FinalScreenshot,
    FinalPage { screenshot_path: Option<T> },
    Over,
}

impl View for FlowPhase<String> {
    type V = FlowPhase<Seq<char>>;

    open spec fn view(&self) -> FlowPhase<Seq<char>> {
        match *self {
            FlowPhase::Login { step } => FlowPhase::Login { step },
            FlowPhase::FirstState => FlowPhase::FirstState,
            FlowPhase::RoundBlockers => FlowPhase::RoundBlockers,
            FlowPhase::RoundChallenge => FlowPhase::RoundChallenge,
            FlowPhase::RoundState => FlowPhase::RoundState,
            FlowPhase::Scrolling => FlowPhase::Scrolling,
            FlowPhase::ScrollPause => FlowPhase::ScrollPause,
            FlowPhase::Finding => FlowPhase::Finding,
            FlowPhase::Checkpoint => FlowPhase::Checkpoint,
            FlowPhase::Clicking => FlowPhase::Clicking,
            FlowPhase::AcceptPause => FlowPhase::AcceptPause,
            FlowPhase::AcceptNotification => FlowPhase::AcceptNotification,
            FlowPhase::AcceptBlockers => FlowPhase::AcceptBlockers,
            FlowPhase::Dialogs => FlowPhase::Dialogs,
            FlowPhase::DialogPause => FlowPhase::DialogPause,
            FlowPhase::DialogNotification => FlowPhase::DialogNotification,
            FlowPhase::DialogBlockers => FlowPhase::DialogBlockers,
            FlowPhase::RoundStateAgain => FlowPhase::RoundStateAgain,
            FlowPhase::AdLook => FlowPhase::AdLook,
            FlowPhase::FinalNotification => FlowPhase::FinalNotification,
            FlowPhase::FinalPause => FlowPhase::FinalPause,
            FlowPhase::FinalScreenshot => FlowPhase::FinalScreenshot,
            FlowPhase::FinalPage { screenshot_path } => FlowPhase::FinalPage {
                screenshot_path: opt_text(screenshot_path),
            },
            FlowPhase::Over => FlowPhase::Over,
        }
    }
}

/// One attempt. `round` counts the rounds of the start from one.
#[verifier::ext_equal]
#[derive(Debug)]
pub struct DashboardFlow<T = String> {
    pub artifact_capture: ArtifactCapture,
    pub round: u64,
    pub start_clicked: bool,
    pub checkpoint_screenshot_path: Option<T>,
    pub dashboard_status: T,
    pub phase: FlowPhase<T>,
}

impl View for DashboardFlow<String> {
    type V = DashboardFlow<Seq<char>>;

    open spec fn view(&self) -> DashboardFlow<Seq<char>> {
        DashboardFlow {
            artifact_capture: self.artifact_capture,
            round: self.round,
            start_clicked: self.start_clicked,
            checkpoint_screenshot_path: opt_text(self.checkpoint_screenshot_path),
            dashboard_status: self.dashboard_status@,
            phase: self.phase@,
        }
    }
}

/// An attempt and what it asks for.
pub type FlowStep = (DashboardFlow<Seq<char>>, FlowAction<Seq<char>, Seq<Seq<char>>>);

// ---------------------------------------------------------------------------
// The login
// ---------------------------------------------------------------------------

/// How many steps the login has, up to the open dashboard.
pub const LOGIN_STEPS: u64 = 28;

/// The steps of the login.
pub open spec fn login_action(step: u64) -> FlowAction<Seq<char>, Seq<Seq<char>>> {
    if step == 0 {
        FlowAction::OpenLoginPage
    } else if step == 2 {
        FlowAction::Pause { pause_ms: PAGE_SETTLE_MS }
    } else if step == 3 {
        FlowAction::ClickConsent
    } else if step == 4 || step == 25 {
        FlowAction::DismissNotification
    } else if step == 5 || step == 22 || step == 26 {
        FlowAction::DismissBlockers
    } else if step == 7 || step == 23 || step == 27 {
        FlowAction::FailOnChallenge
    } else if step == 8 {
        FlowAction::WaitFor { element: LoginElement::Username }
    } else if step == 10 {
        FlowAction::Click { element: LoginElement::Username }
    } else if step == 12 {
        FlowAction::Type { element: LoginElement::Username }
    } else if step == 14 {
        FlowAction::WaitFor { element: LoginElement::Password }
    } else if step == 15 {
        FlowAction::Click { element: LoginElement::Password }
    } else if step == 17 {
        FlowAction::Type { element: LoginElement::Password }
    } else if step == 19 {
        FlowAction::WaitFor { element: LoginElement::LoginButton }
    } else if step == 20 {
        FlowAction::Click { element: LoginElement::LoginButton }
    } else if step == 24 {
        FlowAction::OpenDashboard
    } else {
        FlowAction::Delay
    }
}

fn login(step: u64) -> (r: FlowAction)
    ensures
        r@ == login_action(step),
{
    if step == 0 {
        FlowAction::OpenLoginPage
    } else if step == 2 {
        FlowAction::Pause { pause_ms: PAGE_SETTLE_MS }
    } else if step == 3 {
        FlowAction::ClickConsent
    } else if step == 4 || step == 25 {
        FlowAction::DismissNotification
    } else if step == 5 || step == 22 || step == 26 {
        FlowAction::DismissBlockers
    } else if step == 7 || step == 23 || step == 27 {
        FlowAction::FailOnChallenge
    } else if step == 8 {
        FlowAction::WaitFor { element: LoginElement::Username }
    } else if step == 10 {
        FlowAction::Click { element: LoginElement::Username }
    } else if step == 12 {
        FlowAction::Type { element: LoginElement::Username }
    } else if step == 14 {
        FlowAction::WaitFor { element: LoginElement::Password }
    } else if step == 15 {
        FlowAction::Click { element: LoginElement::Password }
    } else if step == 17 {
        FlowAction::Type { element: LoginElement::Password }
    } else if step == 19 {
        FlowAction::WaitFor { element: LoginElement::LoginButton }
    } else if step == 20 {
        FlowAction::Click { element: LoginElement::LoginButton }
    } else if step == 24 {
        FlowAction::OpenDashboard
    } else {
        FlowAction::Delay
    }
}

// ---------------------------------------------------------------------------
// What each step is
// ---------------------------------------------------------------------------

/// What a phase waits for the outcome of.
pub open spec fn flow_awaits(
    phase: FlowPhase<Seq<char>>,
    event: FlowEvent<Seq<char>, Seq<Seq<char>>>,
) -> bool {
    match phase {
        FlowPhase::FirstState | FlowPhase::RoundState | FlowPhase::RoundStateAgain => event is State,
        FlowPhase::Finding => event is Found,
        FlowPhase::AdLook => event is Ad,
        FlowPhase::Checkpoint | FlowPhase::FinalScreenshot | FlowPhase::FinalPage { .. } => event
            is Taken,
        FlowPhase::Over => false,
        _ => event is Done,
    }
}

/// The attempt goes to `phase` and asks for `action`.
pub open spec fn moves(
    flow: DashboardFlow<Seq<char>>,
    phase: FlowPhase<Seq<char>>,
    action: FlowAction<Seq<char>, Seq<Seq<char>>>,
) -> FlowStep {
    (DashboardFlow { phase, ..flow }, action)
}

/// The attempt fails.
pub open spec fn breaks(flow: DashboardFlow<Seq<char>>, error: Seq<Seq<char>>) -> FlowStep {
    moves(
        flow,
        FlowPhase::Over,
        FlowAction::Finish {
            end: Err(
                BrowserFlowFailure {
                    error,
                    start_clicked: flow.start_clicked,
                    checkpoint_screenshot_path: flow.checkpoint_screenshot_path,
                },
            ),
        },
    )
}

/// A round of the start begins, or the reason is sought after the last one.
pub open spec fn begin_round(flow: DashboardFlow<Seq<char>>, round: u64) -> FlowStep {
    if round <= START_RETRY_ATTEMPTS {
        moves(
            DashboardFlow { round, ..flow },
            FlowPhase::RoundBlockers,
            FlowAction::DismissBlockers,
        )
    } else {
        moves(flow, FlowPhase::AdLook, FlowAction::LookForAd)
    }
}

/// The button is clicked.
pub open spec fn click(flow: DashboardFlow<Seq<char>>) -> FlowStep {
    moves(
        DashboardFlow { start_clicked: true, ..flow },
        FlowPhase::Clicking,
        FlowAction::ClickStart,
    )
}

/// The page is given time to accept the start.
pub open spec fn await_acceptance(flow: DashboardFlow<Seq<char>>) -> FlowStep {
    moves(flow, FlowPhase::AcceptPause, FlowAction::Pause { pause_ms: START_ACCEPT_WAIT_MS })
}

/// The start was accepted.
pub open spec fn accept(flow: DashboardFlow<Seq<char>>) -> FlowStep {
    moves(flow, FlowPhase::FinalNotification, FlowAction::DismissNotification)
}

/// A state of the dashboard was read.
pub open spec fn state_read(
    flow: DashboardFlow<Seq<char>>,
    state: DashboardState<Seq<char>>,
) -> FlowStep {
    let flow = DashboardFlow { dashboard_status: state.status, ..flow };
    match flow.phase {
        FlowPhase::FirstState => begin_round(flow, 1),
        FlowPhase::RoundState => if state.accepted {
            accept(flow)
        } else if state.start_button_visible {
            moves(flow, FlowPhase::Scrolling, FlowAction::ScrollToStart)
        } else {
            await_acceptance(flow)
        },
        _ => if state.accepted {
            accept(flow)
        } else {
            begin_round(flow, if flow.round < u64::MAX { (flow.round + 1) as u64 } else { u64::MAX })
        },
    }
}

/// An action that gives nothing back succeeded.
pub open spec fn done(flow: DashboardFlow<Seq<char>>) -> FlowStep {
    match flow.phase {
        FlowPhase::Login { step } => if step + 1 < LOGIN_STEPS {
            moves(
                flow,
                FlowPhase::Login { step: (step + 1) as u64 },
                login_action((step + 1) as u64),
            )
        } else {
            moves(flow, FlowPhase::FirstState, FlowAction::ReadState)
        },
        FlowPhase::RoundBlockers => moves(
            flow,
            FlowPhase::RoundChallenge,
            FlowAction::FailOnChallenge,
        ),
        FlowPhase::RoundChallenge => moves(flow, FlowPhase::RoundState, FlowAction::ReadState),
        FlowPhase::Scrolling => moves(
            flow,
            FlowPhase::ScrollPause,
            FlowAction::Pause { pause_ms: START_CLICK_SETTLE_MS },
        ),
        FlowPhase::ScrollPause => moves(flow, FlowPhase::Finding, FlowAction::FindStart),
        FlowPhase::Clicking => await_acceptance(flow),
        FlowPhase::AcceptPause => moves(
            flow,
            FlowPhase::AcceptNotification,
            FlowAction::DismissNotification,
        ),
        FlowPhase::AcceptNotification => moves(
            flow,
            FlowPhase::AcceptBlockers,
            FlowAction::DismissBlockers,
        ),
        FlowPhase::AcceptBlockers => moves(flow, FlowPhase::Dialogs, FlowAction::ClickDialogs),
        FlowPhase::Dialogs => moves(
            flow,
            FlowPhase::DialogPause,
            FlowAction::Pause { pause_ms: DIALOG_SETTLE_MS },
        ),
        FlowPhase::DialogPause => moves(
            flow,
            FlowPhase::DialogNotification,
            FlowAction::DismissNotification,
        ),
        FlowPhase::DialogNotification => moves(
            flow,
            FlowPhase::DialogBlockers,
            FlowAction::DismissBlockers,
        ),
        FlowPhase::DialogBlockers => moves(flow, FlowPhase::RoundStateAgain, FlowAction::ReadState),
        FlowPhase::FinalNotification => moves(
            flow,
            FlowPhase::FinalPause,
            FlowAction::Pause { pause_ms: FINAL_CAPTURE_SETTLE_MS },
        ),
        FlowPhase::FinalPause => moves(
            flow,
            FlowPhase::FinalScreenshot,
            FlowAction::Take {
                capture: Capture::AfterStart,
                wanted: flow.artifact_capture == ArtifactCapture::Screenshots
                    || flow.artifact_capture == ArtifactCapture::Full,
            },
        ),
        _ => arbitrary(),
    }
}

/// Why the start was not accepted.
pub open spec fn not_accepted(start_clicked: bool, ad_present: bool) -> Seq<char> {
    if ad_present {
        if start_clicked {
            "AdOverlayBlocked: an advertisement overlay blocked start confirmation"@
        } else {
            "AdOverlayBlocked: an advertisement overlay blocked the Aternos dashboard"@
        }
    } else if start_clicked {
        "StartNotAccepted: dashboard still appears offline after clicking start"@
    } else {
        "StartButtonUnavailable: could not click the Aternos start button"@
    }
}

/// A capture was made, or not.
pub open spec fn taken(flow: DashboardFlow<Seq<char>>, path: Option<Seq<char>>) -> FlowStep {
    match flow.phase {
        FlowPhase::Checkpoint => click(
            DashboardFlow { checkpoint_screenshot_path: path, ..flow },
        ),
        FlowPhase::FinalScreenshot => moves(
            flow,
            FlowPhase::FinalPage { screenshot_path: path },
            FlowAction::Take {
                capture: Capture::AfterStartPage,
                wanted: flow.artifact_capture == ArtifactCapture::Full,
            },
        ),
        FlowPhase::FinalPage { screenshot_path } => moves(
            flow,
            FlowPhase::Over,
            FlowAction::Finish {
                end: Ok(
                    ProviderStartResult {
                        outcome: if flow.start_clicked {
                            StartOutcome::StartClicked
                        } else {
                            StartOutcome::DashboardChanged
                        },
                        provider_status: flow.dashboard_status,
                        minecraft_address: None,
                        screenshot_path,
                        detail_artifact_path: path,
                    },
                ),
            },
        ),
        _ => arbitrary(),
    }
}

/// The next step of an attempt.
pub open spec fn flow_step(
    flow: DashboardFlow<Seq<char>>,
    event: FlowEvent<Seq<char>, Seq<Seq<char>>>,
) -> FlowStep {
    match event {
        FlowEvent::Done { result: Ok(_) } => done(flow),
        FlowEvent::Done { result: Err(error) } => breaks(flow, error),
        FlowEvent::State { result: Ok(state) } => state_read(flow, state),
        FlowEvent::State { result: Err(error) } => breaks(flow, error),
        FlowEvent::Found { button } => if !button {
            await_acceptance(flow)
        } else if flow.checkpoint_screenshot_path is None {
            moves(
                flow,
                FlowPhase::Checkpoint,
                FlowAction::Take {
                    capture: Capture::BeforeStart,
                    wanted: flow.artifact_capture != ArtifactCapture::Off,
                },
            )
        } else {
            click(flow)
        },
        FlowEvent::Ad { result: Ok(present) } => breaks(
            flow,
            seq![not_accepted(flow.start_clicked, present)],
        ),
        FlowEvent::Ad { result: Err(error) } => breaks(flow, error),
        FlowEvent::Taken { path } => taken(flow, path),
    }
}

// ---------------------------------------------------------------------------
// The steps
// ---------------------------------------------------------------------------

impl DashboardFlow<String> {
    /// An attempt that is about to begin, and what it asks for first.
    pub fn begin(artifact_capture: ArtifactCapture) -> (r: (DashboardFlow, FlowAction))
        ensures
            r.0@ == (DashboardFlow {
                artifact_capture,
                round: 0,
                start_clicked: false,
                checkpoint_screenshot_path: None,
                dashboard_status: ""@,
                phase: FlowPhase::Login { step: 0 },
            }),
            r.1@ == FlowAction::<Seq<char>, Seq<Seq<char>>>::OpenLoginPage,
            (r.0@, r.1@) == flow_after(artifact_capture, Seq::empty()),
    {
        let flow = DashboardFlow {
            artifact_capture,
            round: 0,
            start_clicked: false,
            checkpoint_screenshot_path: None,
            dashboard_status: "".to_owned(),
            phase: FlowPhase::Login { step: 0 },
        };
        (flow, FlowAction::OpenLoginPage)
    }

    fn to(self, phase: FlowPhase, action: FlowAction) -> (r: (DashboardFlow, FlowAction))
        ensures
            (r.0@, r.1@) == moves(self@, phase@, action@),
    {
        let mut flow = self;
        flow.phase = phase;
        (flow, action)
    }

    fn fail(self, error: BrowserError) -> (r: (DashboardFlow, FlowAction))
        ensures
            (r.0@, r.1@) == breaks(self@, error@),
    {
        let failure = BrowserFlowFailure {
            error,
            start_clicked: self.start_clicked,
            checkpoint_screenshot_path: text::copy_opt(&self.checkpoint_screenshot_path),
        };
        self.to(FlowPhase::Over, FlowAction::Finish { end: Err(failure) })
    }

    fn start_round(self, round: u64) -> (r: (DashboardFlow, FlowAction))
        ensures
            (r.0@, r.1@) == begin_round(self@, round),
    {
        if round <= START_RETRY_ATTEMPTS {
            let mut flow = self;
            flow.round = round;
            flow.to(FlowPhase::RoundBlockers, FlowAction::DismissBlockers)
        } else {
            self.to(FlowPhase::AdLook, FlowAction::LookForAd)
        }
    }

    fn click_start(self) -> (r: (DashboardFlow, FlowAction))
        ensures
            (r.0@, r.1@) == click(self@),
    {
        let mut flow = self;
        flow.start_clicked = true;
        flow.to(FlowPhase::Clicking, FlowAction::ClickStart)
    }

    fn rest(self) -> (r: (DashboardFlow, FlowAction))
        ensures
            (r.0@, r.1@) == await_acceptance(self@),
    {
        self.to(FlowPhase::AcceptPause, FlowAction::Pause { pause_ms: START_ACCEPT_WAIT_MS })
    }

    fn accepted(self) -> (r: (DashboardFlow, FlowAction))
        ensures
            (r.0@, r.1@) == accept(self@),
    {
        self.to(FlowPhase::FinalNotification, FlowAction::DismissNotification)
    }

    fn after_state(self, phase: FlowPhase, state: DashboardState) -> (r: (DashboardFlow, FlowAction))
        ensures
            (r.0@, r.1@) == state_read(DashboardFlow { phase: phase@, ..self@ }, state@),
    {
        let mut flow = self;
        flow.dashboard_status = state.status;
        match phase {
            FlowPhase::FirstState => flow.start_round(1),
            FlowPhase::RoundState => {
                if state.accepted {
                    flow.accepted()
                } else if state.start_button_visible {
                    flow.to(FlowPhase::Scrolling, FlowAction::ScrollToStart)
                } else {
                    flow.rest()
                }
            },
            _ => {
                if state.accepted {
                    flow.accepted()
                } else {
                    let round: u64 = if flow.round < u64::MAX { flow.round + 1 } else { u64::MAX };
                    flow.start_round(round)
                }
            },
        }
    }

    fn after_done(self, phase: FlowPhase) -> (r: (DashboardFlow, FlowAction))
        requires
            flow_awaits(phase@, FlowEvent::Done { result: Ok(()) }),
        ensures
            (r.0@, r.1@) == done(DashboardFlow { phase: phase@, ..self@ }),
    {
        match phase {
            FlowPhase::Login { step } => {
                if step < LOGIN_STEPS - 1 {
                    self.to(FlowPhase::Login { step: step + 1 }, login(step + 1))
                } else {
                    self.to(FlowPhase::FirstState, FlowAction::ReadState)
                }
            },
            FlowPhase::RoundBlockers => self.to(
                FlowPhase::RoundChallenge,
                FlowAction::FailOnChallenge,
            ),
            FlowPhase::RoundChallenge => self.to(FlowPhase::RoundState, FlowAction::ReadState),
            FlowPhase::Scrolling => self.to(
                FlowPhase::ScrollPause,
                FlowAction::Pause { pause_ms: START_CLICK_SETTLE_MS },
            ),
            FlowPhase::ScrollPause => self.to(FlowPhase::Finding, FlowAction::FindStart),
            FlowPhase::Clicking => self.rest(),
            FlowPhase::AcceptPause => self.to(
                FlowPhase::AcceptNotification,
                FlowAction::DismissNotification,
            ),
            FlowPhase::AcceptNotification => self.to(
                FlowPhase::AcceptBlockers,
                FlowAction::DismissBlockers,
            ),
            FlowPhase::AcceptBlockers => self.to(FlowPhase::Dialogs, FlowAction::ClickDialogs),
            FlowPhase::Dialogs => self.to(
                FlowPhase::DialogPause,
                FlowAction::Pause { pause_ms: DIALOG_SETTLE_MS },
            ),
            FlowPhase::DialogPause => self.to(
                FlowPhase::DialogNotification,
                FlowAction::DismissNotification,
            ),
            FlowPhase::DialogNotification => self.to(
                FlowPhase::DialogBlockers,
                FlowAction::DismissBlockers,
            ),
            FlowPhase::DialogBlockers => self.to(FlowPhase::RoundStateAgain, FlowAction::ReadState),
            FlowPhase::FinalNotification => self.to(
                FlowPhase::FinalPause,
                FlowAction::Pause { pause_ms: FINAL_CAPTURE_SETTLE_MS },
            ),
            FlowPhase::FinalPause => {
                let wanted = self.artifact_capture.capture_success_screenshot();
                self.to(
                    FlowPhase::FinalScreenshot,
                    FlowAction::Take { capture: Capture::AfterStart, wanted },
                )
            },
            _ => vstd::pervasive::unreached(),
        }
    }

    fn after_capture(self, phase: FlowPhase, path: Option<String>) -> (r: (DashboardFlow, FlowAction))
        requires
            flow_awaits(phase@, FlowEvent::Taken { path: None }),
        ensures
            (r.0@, r.1@) == taken(DashboardFlow { phase: phase@, ..self@ }, opt_text(path)),
    {
        match phase {
            FlowPhase::Checkpoint => {
                let mut flow = self;
                flow.checkpoint_screenshot_path = path;
                flow.click_start()
            },
            FlowPhase::FinalScreenshot => {
                let wanted = self.artifact_capture.capture_success_html();
                self.to(
                    FlowPhase::FinalPage { screenshot_path: path },
                    FlowAction::Take { capture: Capture::AfterStartPage, wanted },
                )
            },
            FlowPhase::FinalPage { screenshot_path } => {
                let result = ProviderStartResult {
                    outcome: if self.start_clicked {
                        StartOutcome::StartClicked
                    } else {
                        StartOutcome::DashboardChanged
                    },
                    provider_status: self.dashboard_status.clone(),
                    minecraft_address: None,
                    screenshot_path,
                    detail_artifact_path: path,
                };
                self.to(FlowPhase::Over, FlowAction::Finish { end: Ok(result) })
            },
            _ => vstd::pervasive::unreached(),
        }
    }

    fn after_search(self, button: bool) -> (r: (DashboardFlow, FlowAction))
        ensures
            (r.0@, r.1@) == flow_step(
                DashboardFlow { phase: FlowPhase::Finding, ..self@ },
                FlowEvent::Found { button },
            ),
    {
        if !button {
            self.rest()
        } else if self.checkpoint_screenshot_path.is_none() {
            let wanted = self.artifact_capture.capture_success_screenshot()
                || self.artifact_capture.capture_failure_screenshot();
            self.to(
                FlowPhase::Checkpoint,
                FlowAction::Take { capture: Capture::BeforeStart, wanted },
            )
        } else {
            self.click_start()
        }
    }

    fn after_ad_look(self, present: bool) -> (r: (DashboardFlow, FlowAction))
        ensures
            (r.0@, r.1@) == breaks(self@, seq![not_accepted(self@.start_clicked, present)]),
    {
        let message = if present {
            if self.start_clicked {
                "AdOverlayBlocked: an advertisement overlay blocked start confirmation"
            } else {
                "AdOverlayBlocked: an advertisement overlay blocked the Aternos dashboard"
            }
        } else if self.start_clicked {
            "StartNotAccepted: dashboard still appears offline after clicking start"
        } else {
            "StartButtonUnavailable: could not click the Aternos start button"
        };
        self.fail(BrowserError::new(message))
    }

    /// Takes the outcome that the attempt waits for to its next action.
    pub fn run_dashboard_flow(self, event: FlowEvent) -> (r: (DashboardFlow, FlowAction))
        requires
            flow_awaits(self@.phase, event@),
        ensures
            (r.0@, r.1@) == flow_step(self@, event@),
    {
        let phase = self.phase;
        let flow = DashboardFlow {
            artifact_capture: self.artifact_capture,
            round: self.round,
            start_clicked: self.start_clicked,
            checkpoint_screenshot_path: self.checkpoint_screenshot_path,
            dashboard_status: self.dashboard_status,
            phase: FlowPhase::Over,
        };
        match event {
            FlowEvent::Done { result: Ok(_) } => flow.after_done(phase),
            FlowEvent::Done { result: Err(error) } => flow.fail(error),
            FlowEvent::State { result: Ok(state) } => flow.after_state(phase, state),
            FlowEvent::State { result: Err(error) } => flow.fail(error),
            FlowEvent::Found { button } => flow.after_search(button),
            FlowEvent::Ad { result: Ok(present) } => flow.after_ad_look(present),
            FlowEvent::Ad { result: Err(error) } => flow.fail(error),
            FlowEvent::Taken { path } => flow.after_capture(phase, path),
        }
    }
}

// ---------------------------------------------------------------------------
// What an attempt amounts to
// ---------------------------------------------------------------------------

/// A failure of the browser before the attempt could begin.
pub fn setup_failure(message: &str, fallback: &str) -> (r: ProviderStartFailure)
    ensures
        r@ == failure_view(
            crate::aternos::errors::setup_class(message@, fallback@),
            message@,
            None,
            ProviderMutation::Nothing,
        ),
{
    let class = crate::aternos::errors::browser_setup_error_class(message, fallback);
    provider_failure(class.as_str(), message, None, ProviderMutation::Nothing)
}

/// The provider failure of a failed attempt, before its artifacts are taken.
pub open spec fn attempt_failure(
    failure: BrowserFlowFailure<Seq<char>, Seq<Seq<char>>>,
) -> ProviderStartFailure<Seq<char>> {
    after_click(
        failure_view(
            error_class(failure.error),
            failure_message(failure.error),
            None,
            ProviderMutation::Nothing,
        ),
        failure.start_clicked,
    )
}

/// The provider failure of a failed attempt, before its artifacts are taken.
pub fn classify_flow_failure(failure: &BrowserFlowFailure) -> (r: ProviderStartFailure)
    ensures
        r@ == attempt_failure(failure@),
{
    let class = classify_browser_error(&failure.error);
    let message = browser_failure_message(&failure.error);
    let mut failed = provider_failure(
        class.as_str(),
        message.as_str(),
        None,
        ProviderMutation::Nothing,
    );
    apply_post_click_submission_metadata(&mut failed, failure.start_clicked);
    failed
}

/// Whether the page of a failed attempt is captured: not where the attempt will
/// be repeated.
pub fn keeps_failure_artifacts(failure: &ProviderStartFailure, final_attempt: bool) -> (r: bool)
    ensures
        r == (!is_retryable(failure@) || final_attempt),
{
    !is_retryable_browser_failure(failure) || final_attempt
}

/// The failure with its artifacts.
pub fn run_browser_start_once(
    failure: ProviderStartFailure,
    screenshot_path: Option<String>,
    html_path: Option<String>,
    checkpoint_screenshot_path: Option<String>,
) -> (r: ProviderStartFailure)
    ensures
        r@ == (ProviderStartFailure {
            screenshot_path: if screenshot_path is None
                && failure.uncertain_mutation.starts_server() {
                opt_text(checkpoint_screenshot_path)
            } else {
                opt_text(screenshot_path)
            },
            detail_artifact_path: opt_text(html_path),
            ..failure@
        }),
{
    let submitted = failure.uncertain_mutation.may_have_started_server();
    let mut failed = failure;
    failed.screenshot_path =
    failure_screenshot_or_checkpoint(screenshot_path, submitted, checkpoint_screenshot_path);
    failed.detail_artifact_path = html_path;
    failed
}

// ---------------------------------------------------------------------------
// What holds of every attempt
// ---------------------------------------------------------------------------

/// Where an attempt stands, and what it asks for, after the given outcomes.
pub open spec fn flow_after(
    artifact_capture: ArtifactCapture,
    outcomes: Seq<FlowEvent<Seq<char>, Seq<Seq<char>>>>,
) -> FlowStep
    decreases outcomes.len(),
{
    if outcomes.len() == 0 {
        (
            DashboardFlow {
                artifact_capture,
                round: 0,
                start_clicked: false,
                checkpoint_screenshot_path: None,
                dashboard_status: ""@,
                phase: FlowPhase::Login { step: 0 },
            },
            FlowAction::OpenLoginPage,
        )
    } else {
        flow_step(flow_after(artifact_capture, outcomes.drop_last()).0, outcomes.last())
    }
}

/// Whether each outcome is one that the attempt waited for.
pub open spec fn is_attempt(
    artifact_capture: ArtifactCapture,
    outcomes: Seq<FlowEvent<Seq<char>, Seq<Seq<char>>>>,
) -> bool {
    forall|n: int|
        0 <= n < outcomes.len() ==> flow_awaits(
            flow_after(artifact_capture, outcomes.take(n)).0.phase,
            #[trigger] outcomes[n],
        )
}

/// How often the button has been clicked after the first `n` outcomes.
pub open spec fn clicks(
    artifact_capture: ArtifactCapture,
    outcomes: Seq<FlowEvent<Seq<char>, Seq<Seq<char>>>>,
    n: int,
) -> nat
    decreases n,
{
    if n <= 0 {
        0
    } else {
        clicks(artifact_capture, outcomes, n - 1) + if flow_after(
            artifact_capture,
            outcomes.take(n),
        ).1 is ClickStart {
            1nat
        } else {
            0nat
        }
    }
}

/// Whether the click of the present round lies behind an attempt.
spec fn round_clicked(phase: FlowPhase<Seq<char>>) -> bool {
    match phase {
        FlowPhase::Login { .. } | FlowPhase::FirstState | FlowPhase::RoundBlockers
        | FlowPhase::RoundChallenge | FlowPhase::RoundState | FlowPhase::Scrolling
        | FlowPhase::ScrollPause | FlowPhase::Finding | FlowPhase::Checkpoint => false,
        _ => true,
    }
}

/// An attempt clicks the start button at most once a round, and so at most five
/// times; it says that it clicked exactly where it did.
pub proof fn clicks_are_counted_and_told(
    artifact_capture: ArtifactCapture,
    outcomes: Seq<FlowEvent<Seq<char>, Seq<Seq<char>>>>,
    n: int,
)
    requires
        is_attempt(artifact_capture, outcomes),
        0 <= n <= outcomes.len(),
    ensures
        clicks(artifact_capture, outcomes, n) <= START_RETRY_ATTEMPTS,
        flow_after(artifact_capture, outcomes.take(n)).0.start_clicked <==> clicks(
            artifact_capture,
            outcomes,
            n,
        ) > 0,
        flow_after(artifact_capture, outcomes.take(n)).1 matches FlowAction::Finish {
            end: Err(failure),
        } ==> (failure.start_clicked <==> clicks(artifact_capture, outcomes, n) > 0),
{
    lemma_clicks(artifact_capture, outcomes, n);
}

proof fn lemma_clicks(
    artifact_capture: ArtifactCapture,
    outcomes: Seq<FlowEvent<Seq<char>, Seq<Seq<char>>>>,
    n: int,
)
    requires
        is_attempt(artifact_capture, outcomes),
        0 <= n <= outcomes.len(),
    ensures
        ({
            let (flow, action) = flow_after(artifact_capture, outcomes.take(n));
            let count = clicks(artifact_capture, outcomes, n);
            &&& flow.round <= START_RETRY_ATTEMPTS
            &&& flow.start_clicked <==> count > 0
            &&& count <= flow.round
            &&& !round_clicked(flow.phase) && flow.round > 0 ==> count <= flow.round - 1
            &&& (flow.phase is Login || flow.phase is FirstState) <==> flow.round == 0 && !(flow.phase
                is Over)
            &&& action matches FlowAction::Finish { end: Err(failure) } ==> failure.start_clicked
                == flow.start_clicked
        }),
    decreases n,
{
    if n > 0 {
        lemma_clicks(artifact_capture, outcomes, n - 1);
        assert(outcomes.take(n).drop_last() =~= outcomes.take(n - 1));
        assert(outcomes.take(n).last() == outcomes[n - 1]);
        let before = flow_after(artifact_capture, outcomes.take(n - 1));
        assert(flow_awaits(before.0.phase, outcomes[n - 1]));
    }
}

/// A start counts as accepted only after the dashboard showed that it was.
pub proof fn acceptance_is_seen(
    flow: DashboardFlow<Seq<char>>,
    event: FlowEvent<Seq<char>, Seq<Seq<char>>>,
)
    requires
        flow_awaits(flow.phase, event),
        flow_step(flow, event).0.phase is FinalNotification,
    ensures
        event matches FlowEvent::State { result: Ok(state) } && state.accepted,
{
}

/// Whether the last state that was read among the first `n` outcomes is the one
/// at `k`, and was accepted.
pub open spec fn accepted_last(
    outcomes: Seq<FlowEvent<Seq<char>, Seq<Seq<char>>>>,
    n: int,
    k: int,
) -> bool {
    &&& 0 <= k < n
    &&& outcomes[k] matches FlowEvent::State { result: Ok(state) } && state.accepted
    &&& forall|j: int| k < j < n ==> !(#[trigger] outcomes[j] is State)
}

/// The status that a read showed.
pub open spec fn status_read(event: FlowEvent<Seq<char>, Seq<Seq<char>>>) -> Seq<char> {
    match event {
        FlowEvent::State { result: Ok(state) } => state.status,
        _ => arbitrary(),
    }
}

/// A successful attempt reports the status of the last state that it read, and
/// that state was accepted.
pub proof fn success_reports_the_accepted_state(
    artifact_capture: ArtifactCapture,
    outcomes: Seq<FlowEvent<Seq<char>, Seq<Seq<char>>>>,
    n: int,
)
    requires
        is_attempt(artifact_capture, outcomes),
        0 <= n <= outcomes.len(),
    ensures
        flow_after(artifact_capture, outcomes.take(n)).1 matches FlowAction::Finish { end: Ok(result) }
            ==> exists|k: int| #[trigger]
            accepted_last(outcomes, n, k) && result.provider_status == status_read(outcomes[k]),
{
    reveal(stands);
    assert forall|m: int| 0 <= m < n implies #[trigger] accepts_only_seen(artifact_capture, outcomes, m) by {
        lemma_accepts_only_seen(artifact_capture, outcomes, m);
    }
    lemma_accepted(artifact_capture, outcomes, n);
}

/// Where an attempt stands after the first `n` outcomes.
#[verifier::opaque]
spec fn stands(
    artifact_capture: ArtifactCapture,
    outcomes: Seq<FlowEvent<Seq<char>, Seq<Seq<char>>>>,
    n: int,
) -> FlowStep {
    flow_after(artifact_capture, outcomes.take(n))
}

/// Whether an attempt has seen the start accepted.
#[verifier::opaque]
spec fn is_accepted(step: FlowStep) -> bool {
    match step.0.phase {
        FlowPhase::FinalNotification | FlowPhase::FinalPause | FlowPhase::FinalScreenshot
        | FlowPhase::FinalPage { .. } => true,
        FlowPhase::Over => step.1 matches FlowAction::Finish { end: Ok(_) },
        _ => false,
    }
}

/// Whether the outcome at `m` takes an attempt to an accepted start only by
/// showing it, and from there on only to a success with its status.
spec fn accepts_only_seen(
    artifact_capture: ArtifactCapture,
    outcomes: Seq<FlowEvent<Seq<char>, Seq<Seq<char>>>>,
    m: int,
) -> bool {
    let before = stands(artifact_capture, outcomes, m);
    let step = stands(artifact_capture, outcomes, m + 1);
    let event = outcomes[m];
    &&& is_accepted(step) && is_accepted(before) ==> !(event is State) && step.0.dashboard_status
        == before.0.dashboard_status
    &&& is_accepted(step) && !is_accepted(before) ==> (event matches FlowEvent::State {
        result: Ok(state),
    } && state.accepted) && step.0.dashboard_status == status_read(event)
    &&& step.1 matches FlowAction::Finish { end: Ok(result) } ==> is_accepted(step)
        && result.provider_status == step.0.dashboard_status
}

proof fn lemma_accepts_only_seen(
    artifact_capture: ArtifactCapture,
    outcomes: Seq<FlowEvent<Seq<char>, Seq<Seq<char>>>>,
    m: int,
)
    requires
        is_attempt(artifact_capture, outcomes),
        0 <= m < outcomes.len(),
    ensures
        accepts_only_seen(artifact_capture, outcomes, m),
{
    reveal(is_accepted);
    reveal(stands);
    let before = flow_after(artifact_capture, outcomes.take(m));
    assert(outcomes.take(m + 1).drop_last() =~= outcomes.take(m));
    assert(outcomes.take(m + 1).last() == outcomes[m]);
    assert(flow_awaits(before.0.phase, outcomes[m]));
}

proof fn lemma_accepted(
    artifact_capture: ArtifactCapture,
    outcomes: Seq<FlowEvent<Seq<char>, Seq<Seq<char>>>>,
    n: int,
)
    requires
        0 <= n <= outcomes.len(),
        forall|m: int| 0 <= m < n ==> #[trigger] accepts_only_seen(artifact_capture, outcomes, m),
    ensures
        ({
            let step = stands(artifact_capture, outcomes, n);
            &&& is_accepted(step) ==> exists|k: int| #[trigger]
                accepted_last(outcomes, n, k) && step.0.dashboard_status == status_read(outcomes[k])
            &&& step.1 matches FlowAction::Finish { end: Ok(result) } ==> is_accepted(step)
                && result.provider_status == step.0.dashboard_status
        }),
    decreases n,
{
    let step = stands(artifact_capture, outcomes, n);
    if n <= 0 {
        assert(!is_accepted(step) && !(step.1 is Finish)) by {
            reveal(is_accepted);
            reveal(stands);
        }
    } else {
        lemma_accepted(artifact_capture, outcomes, n - 1);
        let before = stands(artifact_capture, outcomes, n - 1);
        assert(accepts_only_seen(artifact_capture, outcomes, n - 1));
        if is_accepted(step) {
            if is_accepted(before) {
                let k = choose|k: int| #[trigger]
                    accepted_last(outcomes, n - 1, k) && before.0.dashboard_status == status_read(
                        outcomes[k],
                    );
                assert(accepted_last(outcomes, n, k));
            } else {
                assert(accepted_last(outcomes, n, n - 1));
            }
        }
    }
}

/// An attempt that clicked the start button is not repeated, whatever it ran
/// into afterwards.
pub proof fn clicked_attempts_are_not_repeated(failure: BrowserFlowFailure<Seq<char>, Seq<Seq<char>>>)
    requires
        failure.start_clicked,
    ensures
        !is_retryable(attempt_failure(failure)),
{
}

/// How many actions an attempt asks for at most before it is over.
pub open spec fn attempt_left(flow: DashboardFlow<Seq<char>>) -> int {
    let later_rounds = (START_RETRY_ATTEMPTS - flow.round) * 16;
    match flow.phase {
        FlowPhase::Login { step } => later_rounds + 5 + LOGIN_STEPS - step,
        FlowPhase::FirstState => later_rounds + 5,
        FlowPhase::RoundBlockers => later_rounds + 20,
        FlowPhase::RoundChallenge => later_rounds + 19,
        FlowPhase::RoundState => later_rounds + 18,
        FlowPhase::Scrolling => later_rounds + 17,
        FlowPhase::ScrollPause => later_rounds + 16,
        FlowPhase::Finding => later_rounds + 15,
        FlowPhase::Checkpoint => later_rounds + 14,
        FlowPhase::Clicking => later_rounds + 13,
        FlowPhase::AcceptPause => later_rounds + 12,
        FlowPhase::AcceptNotification => later_rounds + 11,
        FlowPhase::AcceptBlockers => later_rounds + 10,
        FlowPhase::Dialogs => later_rounds + 9,
        FlowPhase::DialogPause => later_rounds + 8,
        FlowPhase::DialogNotification => later_rounds + 7,
        FlowPhase::DialogBlockers => later_rounds + 6,
        FlowPhase::RoundStateAgain => later_rounds + 5,
        FlowPhase::FinalNotification => 4,
        FlowPhase::FinalPause => 3,
        FlowPhase::FinalScreenshot => 2,
        FlowPhase::FinalPage { .. } | FlowPhase::AdLook => 1,
        FlowPhase::Over => 0,
    }
}

/// Whether an attempt is within its login and its rounds.
pub open spec fn within_bounds(flow: DashboardFlow<Seq<char>>) -> bool {
    match flow.phase {
        FlowPhase::Login { step } => flow.round == 0 && step < LOGIN_STEPS,
        FlowPhase::FirstState => flow.round == 0,
        _ => flow.round <= START_RETRY_ATTEMPTS,
    }
}

/// An attempt is over after a bounded number of actions, whatever the pages
/// show. It begins within its bounds and stays there.
pub proof fn attempts_end(
    flow: DashboardFlow<Seq<char>>,
    event: FlowEvent<Seq<char>, Seq<Seq<char>>>,
)
    requires
        flow_awaits(flow.phase, event),
        within_bounds(flow),
    ensures
        within_bounds(flow_step(flow, event).0),
        0 <= attempt_left(flow_step(flow, event).0) < attempt_left(flow) <= 113,
{
}

} // verus!
