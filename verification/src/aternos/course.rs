//! The course of an attempt on the dashboard, told over whole runs by what was
//! asked, what came back, and what was asked next.

use vstd::prelude::*;
use crate::aternos::dashboard::DashboardState;
use crate::aternos::flow::{
    flow_after, flow_awaits, flow_step, is_attempt, Capture, FlowAction, FlowEvent, FlowPhase,
    FlowStep, LoginElement,
};
use crate::config::ArtifactCapture;
use crate::provider::StartOutcome;

verus! {

/// The outcomes of an attempt's actions.
pub type Outcomes = Seq<FlowEvent<Seq<char>, Seq<Seq<char>>>>;

/// What an attempt has asked for after the first `n` outcomes.
pub open spec fn asked(
    artifact_capture: ArtifactCapture,
    outcomes: Outcomes,
    n: int,
) -> FlowAction<Seq<char>, Seq<Seq<char>>> {
    flow_after(artifact_capture, outcomes.take(n)).1
}

/// An action that gives nothing back and succeeded.
pub open spec fn is_done(event: FlowEvent<Seq<char>, Seq<Seq<char>>>) -> bool {
    event matches FlowEvent::Done { result: Ok(_) }
}

/// The error that came back, if any.
pub open spec fn error_of(event: FlowEvent<Seq<char>, Seq<Seq<char>>>) -> Option<Seq<Seq<char>>> {
    match event {
        FlowEvent::Done { result: Err(error) } => Some(error),
        FlowEvent::State { result: Err(error) } => Some(error),
        FlowEvent::Ad { result: Err(error) } => Some(error),
        _ => None,
    }
}

// ---------------------------------------------------------------------------
// Steps
// ---------------------------------------------------------------------------

/// Where an attempt stands after the first `n` outcomes.
#[verifier::opaque]
spec fn stands(artifact_capture: ArtifactCapture, outcomes: Outcomes, n: int) -> FlowStep {
    flow_after(artifact_capture, outcomes.take(n))
}

/// Where an attempt stands goes with what it asks for, and how far it has come.
#[verifier::opaque]
spec fn fits(step: FlowStep, n: int) -> bool {
    let action = step.1;
    match step.0.phase {
        FlowPhase::Login { step: number } => number == n && n < 28 && is_login_action(number as int, action),
        FlowPhase::FirstState => n == 28 && action is ReadState,
        FlowPhase::Over => action is Finish,
        FlowPhase::RoundBlockers | FlowPhase::AcceptBlockers | FlowPhase::DialogBlockers => n > 28 && action
            is DismissBlockers,
        FlowPhase::RoundChallenge => n > 28 && action is FailOnChallenge,
        FlowPhase::RoundState | FlowPhase::RoundStateAgain => n > 28 && action is ReadState,
        FlowPhase::Scrolling => n > 28 && action is ScrollToStart,
        FlowPhase::ScrollPause | FlowPhase::FinalPause => n > 28 && action == (FlowAction::<Seq<char>, Seq<Seq<char>>>::Pause {
            pause_ms: 500,
        }),
        FlowPhase::Finding => n > 28 && action is FindStart,
        FlowPhase::Checkpoint => n > 28 && (action matches FlowAction::Take { capture: Capture::BeforeStart, .. }),
        FlowPhase::Clicking => n > 28 && action is ClickStart && step.0.start_clicked,
        FlowPhase::AcceptPause => n > 28 && action == (FlowAction::<Seq<char>, Seq<Seq<char>>>::Pause { pause_ms: 5_000 }),
        FlowPhase::AcceptNotification | FlowPhase::DialogNotification | FlowPhase::FinalNotification => n > 28
            && action is DismissNotification,
        FlowPhase::Dialogs => n > 28 && action is ClickDialogs,
        FlowPhase::DialogPause => n > 28 && action == (FlowAction::<Seq<char>, Seq<Seq<char>>>::Pause { pause_ms: 3_000 }),
        FlowPhase::AdLook => n > 28 && action is LookForAd,
        FlowPhase::FinalScreenshot => n > 28 && (action matches FlowAction::Take { capture: Capture::AfterStart, .. }),
        FlowPhase::FinalPage { .. } => n > 28 && (action matches FlowAction::Take { capture: Capture::AfterStartPage, .. }),
    }
}

/// The actions of the login, in their order.
pub open spec fn is_login_action(n: int, action: FlowAction<Seq<char>, Seq<Seq<char>>>) -> bool {
    match action {
        FlowAction::OpenLoginPage => n == 0,
        FlowAction::Pause { pause_ms } => n == 2 && pause_ms == 2_000,
        FlowAction::ClickConsent => n == 3,
        FlowAction::DismissNotification => n == 4 || n == 25,
        FlowAction::DismissBlockers => n == 5 || n == 22 || n == 26,
        FlowAction::FailOnChallenge => n == 7 || n == 23 || n == 27,
        FlowAction::WaitFor { element: LoginElement::Username } => n == 8,
        FlowAction::Click { element: LoginElement::Username } => n == 10,
        FlowAction::Type { element: LoginElement::Username } => n == 12,
        FlowAction::WaitFor { element: LoginElement::Password } => n == 14,
        FlowAction::Click { element: LoginElement::Password } => n == 15,
        FlowAction::Type { element: LoginElement::Password } => n == 17,
        FlowAction::WaitFor { element: LoginElement::LoginButton } => n == 19,
        FlowAction::Click { element: LoginElement::LoginButton } => n == 20,
        FlowAction::OpenDashboard => n == 24,
        FlowAction::Delay => n == 1 || n == 6 || n == 9 || n == 11 || n == 13 || n == 16 || n == 18 || n == 21,
        _ => false,
    }
}

#[verifier::spinoff_prover]
proof fn lemma_fits_step(step: FlowStep, n: int, event: FlowEvent<Seq<char>, Seq<Seq<char>>>)
    requires
        fits(step, n),
        flow_awaits(step.0.phase, event),
        n >= 0,
    ensures
        fits(flow_step(step.0, event), n + 1),
{
    reveal(fits);
}

proof fn lemma_stands(artifact_capture: ArtifactCapture, outcomes: Outcomes, n: int)
    requires
        is_attempt(artifact_capture, outcomes),
        0 <= n <= outcomes.len(),
    ensures
        fits(stands(artifact_capture, outcomes, n), n),
        asked(artifact_capture, outcomes, n) == stands(artifact_capture, outcomes, n).1,
        n < outcomes.len() ==> flow_awaits(stands(artifact_capture, outcomes, n).0.phase, outcomes[n]),
        n < outcomes.len() ==> stands(artifact_capture, outcomes, n + 1) == flow_step(
            stands(artifact_capture, outcomes, n).0,
            outcomes[n],
        ),
        stands(artifact_capture, outcomes, n).0.artifact_capture == artifact_capture,
    decreases n,
{
    if n > 0 {
        lemma_stands(artifact_capture, outcomes, n - 1);
        lemma_fits_step(stands(artifact_capture, outcomes, n - 1), n - 1, outcomes[n - 1]);
        lemma_capture_kept(stands(artifact_capture, outcomes, n - 1), outcomes[n - 1]);
    } else {
        reveal(fits);
        reveal(stands);
        assert(outcomes.take(0) =~= Seq::<FlowEvent<Seq<char>, Seq<Seq<char>>>>::empty());
    }
    reveal(stands);
    if n < outcomes.len() {
        assert(flow_awaits(flow_after(artifact_capture, outcomes.take(n)).0.phase, outcomes[n]));
        assert(outcomes.take(n + 1).drop_last() =~= outcomes.take(n));
        assert(outcomes.take(n + 1).last() == outcomes[n]);
    }
}

proof fn lemma_capture_kept(step: FlowStep, event: FlowEvent<Seq<char>, Seq<Seq<char>>>)
    requires
        flow_awaits(step.0.phase, event),
    ensures
        flow_step(step.0, event).0.artifact_capture == step.0.artifact_capture,
{
}

// ---------------------------------------------------------------------------
// The login
// ---------------------------------------------------------------------------

/// An attempt logs in before anything else: as long as every step succeeds, it
/// opens the login page, types the name and the password, clicks the login button,
/// and opens the dashboard, each once and in that order, behind consent, blockers
/// and challenges.
#[verifier::spinoff_prover]
pub proof fn attempts_begin_with_the_login(artifact_capture: ArtifactCapture, outcomes: Outcomes, n: int)
    requires
        is_attempt(artifact_capture, outcomes),
        0 <= n <= outcomes.len(),
        n < outcomes.len() || !(asked(artifact_capture, outcomes, n) is Finish),
    ensures
        n < 28 ==> is_login_action(n, asked(artifact_capture, outcomes, n)),
        n == 28 ==> asked(artifact_capture, outcomes, n) is ReadState,
        forall|k: int| 0 <= k < n && k < 28 ==> is_done(#[trigger] outcomes[k]),
{
    assert(attempted(artifact_capture, outcomes)) by {
        reveal(attempted);
    }
    lemma_login_so_far(artifact_capture, outcomes, n);
}

/// Whether each outcome is one that the attempt waited for.
#[verifier::opaque]
spec fn attempted(artifact_capture: ArtifactCapture, outcomes: Outcomes) -> bool {
    is_attempt(artifact_capture, outcomes)
}

proof fn lemma_login_so_far(artifact_capture: ArtifactCapture, outcomes: Outcomes, n: int)
    requires
        attempted(artifact_capture, outcomes),
        0 <= n <= outcomes.len(),
        n < outcomes.len() || !(asked(artifact_capture, outcomes, n) is Finish),
    ensures
        n < 28 ==> is_login_action(n, asked(artifact_capture, outcomes, n)),
        n == 28 ==> asked(artifact_capture, outcomes, n) is ReadState,
        forall|k: int| 0 <= k < n && k < 28 ==> is_done(#[trigger] outcomes[k]),
{
    lemma_login_here(artifact_capture, outcomes, n);
    assert forall|k: int| 0 <= k < n && k < 28 implies is_done(#[trigger] outcomes[k]) by {
        lemma_login_step(artifact_capture, outcomes, k);
    }
}

#[verifier::spinoff_prover]
proof fn lemma_login_here(artifact_capture: ArtifactCapture, outcomes: Outcomes, n: int)
    requires
        attempted(artifact_capture, outcomes),
        0 <= n <= outcomes.len(),
        n < outcomes.len() || !(asked(artifact_capture, outcomes, n) is Finish),
    ensures
        n < 28 ==> is_login_action(n, asked(artifact_capture, outcomes, n)),
        n == 28 ==> asked(artifact_capture, outcomes, n) is ReadState,
{
    reveal(attempted);
    lemma_stands(artifact_capture, outcomes, n);
    reveal(fits);
}

#[verifier::spinoff_prover]
proof fn lemma_login_step(artifact_capture: ArtifactCapture, outcomes: Outcomes, k: int)
    requires
        attempted(artifact_capture, outcomes),
        0 <= k < outcomes.len(),
        k < 28,
        k + 1 < outcomes.len() || !(asked(artifact_capture, outcomes, k + 1) is Finish),
    ensures
        is_done(outcomes[k]),
{
    assert(is_attempt(artifact_capture, outcomes)) by {
        reveal(attempted);
    }
    lemma_stands(artifact_capture, outcomes, k);
    lemma_stands(artifact_capture, outcomes, k + 1);
    lemma_login_goes_on(stands(artifact_capture, outcomes, k), k, outcomes[k]);
}

#[verifier::spinoff_prover]
proof fn lemma_login_goes_on(step: FlowStep, n: int, event: FlowEvent<Seq<char>, Seq<Seq<char>>>)
    requires
        fits(step, n),
        0 <= n < 28,
        flow_awaits(step.0.phase, event),
    ensures
        !(flow_step(step.0, event).0.phase is Over) ==> is_done(event),
        flow_step(step.0, event).1 is Finish <==> !is_done(event),
        !(step.0.phase is Over),
{
    reveal(fits);
}

/// The dashboard is opened only after the name and the password were typed and the
/// login button was clicked, in that order, and each of them succeeded.
pub proof fn dashboards_are_opened_after_the_login(artifact_capture: ArtifactCapture, outcomes: Outcomes, n: int)
    requires
        is_attempt(artifact_capture, outcomes),
        0 <= n <= outcomes.len(),
        asked(artifact_capture, outcomes, n) is OpenDashboard,
    ensures
        exists|i: int, j: int, k: int|
            0 <= i < j < k < n && #[trigger] asked(artifact_capture, outcomes, i) == (FlowAction::<
                Seq<char>,
                Seq<Seq<char>>,
            >::Type { element: LoginElement::Username }) && #[trigger] asked(artifact_capture, outcomes, j) == (
            FlowAction::<Seq<char>, Seq<Seq<char>>>::Type { element: LoginElement::Password }) && #[trigger] asked(
                artifact_capture,
                outcomes,
                k,
            ) == (FlowAction::<Seq<char>, Seq<Seq<char>>>::Click { element: LoginElement::LoginButton }) && is_done(
                outcomes[i],
            ) && is_done(outcomes[j]) && is_done(outcomes[k]),
{
    lemma_stands(artifact_capture, outcomes, n);
    lemma_place_in_login(stands(artifact_capture, outcomes, n), n);
    attempts_begin_with_the_login(artifact_capture, outcomes, n);
    attempts_begin_with_the_login(artifact_capture, outcomes, 12);
    attempts_begin_with_the_login(artifact_capture, outcomes, 17);
    attempts_begin_with_the_login(artifact_capture, outcomes, 20);
    assert(is_done(outcomes[12]) && is_done(outcomes[17]) && is_done(outcomes[20]));
    assert(asked(artifact_capture, outcomes, 12) == (FlowAction::<Seq<char>, Seq<Seq<char>>>::Type {
        element: LoginElement::Username,
    }));
    assert(asked(artifact_capture, outcomes, 17) == (FlowAction::<Seq<char>, Seq<Seq<char>>>::Type {
        element: LoginElement::Password,
    }));
    assert(asked(artifact_capture, outcomes, 20) == (FlowAction::<Seq<char>, Seq<Seq<char>>>::Click {
        element: LoginElement::LoginButton,
    }));
}

proof fn lemma_place_in_login(step: FlowStep, n: int)
    requires
        fits(step, n),
    ensures
        step.1 is OpenDashboard ==> n == 24,
        step.1 is ClickStart || step.1 is ScrollToStart || step.1 is FindStart || step.1 is Take || step.1 is LookForAd
            || step.1 is ClickDialogs ==> n > 28,
{
    reveal(fits);
}

/// The start button is clicked only after the dashboard was opened.
pub proof fn clicks_follow_the_dashboard(artifact_capture: ArtifactCapture, outcomes: Outcomes, n: int)
    requires
        is_attempt(artifact_capture, outcomes),
        0 <= n <= outcomes.len(),
        asked(artifact_capture, outcomes, n) is ClickStart,
    ensures
        exists|k: int|
            0 <= k < n && #[trigger] asked(artifact_capture, outcomes, k) is OpenDashboard && is_done(outcomes[k]),
{
    lemma_stands(artifact_capture, outcomes, n);
    lemma_place_in_login(stands(artifact_capture, outcomes, n), n);
    attempts_begin_with_the_login(artifact_capture, outcomes, n);
    attempts_begin_with_the_login(artifact_capture, outcomes, 24);
    assert(is_done(outcomes[24]));
    assert(asked(artifact_capture, outcomes, 24) is OpenDashboard);
}

// ---------------------------------------------------------------------------
// The rounds
// ---------------------------------------------------------------------------

/// An error ends the attempt at once, and is what the attempt reports, with the
/// screenshot from before the first click.
#[verifier::spinoff_prover]
pub proof fn errors_end_the_attempt(
    artifact_capture: ArtifactCapture,
    outcomes: Outcomes,
    n: int,
    error: Seq<Seq<char>>,
)
    requires
        is_attempt(artifact_capture, outcomes),
        0 <= n < outcomes.len(),
        error_of(outcomes[n]) == Some(error),
    ensures
        asked(artifact_capture, outcomes, n + 1) matches FlowAction::Finish { end: Err(failure) } && failure.error
            == error && failure.checkpoint_screenshot_path == checkpoint(artifact_capture, outcomes, n),
{
    lemma_checkpoint(artifact_capture, outcomes, n);
    lemma_stands(artifact_capture, outcomes, n);
    lemma_stands(artifact_capture, outcomes, n + 1);
}

/// The rounds that have begun: each begins with a look for a challenge after the
/// login.
pub open spec fn rounds(artifact_capture: ArtifactCapture, outcomes: Outcomes, n: int) -> int
    decreases n,
{
    if n <= 28 {
        0
    } else {
        rounds(artifact_capture, outcomes, n - 1) + if asked(artifact_capture, outcomes, n) is FailOnChallenge {
            1int
        } else {
            0int
        }
    }
}

#[verifier::opaque]
spec fn counts(step: FlowStep, begun: int) -> bool {
    match step.0.phase {
        FlowPhase::Login { .. } | FlowPhase::FirstState => begun == 0,
        FlowPhase::RoundBlockers => begun == step.0.round - 1 && 1 <= step.0.round <= 5,
        FlowPhase::Over => true,
        _ => begun == step.0.round && 1 <= step.0.round <= 5,
    }
}

#[verifier::spinoff_prover]
proof fn lemma_counts_step(step: FlowStep, n: int, event: FlowEvent<Seq<char>, Seq<Seq<char>>>, begun: int)
    requires
        fits(step, n),
        n >= 0,
        flow_awaits(step.0.phase, event),
        counts(step, begun),
    ensures
        counts(
            flow_step(step.0, event),
            if n + 1 > 28 && flow_step(step.0, event).1 is FailOnChallenge {
                begun + 1
            } else {
                begun
            },
        ),
{
    reveal(fits);
    reveal(counts);
}

proof fn lemma_counts(artifact_capture: ArtifactCapture, outcomes: Outcomes, n: int)
    requires
        is_attempt(artifact_capture, outcomes),
        0 <= n <= outcomes.len(),
    ensures
        counts(stands(artifact_capture, outcomes, n), rounds(artifact_capture, outcomes, n)),
    decreases n,
{
    if n > 0 {
        lemma_counts(artifact_capture, outcomes, n - 1);
        lemma_stands(artifact_capture, outcomes, n - 1);
        lemma_stands(artifact_capture, outcomes, n);
        lemma_counts_step(
            stands(artifact_capture, outcomes, n - 1),
            n - 1,
            outcomes[n - 1],
            rounds(artifact_capture, outcomes, n - 1),
        );
    } else {
        reveal(counts);
        reveal(stands);
        assert(outcomes.take(0) =~= Seq::<FlowEvent<Seq<char>, Seq<Seq<char>>>>::empty());
    }
}

/// A look at the dashboard after the login decides. An accepted start is captured
/// and reported. One that is not is tried: at the beginning of a round by the
/// button, where it is shown, and else by waiting; at the end of a round by another
/// round, five in all, and then by asking whether an advertisement is in the way.
#[verifier::spinoff_prover]
pub proof fn dashboard_state_decides(
    artifact_capture: ArtifactCapture,
    outcomes: Outcomes,
    n: int,
    state: DashboardState<Seq<char>>,
)
    requires
        is_attempt(artifact_capture, outcomes),
        28 <= n < outcomes.len(),
        outcomes[n] == (FlowEvent::<Seq<char>, Seq<Seq<char>>>::State { result: Ok(state) }),
    ensures
        asked(artifact_capture, outcomes, n) is ReadState,
        ({
            let before = asked(artifact_capture, outcomes, n - 1);
            let then = asked(artifact_capture, outcomes, n + 1);
            let begun = rounds(artifact_capture, outcomes, n);
            if n == 28 {
                then is DismissBlockers
            } else if state.accepted {
                then is DismissNotification
            } else if before is FailOnChallenge {
                if state.start_button_visible {
                    then is ScrollToStart
                } else {
                    then == (FlowAction::<Seq<char>, Seq<Seq<char>>>::Pause { pause_ms: 5_000 })
                }
            } else if begun < 5 {
                before is DismissBlockers && then is DismissBlockers
            } else {
                before is DismissBlockers && then is LookForAd
            }
        }),
{
    lemma_stands(artifact_capture, outcomes, n - 1);
    lemma_stands(artifact_capture, outcomes, n);
    lemma_stands(artifact_capture, outcomes, n + 1);
    lemma_counts(artifact_capture, outcomes, n);
    lemma_looks_come_last(stands(artifact_capture, outcomes, n - 1), n - 1, outcomes[n - 1]);
    reveal(fits);
    reveal(counts);
}

#[verifier::spinoff_prover]
proof fn lemma_looks_come_last(step: FlowStep, n: int, event: FlowEvent<Seq<char>, Seq<Seq<char>>>)
    requires
        fits(step, n),
        n >= 0,
        flow_awaits(step.0.phase, event),
    ensures
        flow_step(step.0, event).0.phase is FirstState ==> n == 27,
        flow_step(step.0, event).0.phase is RoundState ==> step.1 is FailOnChallenge,
        flow_step(step.0, event).0.phase is RoundStateAgain ==> step.1 is DismissBlockers,
{
    reveal(fits);
}

/// A round begins with blockers and a challenge out of the way, and then looks at
/// the dashboard.
#[verifier::spinoff_prover]
pub proof fn rounds_look_before_they_click(artifact_capture: ArtifactCapture, outcomes: Outcomes, n: int)
    requires
        is_attempt(artifact_capture, outcomes),
        29 <= n,
        n + 2 <= outcomes.len(),
        outcomes[n - 1] is State,
        asked(artifact_capture, outcomes, n) is DismissBlockers,
        is_done(outcomes[n]),
        is_done(outcomes[n + 1]),
    ensures
        asked(artifact_capture, outcomes, n + 1) is FailOnChallenge,
        asked(artifact_capture, outcomes, n + 2) is ReadState,
{
    lemma_stands(artifact_capture, outcomes, n - 1);
    lemma_stands(artifact_capture, outcomes, n);
    lemma_stands(artifact_capture, outcomes, n + 1);
    lemma_stands(artifact_capture, outcomes, n + 2);
    reveal(fits);
}

/// The screenshot from before the first click that was kept, if any: the first answer to
/// a request for one that gave a path.
pub open spec fn checkpoint(artifact_capture: ArtifactCapture, outcomes: Outcomes, n: int) -> Option<Seq<char>>
    decreases n,
{
    if n <= 0 {
        None
    } else {
        match (asked(artifact_capture, outcomes, n - 1), outcomes[n - 1]) {
            (FlowAction::Take { capture: Capture::BeforeStart, .. }, FlowEvent::Taken { path }) => path,
            _ => checkpoint(artifact_capture, outcomes, n - 1),
        }
    }
}

#[verifier::spinoff_prover]
proof fn lemma_checkpoint_step(step: FlowStep, n: int, event: FlowEvent<Seq<char>, Seq<Seq<char>>>)
    requires
        fits(step, n),
        n >= 0,
        flow_awaits(step.0.phase, event),
    ensures
        flow_step(step.0, event).0.checkpoint_screenshot_path == (match (step.1, event) {
            (FlowAction::Take { capture: Capture::BeforeStart, .. }, FlowEvent::Taken { path }) => path,
            _ => step.0.checkpoint_screenshot_path,
        }),
{
    reveal(fits);
}

proof fn lemma_checkpoint(artifact_capture: ArtifactCapture, outcomes: Outcomes, n: int)
    requires
        is_attempt(artifact_capture, outcomes),
        0 <= n <= outcomes.len(),
    ensures
        stands(artifact_capture, outcomes, n).0.checkpoint_screenshot_path == checkpoint(artifact_capture, outcomes, n),
    decreases n,
{
    if n > 0 {
        lemma_checkpoint(artifact_capture, outcomes, n - 1);
        lemma_stands(artifact_capture, outcomes, n - 1);
        lemma_checkpoint_step(stands(artifact_capture, outcomes, n - 1), n - 1, outcomes[n - 1]);
    } else {
        reveal(stands);
        assert(outcomes.take(0) =~= Seq::<FlowEvent<Seq<char>, Seq<Seq<char>>>>::empty());
    }
}

/// The button is scrolled to and looked for. Where it is there, it is clicked,
/// after a screenshot where none was kept yet; where it is not, the page is given
/// its time all the same.
#[verifier::spinoff_prover]
pub proof fn shown_buttons_are_clicked(
    artifact_capture: ArtifactCapture,
    outcomes: Outcomes,
    n: int,
    button: bool,
)
    requires
        is_attempt(artifact_capture, outcomes),
        28 < n,
        n + 3 <= outcomes.len(),
        asked(artifact_capture, outcomes, n) is ScrollToStart,
        is_done(outcomes[n]),
        is_done(outcomes[n + 1]),
        outcomes[n + 2] == (FlowEvent::<Seq<char>, Seq<Seq<char>>>::Found { button }),
    ensures
        asked(artifact_capture, outcomes, n + 1) == (FlowAction::<Seq<char>, Seq<Seq<char>>>::Pause { pause_ms: 500 }),
        asked(artifact_capture, outcomes, n + 2) is FindStart,
        ({
            let then = asked(artifact_capture, outcomes, n + 3);
            if !button {
                then == (FlowAction::<Seq<char>, Seq<Seq<char>>>::Pause { pause_ms: 5_000 })
            } else if checkpoint(artifact_capture, outcomes, n) is Some {
                then is ClickStart
            } else {
                then == (FlowAction::<Seq<char>, Seq<Seq<char>>>::Take {
                    capture: Capture::BeforeStart,
                    wanted: artifact_capture != ArtifactCapture::Off,
                }) && (n + 3 < outcomes.len() ==> asked(artifact_capture, outcomes, n + 4) is ClickStart)
            }
        }),
{
    lemma_stands(artifact_capture, outcomes, n);
    lemma_stands(artifact_capture, outcomes, n + 1);
    lemma_stands(artifact_capture, outcomes, n + 2);
    lemma_stands(artifact_capture, outcomes, n + 3);
    lemma_checkpoint(artifact_capture, outcomes, n);
    reveal(fits);
    if n + 3 < outcomes.len() {
        lemma_stands(artifact_capture, outcomes, n + 4);
    }
}

/// After a click, and where there was nothing to click, the page is given five
/// seconds; prompts, blockers and dialogs are cleared; and the dashboard is looked
/// at again.
#[verifier::spinoff_prover]
pub proof fn starts_are_given_time(artifact_capture: ArtifactCapture, outcomes: Outcomes, n: int)
    requires
        is_attempt(artifact_capture, outcomes),
        28 < n,
        n + 7 <= outcomes.len(),
        asked(artifact_capture, outcomes, n) == (FlowAction::<Seq<char>, Seq<Seq<char>>>::Pause { pause_ms: 5_000 }),
        forall|k: int| n <= k < n + 7 ==> is_done(#[trigger] outcomes[k]),
    ensures
        asked(artifact_capture, outcomes, n + 1) is DismissNotification,
        asked(artifact_capture, outcomes, n + 2) is DismissBlockers,
        asked(artifact_capture, outcomes, n + 3) is ClickDialogs,
        asked(artifact_capture, outcomes, n + 4) == (FlowAction::<Seq<char>, Seq<Seq<char>>>::Pause { pause_ms: 3_000 }),
        asked(artifact_capture, outcomes, n + 5) is DismissNotification,
        asked(artifact_capture, outcomes, n + 6) is DismissBlockers,
        asked(artifact_capture, outcomes, n + 7) is ReadState,
{
    assert(is_done(outcomes[n]) && is_done(outcomes[n + 1]) && is_done(outcomes[n + 2]) && is_done(outcomes[n + 3]));
    assert(is_done(outcomes[n + 4]) && is_done(outcomes[n + 5]) && is_done(outcomes[n + 6]));
    lemma_stands(artifact_capture, outcomes, n);
    lemma_stands(artifact_capture, outcomes, n + 1);
    lemma_stands(artifact_capture, outcomes, n + 2);
    lemma_stands(artifact_capture, outcomes, n + 3);
    lemma_stands(artifact_capture, outcomes, n + 4);
    lemma_stands(artifact_capture, outcomes, n + 5);
    lemma_stands(artifact_capture, outcomes, n + 6);
    lemma_stands(artifact_capture, outcomes, n + 7);
    reveal(fits);
}

/// A click is followed by the time that the page is given.
#[verifier::spinoff_prover]
pub proof fn clicks_are_given_time(artifact_capture: ArtifactCapture, outcomes: Outcomes, n: int)
    requires
        is_attempt(artifact_capture, outcomes),
        0 <= n < outcomes.len(),
        asked(artifact_capture, outcomes, n) is ClickStart,
        is_done(outcomes[n]),
    ensures
        asked(artifact_capture, outcomes, n + 1) == (FlowAction::<Seq<char>, Seq<Seq<char>>>::Pause { pause_ms: 5_000 }),
{
    lemma_stands(artifact_capture, outcomes, n);
    lemma_stands(artifact_capture, outcomes, n + 1);
    reveal(fits);
}

/// An accepted start is captured as far as the settings want it, and the attempt
/// succeeds with the captures' paths. It tells a start that it clicked from one
/// that it found.
#[verifier::spinoff_prover]
pub proof fn accepted_starts_succeed(
    artifact_capture: ArtifactCapture,
    outcomes: Outcomes,
    n: int,
    state: DashboardState<Seq<char>>,
    screenshot: Option<Seq<char>>,
    page: Option<Seq<char>>,
)
    requires
        is_attempt(artifact_capture, outcomes),
        28 < n,
        n + 5 <= outcomes.len(),
        outcomes[n] == (FlowEvent::<Seq<char>, Seq<Seq<char>>>::State { result: Ok(state) }),
        state.accepted,
        is_done(outcomes[n + 1]),
        is_done(outcomes[n + 2]),
        outcomes[n + 3] == (FlowEvent::<Seq<char>, Seq<Seq<char>>>::Taken { path: screenshot }),
        outcomes[n + 4] == (FlowEvent::<Seq<char>, Seq<Seq<char>>>::Taken { path: page }),
    ensures
        asked(artifact_capture, outcomes, n + 1) is DismissNotification,
        asked(artifact_capture, outcomes, n + 2) == (FlowAction::<Seq<char>, Seq<Seq<char>>>::Pause { pause_ms: 500 }),
        asked(artifact_capture, outcomes, n + 3) == (FlowAction::<Seq<char>, Seq<Seq<char>>>::Take {
            capture: Capture::AfterStart,
            wanted: artifact_capture == ArtifactCapture::Screenshots || artifact_capture == ArtifactCapture::Full,
        }),
        asked(artifact_capture, outcomes, n + 4) == (FlowAction::<Seq<char>, Seq<Seq<char>>>::Take {
            capture: Capture::AfterStartPage,
            wanted: artifact_capture == ArtifactCapture::Full,
        }),
        asked(artifact_capture, outcomes, n + 5) matches FlowAction::Finish { end: Ok(result) } && {
            &&& result.provider_status == state.status
            &&& result.screenshot_path == screenshot
            &&& result.detail_artifact_path == page
            &&& result.minecraft_address is None
            &&& result.outcome == (if flow_after(artifact_capture, outcomes.take(n)).0.start_clicked {
                StartOutcome::StartClicked
            } else {
                StartOutcome::DashboardChanged
            })
        },
{
    lemma_stands(artifact_capture, outcomes, n);
    lemma_stands(artifact_capture, outcomes, n + 1);
    lemma_stands(artifact_capture, outcomes, n + 2);
    lemma_stands(artifact_capture, outcomes, n + 3);
    lemma_stands(artifact_capture, outcomes, n + 4);
    lemma_stands(artifact_capture, outcomes, n + 5);
    assert(flow_after(artifact_capture, outcomes.take(n)) == stands(artifact_capture, outcomes, n)) by {
        reveal(stands);
    }
    reveal(fits);
}

/// A start that was not accepted in any round is told by what was in its way: an
/// advertisement, before or after a click; a dashboard that stayed offline after a
/// click; or a button that could not be clicked.
#[verifier::spinoff_prover]
pub proof fn unaccepted_starts_say_why(
    artifact_capture: ArtifactCapture,
    outcomes: Outcomes,
    n: int,
    present: bool,
)
    requires
        is_attempt(artifact_capture, outcomes),
        0 <= n < outcomes.len(),
        outcomes[n] == (FlowEvent::<Seq<char>, Seq<Seq<char>>>::Ad { result: Ok(present) }),
    ensures
        asked(artifact_capture, outcomes, n + 1) matches FlowAction::Finish { end: Err(failure) } && failure.error
            == seq![
            match (present, failure.start_clicked) {
                (true, true) => "AdOverlayBlocked: an advertisement overlay blocked start confirmation"@,
                (true, false) => "AdOverlayBlocked: an advertisement overlay blocked the Aternos dashboard"@,
                (false, true) => "StartNotAccepted: dashboard still appears offline after clicking start"@,
                (false, false) => "StartButtonUnavailable: could not click the Aternos start button"@,
            },
        ],
{
    lemma_stands(artifact_capture, outcomes, n);
    lemma_stands(artifact_capture, outcomes, n + 1);
}

} // verus!
