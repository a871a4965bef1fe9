//! The rules by which pages and errors of the browser are judged.

use vstd::prelude::*;
use crate::aternos::blockers::{sweep_step, Sweep, SweepAction, SweepPhase};
use crate::aternos::dashboard::{
    failure_detail, failure_hint, open_action, page_of, state_of, DashboardOpenAction, DashboardPageState, ServerCardSelection,
};
use crate::aternos::errors::{
    after_click, chain_closed, chain_timed_out, error_class, exhausted, failure_message, is_ambiguous,
    is_closed_text, is_retryable, is_timeout_text, lost_message, setup_class,
};
use crate::aternos::flow::{attempt_failure, BrowserFlowFailure};
use crate::aternos::open::{
    open_step, DashboardPage, OpenAction, OpenEvent, OpenFlow, OpenPhase,
};
use crate::json::JsonTree;
use crate::provider::{ProviderMutation, ProviderStartFailure};
use crate::terminal::cleaned;
use crate::text::{
    decimal, every, first_piece_is_what_stands_before, holds, is_space, lacks, lower,
    texts_without_space_stay, uncut_without_the_mark,
};

verus! {

// ---------------------------------------------------------------------------
// The state of the server
// ---------------------------------------------------------------------------

/// A start counts as accepted where the status is known and does not say offline, or
/// where the start button is gone. The status is told as it was read.
pub proof fn acceptance_is_read_from_the_page(status: Seq<char>, start_button_visible: bool)
    ensures
        ({
            let state = state_of(status, start_button_visible);
            &&& state.status == status
            &&& state.start_button_visible == start_button_visible
            &&& status == "unknown"@ ==> !state.accepted
            &&& holds(status, "Offline"@) && start_button_visible ==> !state.accepted
            &&& status != "unknown"@ && !holds(status, "Offline"@) ==> state.accepted
            &&& status != "unknown"@ && !start_button_visible ==> state.accepted
        }),
{
}

/// A report of the page is read member by member; what is missing is empty, false or
/// nothing.
pub proof fn pages_are_read_from_their_report(report: JsonTree)
    ensures
        ({
            let page = page_of(report);
            &&& report.bool_member("startButtonVisible"@) == Some(true) <==> page.start_button_visible
            &&& report.bool_member("hasStartButton"@) == Some(true) <==> page.has_start_button
            &&& report.bool_member("hasStatusLabel"@) == Some(true) <==> page.has_status_label
            &&& report.bool_member("hasServerCards"@) == Some(true) <==> page.has_server_cards
            &&& report.bool_member("hasDashboardServerId"@) == Some(true) <==> page.has_dashboard_server_id
            &&& page.has_target_server_card == report.bool_member("hasTargetServerCard"@)
            &&& page.dashboard_server_id_matches == report.bool_member("dashboardServerIdMatches"@)
            &&& report.text_member("url"@) matches Some(url) ==> page.url == url
            &&& report.text_member("title"@) matches Some(title) ==> page.title == title
            &&& report.text_member("statusText"@) matches Some(status) ==> page.status_text == status
            &&& report.number_member("serverCardCount"@) matches Some(n) ==> (n <= usize::MAX ==> page.server_card_count
                == n)
            &&& report.number_member("serverCardCount"@) is None ==> page.server_card_count == 0
        }),
{
}

// ---------------------------------------------------------------------------
// The way to the dashboard
// ---------------------------------------------------------------------------

/// Whether the page shows the controls of a server.
pub open spec fn shows_controls(state: DashboardPageState<Seq<char>>) -> bool {
    state.start_button_visible || (state.has_status_label && !state.has_server_cards)
}

/// Whether the page is of the server that is wanted.
pub open spec fn is_wanted(state: DashboardPageState<Seq<char>>, server_id: Option<Seq<char>>) -> bool {
    server_id is None || state.dashboard_server_id_matches == Some(true)
}

/// What a look at the page asks for. Controls of the wanted server are the goal.
/// Controls of another lead to the list of servers, and ones that do not say whose
/// they are to a wait. A list leads to the wanted card, or to the only one where
/// that may be taken. Anything else leads to the server's page. The last look says
/// what is wrong in place of a wait or of the list.
pub proof fn looks_at_the_page_decide(
    state: DashboardPageState<Seq<char>>,
    server_id: Option<Seq<char>>,
    last_look: bool,
    allow_single_card: bool,
)
    ensures
        ({
            let action = open_action(state, server_id, last_look, allow_single_card);
            let fails = |reason: Seq<char>| action == DashboardOpenAction::Fail(reason);
            if shows_controls(state) {
                if is_wanted(state, server_id) {
                    action is Ready
                } else if state.dashboard_server_id_matches is Some {
                    if last_look {
                        fails("dashboard server id did not match configured SERVER_ID"@)
                    } else {
                        action is NavigateToServerPicker
                    }
                } else if last_look {
                    fails("dashboard server id was not available"@)
                } else {
                    action is Wait
                }
            } else if !state.has_server_cards {
                action is NavigateToServer
            } else if server_id is Some && state.has_target_server_card == Some(true) {
                action == DashboardOpenAction::<Seq<char>>::ClickServerCard(ServerCardSelection::Configured)
            } else if server_id is Some && last_look {
                fails("configured SERVER_ID was not found on the server picker"@)
            } else if server_id is Some {
                action is Wait
            } else if state.server_card_count == 1 && allow_single_card {
                action == DashboardOpenAction::<Seq<char>>::ClickServerCard(ServerCardSelection::Only)
            } else if state.server_card_count > 1 && last_look {
                fails("multiple server cards; configure SERVER_ID"@)
            } else {
                action is NavigateToServer
            }
        }),
{
}

/// Whether a way gives up its half: the first half goes on to the server's page after
/// a short pause, the second to the next attempt, three in all, and then to a last
/// look.
pub open spec fn leaves_half(
    flow: OpenFlow<Seq<char>>,
    second: bool,
    next: OpenFlow<Seq<char>>,
    action: OpenAction<Seq<Seq<char>>>,
) -> bool {
    if !second {
        next.phase is BeforeNavigation && action is Delay && next.attempt == flow.attempt
    } else if flow.attempt < 3 {
        next.phase == (OpenPhase::Clearing { second: false }) && action is ClearPage && next.attempt == flow.attempt + 1
    } else {
        next.phase is LastLook && action is Look && next.attempt == flow.attempt
    }
}

/// The time ten seconds after `now`, as far as the clock reaches.
pub open spec fn ten_seconds_after(now: u64) -> u64 {
    if now > u64::MAX - 10_000 {
        u64::MAX
    } else {
        (now + 10_000) as u64
    }
}

/// The first look of a half decides. The goal ends the way. A card is clicked, the
/// list is opened, or the controls are waited for, for ten seconds. Where the page
/// is of no use, or cannot be looked at, the half is over.
pub proof fn first_looks_decide(
    flow: OpenFlow<Seq<char>>,
    second: bool,
    page: Result<DashboardPageState<Seq<char>>, Seq<char>>,
    now: u64,
)
    requires
        flow.phase == (OpenPhase::Looking { second }),
        1 <= flow.attempt <= 3,
    ensures
        ({
            let (next, action) = open_step(flow, OpenEvent::Seen { page }, now);
            match page {
                Err(_) => leaves_half(flow, second, next, action) && next.last_error is Some,
                Ok(state) => {
                    &&& next.last_state == Some(state)
                    &&& match open_action(state, flow.server_id, false, second) {
                        DashboardOpenAction::Ready => action == (OpenAction::<Seq<Seq<char>>>::Finish { end: Ok(()) }),
                        DashboardOpenAction::ClickServerCard(selection) => next.phase == (OpenPhase::Clicking { second })
                            && action == (OpenAction::<Seq<Seq<char>>>::ClickCard { selection }),
                        DashboardOpenAction::NavigateToServer => leaves_half(flow, second, next, action),
                        DashboardOpenAction::Wait => action is Look && next.phase == (OpenPhase::WaitLook {
                            second,
                            deadline: ten_seconds_after(now),
                        }),
                        DashboardOpenAction::NavigateToServerPicker => next.phase == (OpenPhase::PickerFirst { second })
                            && action == (OpenAction::<Seq<Seq<char>>>::Navigate { page: DashboardPage::Picker }),
                        DashboardOpenAction::Fail(_) => action matches OpenAction::Finish { end: Err(_) },
                    }
                },
            }
        }),
{
}

/// A look within a wait decides. The goal ends the way. A card is clicked, or the
/// list is opened. Otherwise the page is looked at again after half a second, until
/// the time is up; then the half is over.
pub proof fn waiting_looks_decide(
    flow: OpenFlow<Seq<char>>,
    second: bool,
    deadline: u64,
    page: Result<DashboardPageState<Seq<char>>, Seq<char>>,
    now: u64,
)
    requires
        flow.phase == (OpenPhase::WaitLook { second, deadline }),
        1 <= flow.attempt <= 3,
    ensures
        ({
            let (next, action) = open_step(flow, OpenEvent::Seen { page }, now);
            let waits_on = if now >= deadline {
                leaves_half(flow, second, next, action)
            } else {
                next.phase == (OpenPhase::WaitPause { second, deadline }) && action == (OpenAction::<
                    Seq<Seq<char>>,
                >::Pause { pause_ms: 500 })
            };
            match page {
                Err(_) => waits_on && next.last_error is Some,
                Ok(state) => {
                    &&& next.last_state == Some(state)
                    &&& match open_action(state, flow.server_id, now >= deadline, second) {
                        DashboardOpenAction::Ready => action == (OpenAction::<Seq<Seq<char>>>::Finish { end: Ok(()) }),
                        DashboardOpenAction::ClickServerCard(selection) => next.phase == (OpenPhase::WaitClick {
                            second,
                            deadline,
                        }) && action == (OpenAction::<Seq<Seq<char>>>::ClickCard { selection }),
                        DashboardOpenAction::NavigateToServerPicker => next.phase == (OpenPhase::WaitPicker {
                            second,
                            deadline,
                        }) && action == (OpenAction::<Seq<Seq<char>>>::Navigate { page: DashboardPage::Picker }),
                        DashboardOpenAction::Fail(_) => action matches OpenAction::Finish { end: Err(_) },
                        _ => waits_on,
                    }
                },
            }
        }),
{
}

/// The steps between the looks. A page is cleared before it is looked at. A card that
/// was hit, and an opened list, are followed by a wait; a card that was missed ends
/// the half, or is waited on within a wait. The pause of a wait leads to its next
/// look. The server's page is opened after the pause before it, and cleared. The last
/// look fails. An error of clearing or clicking ends the way with it.
pub proof fn ways_go_from_look_to_look(
    flow: OpenFlow<Seq<char>>,
    event: OpenEvent<Seq<char>, Seq<Seq<char>>>,
    now: u64,
)
    requires
        1 <= flow.attempt <= 3,
    ensures
        ({
            let (next, action) = open_step(flow, event, now);
            match (flow.phase, event) {
                (OpenPhase::Clearing { second }, OpenEvent::Cleared { result: Ok(_) }) => next.phase == (
                OpenPhase::Looking { second }) && action is Look,
                (OpenPhase::Clearing { .. }, OpenEvent::Cleared { result: Err(error) }) => action == (
                OpenAction::Finish { end: Err(error) }),
                (OpenPhase::Clicking { second }, OpenEvent::Clicked { hit: Ok(true) }) => next.phase == (
                OpenPhase::ClickRest { second }) && action is Delay,
                (OpenPhase::Clicking { second }, OpenEvent::Clicked { hit: Ok(false) }) => leaves_half(
                    flow,
                    second,
                    next,
                    action,
                ) && next.last_error is Some,
                (OpenPhase::Clicking { .. }, OpenEvent::Clicked { hit: Err(error) }) => action == (OpenAction::Finish {
                    end: Err(error),
                }),
                (OpenPhase::ClickRest { second }, OpenEvent::Rested) => action is Look && next.phase == (
                OpenPhase::WaitLook { second, deadline: ten_seconds_after(now) }),
                (OpenPhase::PickerFirst { second }, OpenEvent::Navigated { error }) => action is Look && next.phase == (
                OpenPhase::WaitLook { second, deadline: ten_seconds_after(now) }) && (error is Some ==> next.last_error
                    is Some),
                (OpenPhase::WaitClick { .. }, OpenEvent::Clicked { hit: Err(error) }) => action == (
                OpenAction::Finish { end: Err(error) }),
                (OpenPhase::WaitClick { second, deadline }, OpenEvent::Clicked { hit: Ok(_) }) => if now >= deadline {
                    leaves_half(flow, second, next, action)
                } else {
                    next.phase == (OpenPhase::WaitPause { second, deadline }) && action == (OpenAction::<
                        Seq<Seq<char>>,
                    >::Pause { pause_ms: 500 })
                },
                (OpenPhase::WaitPicker { second, deadline }, OpenEvent::Navigated { .. }) => if now >= deadline {
                    leaves_half(flow, second, next, action)
                } else {
                    next.phase == (OpenPhase::WaitPause { second, deadline }) && action == (OpenAction::<
                        Seq<Seq<char>>,
                    >::Pause { pause_ms: 500 })
                },
                (OpenPhase::WaitPause { second, deadline }, OpenEvent::Rested) => next.phase == (OpenPhase::WaitLook {
                    second,
                    deadline,
                }) && action is Look,
                (OpenPhase::BeforeNavigation, OpenEvent::Rested) => next.phase is Navigating && action == (OpenAction::<
                    Seq<Seq<char>>,
                >::Navigate { page: DashboardPage::Server }),
                (OpenPhase::Navigating, OpenEvent::Navigated { error }) => next.phase == (OpenPhase::Clearing {
                    second: true,
                }) && action is ClearPage && (error is Some ==> next.last_error is Some),
                (OpenPhase::LastLook, OpenEvent::Seen { .. }) => action matches OpenAction::Finish { end: Err(_) },
                _ => true,
            }
        }),
{
}

/// The error that a way remembers is told as it came, unless there is an earlier one.
pub proof fn errors_on_the_way_are_told(flow: OpenFlow<Seq<char>>, second: bool, message: Seq<char>, now: u64)
    requires
        flow.last_error is None,
        1 <= flow.attempt <= 3,
    ensures
        open_step(
            OpenFlow { phase: OpenPhase::Looking { second }, ..flow },
            OpenEvent::Seen { page: Err(message) },
            now,
        ).0.last_error == Some("page inspection failed: "@ + cleaned(message)),
        open_step(
            OpenFlow { phase: OpenPhase::Navigating, ..flow },
            OpenEvent::Navigated { error: Some(message) },
            now,
        ).0.last_error == Some("navigation failed: "@ + cleaned(message)),
        open_step(
            OpenFlow { phase: OpenPhase::PickerFirst { second }, ..flow },
            OpenEvent::Navigated { error: Some(message) },
            now,
        ).0.last_error == Some("server picker navigation failed: "@ + cleaned(message)),
        open_step(
            OpenFlow { phase: OpenPhase::Clicking { second }, ..flow },
            OpenEvent::Clicked { hit: Ok(false) },
            now,
        ).0.last_error == Some("server card click returned false"@),
{
}

// ---------------------------------------------------------------------------
// Blockers
// ---------------------------------------------------------------------------

/// A sweep dismisses the ad-blocker prompt, the notification and the dialogs, and
/// looks for an advertisement, which it closes and gives a second to go. Where it
/// dismissed a prompt, or an advertisement is still there, another sweep follows,
/// three in all; otherwise the page is clean.
pub proof fn sweeps_clear_the_page(round: u64, prompt: bool, found: bool, ad: bool, ad_again: bool)
    requires
        round < 3,
    ensures
        ({
            let begun = Sweep { round, dismissed: false, phase: SweepPhase::Adblock };
            let one = sweep_step(begun, prompt);
            let two = sweep_step(one.0, found);
            let three = sweep_step(two.0, found);
            let four = sweep_step(three.0, ad);
            let close = sweep_step(four.0, found);
            let settle = sweep_step(close.0, found);
            let looked = if ad {
                settle
            } else {
                four
            };
            let last = sweep_step(looked.0, ad_again);
            let again = |step: (Sweep, SweepAction)|
                if round < 2 {
                    step.0 == (Sweep { round: (round + 1) as u64, dismissed: false, phase: SweepPhase::Adblock })
                        && step.1 is DismissAdblock
                } else {
                    step.1 == (SweepAction::Finish { end: Ok(()) })
                };
            &&& one.1 is DismissNotification
            &&& two.1 is ClickDialogs
            &&& three.1 is LookForAd
            &&& ad ==> four.1 is CloseAd && close.1 == (SweepAction::Pause { pause_ms: 1_000 })
            &&& prompt ==> again(looked)
            &&& !prompt ==> looked.1 is LookForAd
            &&& !prompt && ad_again ==> again(last)
            &&& !prompt && !ad_again ==> last.1 == (SweepAction::Finish { end: Ok(()) })
        }),
{
}

// ---------------------------------------------------------------------------
// Errors
// ---------------------------------------------------------------------------

/// Whether a message says that the browser is gone.
pub open spec fn says_gone(message: Seq<char>) -> bool {
    let shown = lower(message);
    ||| holds(shown, "connection is closed"@)
    ||| holds(shown, "connection closed"@)
    ||| holds(shown, "target closed"@)
    ||| holds(shown, "browser closed"@)
    ||| holds(shown, "browser has been closed"@)
    ||| holds(shown, "browser has disconnected"@)
    ||| holds(shown, "channel closed"@)
    ||| (holds(shown, "websocket"@) && holds(shown, "closed"@))
}

/// Whether a message says that an event of the browser did not come.
pub open spec fn says_late(message: Seq<char>) -> bool {
    holds(lower(message), "the event waited for never came"@)
}

proof fn lemma_gone(message: Seq<char>)
    ensures
        is_closed_text(message) <==> says_gone(message),
        is_timeout_text(message) <==> says_late(message),
{
    let shown = lower(message);
    let long = "underlying connection is closed"@;
    let short = "connection is closed"@;
    reveal_strlit("underlying connection is closed");
    reveal_strlit("connection is closed");
    if holds(shown, long) {
        let at = choose|at: int| #[trigger] crate::text::occurs_at(shown, long, at);
        assert(shown.subrange(at, at + long.len()).subrange(11, long.len() as int) =~= shown.subrange(
            at + 11,
            at + 11 + short.len(),
        ));
        assert(long.subrange(11, long.len() as int) =~= short);
        assert(crate::text::occurs_at(shown, short, at + 11));
    }
}

/// Whether some message of the chain is one of those.
pub open spec fn told(chain: Seq<Seq<char>>, kind: spec_fn(Seq<char>) -> bool) -> bool {
    exists|i: int| 0 <= i < chain.len() && kind(#[trigger] chain[i])
}

/// The classes that a message may name.
pub open spec fn names_a_class(class: Seq<char>) -> bool {
    ||| class == "LoginPageUnavailable"@
    ||| class == "LoginFormUnavailable"@
    ||| class == "DashboardUnavailable"@
    ||| class == "ChallengeRequired"@
    ||| class == "AdOverlayBlocked"@
    ||| class == "StartButtonUnavailable"@
    ||| class == "StartNotAccepted"@
    ||| class == "BrowserConnectionClosed"@
    ||| class == "BrowserEventTimeout"@
    ||| class == "ArtifactWrite"@
}

/// An error with a lost browser anywhere in its chain is of that class, a closed one
/// before a late one. Another is of the class that its message names before its first
/// colon; and of that of the automation, where it has no colon or names none that is
/// known.
pub proof fn errors_are_of_the_class_they_name(chain: Seq<Seq<char>>, class: Seq<char>, rest: Seq<char>)
    ensures
        ({
            let gone = told(chain, |message: Seq<char>| says_gone(message));
            let late = told(chain, |message: Seq<char>| says_late(message));
            &&& gone ==> error_class(chain) == "BrowserConnectionClosed"@
            &&& !gone && late ==> error_class(chain) == "BrowserEventTimeout"@
            &&& !gone && !late && chain.len() > 0 && chain[0] == class.push(':') + rest && lacks(class, ':') && every(
                class,
                |c: char| !is_space(c),
            ) ==> error_class(chain) == (if names_a_class(class) {
                class
            } else {
                "BrowserAutomation"@
            })
            &&& !gone && !late && chain.len() > 0 && lacks(chain[0], ':') ==> error_class(chain)
                == "BrowserAutomation"@
        }),
{
    let gone = |message: Seq<char>| says_gone(message);
    let late = |message: Seq<char>| says_late(message);
    assert(chain_closed(chain) <==> told(chain, gone)) by {
        if chain_closed(chain) {
            let i = choose|i: int| 0 <= i < chain.len() && is_closed_text(#[trigger] chain[i]);
            lemma_gone(chain[i]);
            assert(gone(chain[i]));
        }
        if told(chain, gone) {
            let i = choose|i: int| 0 <= i < chain.len() && gone(#[trigger] chain[i]);
            lemma_gone(chain[i]);
            assert(is_closed_text(chain[i]));
        }
    }
    assert(chain_timed_out(chain) <==> told(chain, late)) by {
        if chain_timed_out(chain) {
            let i = choose|i: int| 0 <= i < chain.len() && is_timeout_text(#[trigger] chain[i]);
            assert(late(chain[i]));
        }
        if told(chain, late) {
            let i = choose|i: int| 0 <= i < chain.len() && late(#[trigger] chain[i]);
            assert(is_timeout_text(chain[i]));
        }
    }
    if chain.len() > 0 && lacks(class, ':') && chain[0] == class.push(':') + rest {
        first_piece_is_what_stands_before(class, ':', rest);
        if every(class, |c: char| !is_space(c)) {
            texts_without_space_stay(class);
        }
    }
    if chain.len() > 0 && lacks(chain[0], ':') {
        uncut_without_the_mark(chain[0], ':');
    }
}

/// A failure while the browser is set up is a lost browser where its message says so,
/// and else what the caller calls it.
pub proof fn failures_of_the_setup_are_told(message: Seq<char>, fallback: Seq<char>)
    ensures
        says_gone(message) ==> setup_class(message, fallback) == "BrowserConnectionClosed"@,
        !says_gone(message) && says_late(message) ==> setup_class(message, fallback) == "BrowserEventTimeout"@,
        !says_gone(message) && !says_late(message) ==> setup_class(message, fallback) == fallback,
{
    lemma_gone(message);
}

/// A failure leaves open what the browser did where its message or its class says that
/// the browser was lost. After the click such a failure may have started the server,
/// and says so; any other failure, and any failure before the click, stays as it is.
pub proof fn lost_browsers_may_have_started_the_server(failure: ProviderStartFailure<Seq<char>>, start_clicked: bool)
    ensures
        ({
            let lost = says_gone(failure.message) || says_late(failure.message) || failure.error_class
                == "BrowserConnectionClosed"@ || failure.error_class == "BrowserEventTimeout"@;
            let after = after_click(failure, start_clicked);
            &&& is_ambiguous(failure) <==> lost
            &&& !(start_clicked && lost) ==> after == failure
            &&& start_clicked && lost ==> {
                &&& after.uncertain_mutation == ProviderMutation::BrowserStart
                &&& after.error_class == (if failure.error_class == "BrowserConnectionClosed"@ {
                    "BrowserConnectionClosedAfterStartClick"@
                } else {
                    failure.error_class
                })
                &&& holds(failure.message, "start click may have been submitted"@) ==> after.message == failure.message
                &&& !holds(failure.message, "start click may have been submitted"@) ==> after.message == failure.message
                    + "; start click may have been submitted"@
                &&& after.retryable == failure.retryable
                &&& after.screenshot_path == failure.screenshot_path
                &&& after.detail_artifact_path == failure.detail_artifact_path
                &&& after.minecraft_address == failure.minecraft_address
            }
        }),
{
    lemma_gone(failure.message);
}

/// An attempt is made again where the browser was lost and the server cannot have been
/// started, and in no other case.
pub proof fn only_lost_browsers_are_tried_again(failure: ProviderStartFailure<Seq<char>>)
    ensures
        is_retryable(failure) <==> {
            &&& failure.uncertain_mutation == ProviderMutation::Nothing || failure.uncertain_mutation
                == ProviderMutation::WakeAllocation
            &&& failure.error_class != "BrowserConnectionClosedAfterStartClick"@
            &&& says_gone(failure.message) || says_late(failure.message) || failure.error_class
                == "BrowserConnectionClosed"@ || failure.error_class == "BrowserEventTimeout"@
        },
{
    lemma_gone(failure.message);
}

/// A start whose attempts are used up says so, once, and by what the browser was lost.
pub proof fn used_up_attempts_are_told(failure: ProviderStartFailure<Seq<char>>, attempts: nat)
    ensures
        ({
            let last = exhausted(failure, attempts);
            &&& last.error_class == (if says_late(failure.message) {
                "BrowserEventTimeout"@
            } else {
                "BrowserConnectionClosed"@
            })
            &&& holds(failure.message, "after "@) ==> last.message == failure.message
            &&& !holds(failure.message, "after "@) ==> last.message == failure.message + " (after "@ + decimal(attempts)
                + " attempts)"@
            &&& last.uncertain_mutation == failure.uncertain_mutation
            &&& last.screenshot_path == failure.screenshot_path
            &&& last.detail_artifact_path == failure.detail_artifact_path
        }),
{
}

/// The message of a failure is that of its error; where the browser was lost and the
/// message hides it, the first message of the chain that says so is added.
pub proof fn hidden_causes_are_told(chain: Seq<Seq<char>>, at: int)
    requires
        chain.len() > 0,
    ensures
        says_gone(chain[0]) || says_late(chain[0]) ==> failure_message(chain) == chain[0],
        (forall|i: int| 0 <= i < chain.len() ==> !says_gone(#[trigger] chain[i]) && !says_late(chain[i]))
            ==> failure_message(chain) == chain[0],
        0 < at < chain.len() && (says_gone(chain[at]) || says_late(chain[at])) && (forall|i: int|
            0 <= i < at ==> !says_gone(#[trigger] chain[i]) && !says_late(chain[i])) ==> failure_message(chain)
            == chain[0] + "; source: "@ + chain[at],
{
    lemma_gone(chain[0]);
    lemma_lost_message(chain, at);
}

proof fn lemma_lost_message(chain: Seq<Seq<char>>, at: int)
    ensures
        (forall|i: int| 0 <= i < chain.len() ==> !says_gone(#[trigger] chain[i]) && !says_late(chain[i]))
            ==> lost_message(chain) is None,
        0 <= at < chain.len() && (says_gone(chain[at]) || says_late(chain[at])) && (forall|i: int|
            0 <= i < at ==> !says_gone(#[trigger] chain[i]) && !says_late(chain[i])) ==> lost_message(chain) == Some(
            chain[at],
        ),
    decreases chain.len(),
{
    if chain.len() > 0 {
        let rest = chain.skip(1);
        lemma_gone(chain[0]);
        lemma_lost_message(rest, at - 1);
        if forall|i: int| 0 <= i < chain.len() ==> !says_gone(#[trigger] chain[i]) && !says_late(chain[i]) {
            assert forall|i: int| 0 <= i < rest.len() implies !says_gone(#[trigger] rest[i]) && !says_late(rest[i]) by {
                assert(rest[i] == chain[i + 1]);
            }
        }
        if 0 < at < chain.len() && (forall|i: int|
            0 <= i < at ==> !says_gone(#[trigger] chain[i]) && !says_late(chain[i])) {
            assert(rest[at - 1] == chain[at]);
            assert forall|i: int| 0 <= i < at - 1 implies !says_gone(#[trigger] rest[i]) && !says_late(rest[i]) by {
                assert(rest[i] == chain[i + 1]);
            }
        }
    }
}

/// The failure of an attempt bears the class and the message of its error, and is then
/// judged by whether the button was clicked.
pub proof fn attempts_fail_by_their_error(failure: BrowserFlowFailure<Seq<char>, Seq<Seq<char>>>)
    ensures
        !failure.start_clicked ==> {
            let failed = attempt_failure(failure);
            &&& failed.error_class == error_class(failure.error)
            &&& failed.message == failure_message(failure.error)
            &&& failed.uncertain_mutation == ProviderMutation::Nothing
            &&& !failed.retryable
        },
        attempt_failure(failure) == after_click(
            attempt_failure(BrowserFlowFailure { start_clicked: false, ..failure }),
            failure.start_clicked,
        ),
{
}

/// A way that did not reach the dashboard says by the last page why: that it is of another
/// server, that it does not say of which, that the wanted server is not on the list, that
/// there are several, or else that the controls did not load.
pub proof fn missed_dashboards_say_why(state: DashboardPageState<Seq<char>>, server_id: Option<Seq<char>>)
    ensures
        failure_hint(None, server_id) == "dashboard controls did not load"@,
        ({
            let hint = failure_hint(Some(state), server_id);
            let shown = shows_controls(state);
            let known = server_id is Some;
            if shown && known && state.dashboard_server_id_matches == Some(false) {
                hint == "dashboard server id did not match configured SERVER_ID"@
            } else if shown && known && !state.has_dashboard_server_id {
                hint == "dashboard server id was not available"@
            } else if state.has_server_cards && known && state.has_target_server_card != Some(true) {
                hint == "configured SERVER_ID was not found on the server picker"@
            } else if state.has_server_cards && !known && state.server_card_count > 1 {
                hint == "multiple server cards; configure SERVER_ID"@
            } else {
                hint == "dashboard controls did not load"@
            }
        }),
{
}

/// The last look of a way tells by what it shows, or by the last page before it where it
/// cannot be made, why the dashboard was not reached.
pub proof fn last_looks_say_why(
    flow: OpenFlow<Seq<char>>,
    page: Result<DashboardPageState<Seq<char>>, Seq<char>>,
    now: u64,
)
    requires
        flow.phase is LastLook,
    ensures
        ({
            let state = match page {
                Ok(state) => Some(state),
                Err(_) => flow.last_state,
            };
            open_step(flow, OpenEvent::Seen { page }, now).1 == (OpenAction::Finish {
                end: Err(
                    seq![
                        "DashboardUnavailable: "@ + failure_hint(state, flow.server_id) + "; "@ + failure_detail(
                            state,
                            flow.last_error,
                        ),
                    ],
                ),
            })
        }),
{
}

} // verus!
