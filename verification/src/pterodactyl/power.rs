//! The one request that starts the server, and the verification of its effect
//! where the answer leaves it open.

use vstd::prelude::*;
use crate::provider::{failure_view, provider_failure, ProviderMutation, ProviderStartFailure};
use crate::pterodactyl::allocation::{
    later, left, lesser, smaller, time_after, time_left, SUBMISSION_VERIFY_ATTEMPTS,
    SUBMISSION_VERIFY_INTERVAL_MS, SUBMISSION_VERIFY_TIMEOUT_MS,
};
use crate::pterodactyl::panel::{PanelAction, PanelEvent, PostReply};
use crate::pterodactyl::{
    action_for_state, api_failure, classify_api_response, is_challenge, reply_error, state_action,
    PterodactylResources, StateAction,
};

verus! {

/// A power request whose effect is being verified.
#[verifier::ext_equal]
#[derive(Debug)]
pub struct PowerDoubt<T = String> {
    pub failure: ProviderStartFailure<T>,
    pub attempt: u64,
    pub deadline: u64,
}

impl View for PowerDoubt<String> {
    type V = PowerDoubt<Seq<char>>;

    open spec fn view(&self) -> PowerDoubt<Seq<char>> {
        PowerDoubt { failure: self.failure@, attempt: self.attempt, deadline: self.deadline }
    }
}

/// Where a power request stands: which outcome it waits for.
#[verifier::ext_equal]
#[derive(Debug)]
pub enum PowerPhase<T = String> {
    /// The power request.
    Posting,
    /// A look that may confirm an unanswered request.
    Verifying { doubt: PowerDoubt<T> },
    /// The pause between two such looks.
    VerifyPause { doubt: PowerDoubt<T> },
    /// Nothing: the request is settled.
    Over,
}

impl View for PowerPhase<String> {
    type V = PowerPhase<Seq<char>>;

    open spec fn view(&self) -> PowerPhase<Seq<char>> {
        match *self {
            PowerPhase::Posting => PowerPhase::Posting,
            PowerPhase::Verifying { doubt } => PowerPhase::Verifying { doubt: doubt@ },
            PowerPhase::VerifyPause { doubt } => PowerPhase::VerifyPause { doubt: doubt@ },
            PowerPhase::Over => PowerPhase::Over,
        }
    }
}

/// What a power request asks for, or how it ended.
#[verifier::ext_equal]
#[derive(Debug)]
pub enum PowerNext<T = String> {
    Ask { action: PanelAction<T> },
    Accepted,
    Failed { failure: ProviderStartFailure<T> },
}

impl View for PowerNext<String> {
    type V = PowerNext<Seq<char>>;

    open spec fn view(&self) -> PowerNext<Seq<char>> {
        match *self {
            PowerNext::Ask { action } => PowerNext::Ask { action: action@ },
            PowerNext::Accepted => PowerNext::Accepted,
            PowerNext::Failed { failure } => PowerNext::Failed { failure: failure@ },
        }
    }
}

/// A step of a power request.
#[verifier::ext_equal]
#[derive(Debug)]
pub struct PowerStep<T = String> {
    pub phase: PowerPhase<T>,
    pub next: PowerNext<T>,
}

impl View for PowerStep<String> {
    type V = PowerStep<Seq<char>>;

    open spec fn view(&self) -> PowerStep<Seq<char>> {
        PowerStep { phase: self.phase@, next: self.next@ }
    }
}

/// What a phase of a power request waits for the outcome of.
pub open spec fn power_awaits(phase: PowerPhase<Seq<char>>, event: PanelEvent<Seq<char>, Seq<u8>>) -> bool {
    match phase {
        PowerPhase::Posting => event is Posted,
        PowerPhase::Verifying { .. } => event is Resources || event is TimedOut,
        PowerPhase::VerifyPause { .. } => event is Paused,
        PowerPhase::Over => false,
    }
}

/// The request fails.
pub open spec fn power_fails(failure: ProviderStartFailure<Seq<char>>) -> PowerStep<Seq<char>> {
    PowerStep { phase: PowerPhase::Over, next: PowerNext::Failed { failure } }
}

/// The request was accepted.
pub open spec fn power_accepted() -> PowerStep<Seq<char>> {
    PowerStep { phase: PowerPhase::Over, next: PowerNext::Accepted }
}

/// A look that may confirm an unanswered request, while time is left.
pub open spec fn verify_look(doubt: PowerDoubt<Seq<char>>, now: u64) -> PowerStep<Seq<char>> {
    if left(doubt.deadline, now) == 0 {
        power_fails(doubt.failure)
    } else {
        PowerStep {
            phase: PowerPhase::Verifying { doubt },
            next: PowerNext::Ask {
                action: PanelAction::ReadResources { limit_ms: Some(left(doubt.deadline, now)) },
            },
        }
    }
}

/// A look did not settle the matter: pause before the next, or keep the doubt.
pub open spec fn verify_pause(doubt: PowerDoubt<Seq<char>>, now: u64) -> PowerStep<Seq<char>> {
    if doubt.attempt + 1 >= SUBMISSION_VERIFY_ATTEMPTS || left(doubt.deadline, now) == 0 {
        power_fails(doubt.failure)
    } else {
        PowerStep {
            phase: PowerPhase::VerifyPause {
                doubt: PowerDoubt { attempt: (doubt.attempt + 1) as u64, ..doubt },
            },
            next: PowerNext::Ask {
                action: PanelAction::Pause {
                    pause_ms: lesser(SUBMISSION_VERIFY_INTERVAL_MS, left(doubt.deadline, now)),
                },
            },
        }
    }
}

/// The request has been sent, or not.
pub open spec fn power_posted(reply: PostReply<Seq<char>, Seq<u8>>, now: u64) -> PowerStep<Seq<char>> {
    match reply {
        PostReply::NotSent { failure } => power_fails(failure),
        PostReply::Broken => verify_look(
            PowerDoubt {
                failure: failure_view(
                    "ProviderPowerAmbiguous"@,
                    "The power request connection ended before confirmation"@,
                    None,
                    ProviderMutation::PowerStart,
                ),
                attempt: 0,
                deadline: later(now, SUBMISSION_VERIFY_TIMEOUT_MS),
            },
            now,
        ),
        PostReply::Answered { status, cf_mitigated, body } => {
            let failure = api_failure(
                reply_error(status, is_challenge(cf_mitigated, body), ProviderMutation::PowerStart),
            );
            if status == 204 {
                power_accepted()
            } else if failure.uncertain_mutation.starts_server() {
                verify_look(
                    PowerDoubt {
                        failure,
                        attempt: 0,
                        deadline: later(now, SUBMISSION_VERIFY_TIMEOUT_MS),
                    },
                    now,
                )
            } else {
                power_fails(failure)
            }
        },
    }
}

/// A look at an unanswered request came back.
pub open spec fn power_looked(
    doubt: PowerDoubt<Seq<char>>,
    reply: Result<PterodactylResources<Seq<char>>, ProviderStartFailure<Seq<char>>>,
    now: u64,
) -> PowerStep<Seq<char>> {
    match reply {
        Ok(resources) => if state_action(resources.current_state) == StateAction::AlreadyActive {
            power_accepted()
        } else {
            verify_pause(doubt, now)
        },
        Err(failure) => if failure.retryable {
            verify_pause(doubt, now)
        } else {
            power_fails(
                ProviderStartFailure { uncertain_mutation: ProviderMutation::PowerStart, ..failure },
            )
        },
    }
}

/// The next step of a power request.
pub open spec fn power_step(
    phase: PowerPhase<Seq<char>>,
    event: PanelEvent<Seq<char>, Seq<u8>>,
    now: u64,
) -> PowerStep<Seq<char>> {
    match (phase, event) {
        (PowerPhase::Posting, PanelEvent::Posted { reply }) => power_posted(reply, now),
        (PowerPhase::Verifying { doubt }, PanelEvent::Resources { reply }) => power_looked(
            doubt,
            reply,
            now,
        ),
        (PowerPhase::Verifying { doubt }, _) => power_fails(doubt.failure),
        (PowerPhase::VerifyPause { doubt }, _) => verify_look(doubt, now),
        _ => arbitrary(),
    }
}

fn fail(failure: ProviderStartFailure) -> (r: PowerStep)
    ensures
        r@ == power_fails(failure@),
{
    PowerStep { phase: PowerPhase::Over, next: PowerNext::Failed { failure } }
}

fn accept() -> (r: PowerStep)
    ensures
        r@ == power_accepted(),
{
    PowerStep { phase: PowerPhase::Over, next: PowerNext::Accepted }
}

fn look(doubt: PowerDoubt, now: u64) -> (r: PowerStep)
    ensures
        r@ == verify_look(doubt@, now),
{
    let remaining: u64 = time_left(doubt.deadline, now);
    if remaining == 0 {
        return fail(doubt.failure);
    }
    PowerStep {
        phase: PowerPhase::Verifying { doubt },
        next: PowerNext::Ask { action: PanelAction::ReadResources { limit_ms: Some(remaining) } },
    }
}

fn pause_look(doubt: PowerDoubt, now: u64) -> (r: PowerStep)
    ensures
        r@ == verify_pause(doubt@, now),
{
    let remaining: u64 = time_left(doubt.deadline, now);
    if doubt.attempt >= SUBMISSION_VERIFY_ATTEMPTS - 1 || remaining == 0 {
        return fail(doubt.failure);
    }
    let mut doubt = doubt;
    doubt.attempt = doubt.attempt + 1;
    PowerStep {
        phase: PowerPhase::VerifyPause { doubt },
        next: PowerNext::Ask {
            action: PanelAction::Pause { pause_ms: smaller(SUBMISSION_VERIFY_INTERVAL_MS, remaining) },
        },
    }
}

/// The request has been sent, or not.
pub fn send_start_power(reply: PostReply, now: u64) -> (r: PowerStep)
    ensures
        r@ == power_posted(reply@, now),
{
    match reply {
        PostReply::NotSent { failure } => fail(failure),
        PostReply::Broken => look(
            PowerDoubt {
                failure: provider_failure(
                    "ProviderPowerAmbiguous",
                    "The power request connection ended before confirmation",
                    None,
                    ProviderMutation::PowerStart,
                ),
                attempt: 0,
                deadline: time_after(now, SUBMISSION_VERIFY_TIMEOUT_MS),
            },
            now,
        ),
        PostReply::Answered { status, cf_mitigated, body } => {
            if status == 204 {
                return accept();
            }
            let header = match &cf_mitigated {
                Some(value) => Some(value.as_str()),
                None => None,
            };
            let failure = classify_api_response(
                status,
                header,
                body.as_slice(),
                ProviderMutation::PowerStart,
            ).into_provider_failure();
            if failure.uncertain_mutation.may_have_started_server() {
                look(
                    PowerDoubt {
                        failure,
                        attempt: 0,
                        deadline: time_after(now, SUBMISSION_VERIFY_TIMEOUT_MS),
                    },
                    now,
                )
            } else {
                fail(failure)
            }
        },
    }
}

/// A look at an unanswered request came back.
pub fn verify_ambiguous_power(
    doubt: PowerDoubt,
    reply: Result<PterodactylResources, ProviderStartFailure>,
    now: u64,
) -> (r: PowerStep)
    ensures
        r@ == power_looked(
            doubt@,
            match reply {
                Ok(resources) => Ok(resources@),
                Err(failure) => Err(failure@),
            },
            now,
        ),
{
    match reply {
        Ok(resources) => {
            if action_for_state(resources.current_state.as_str()) == StateAction::AlreadyActive {
                accept()
            } else {
                pause_look(doubt, now)
            }
        },
        Err(failure) => {
            if failure.retryable {
                pause_look(doubt, now)
            } else {
                let mut failure = failure;
                failure.uncertain_mutation = ProviderMutation::PowerStart;
                fail(failure)
            }
        },
    }
}

impl PowerPhase<String> {
    /// Takes the outcome that the request waits for to its next action or end.
    pub fn advance(self, event: PanelEvent, now: u64) -> (r: PowerStep)
        requires
            power_awaits(self@, event@),
        ensures
            r@ == power_step(self@, event@, now),
    {
        match (self, event) {
            (PowerPhase::Posting, PanelEvent::Posted { reply }) => send_start_power(reply, now),
            (PowerPhase::Verifying { doubt }, PanelEvent::Resources { reply }) => verify_ambiguous_power(
                doubt,
                reply,
                now,
            ),
            (PowerPhase::Verifying { doubt }, _) => fail(doubt.failure),
            (PowerPhase::VerifyPause { doubt }, _) => look(doubt, now),
            _ => vstd::pervasive::unreached(),
        }
    }
}

} // verus!
