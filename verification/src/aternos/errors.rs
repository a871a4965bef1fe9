//! What browser errors mean, and when an attempt is repeated.

use vstd::prelude::*;
use crate::provider::{ProviderMutation, ProviderStartFailure, ProviderStartResult};
use crate::text;
use crate::text::{decimal, holds, lower, opt_str, opt_text, split_on, texts, trim};

verus! {

/// An error of the browser: its message, then the messages of its causes.
#[derive(Clone, Debug)]
pub struct BrowserError {
    pub chain: Vec<String>,
}

impl View for BrowserError {
    type V = Seq<Seq<char>>;

    open spec fn view(&self) -> Seq<Seq<char>> {
        texts(self.chain@)
    }
}

/// The message of an error.
pub open spec fn message_of(chain: Seq<Seq<char>>) -> Seq<char> {
    if chain.len() == 0 {
        ""@
    } else {
        chain[0]
    }
}

impl BrowserError {
    /// An error without causes.
    pub fn new(message: &str) -> (r: BrowserError)
        ensures
            r@ == seq![message@],
    {
        let mut chain = text::no_texts();
        text::add_text(&mut chain, message.to_owned());
        proof {
            assert(texts(chain@) =~= seq![message@]);
        }
        BrowserError { chain }
    }

    /// The error with a message that says what was attempted before its own.
    pub fn in_context(self, message: &str) -> (r: BrowserError)
        ensures
            r@ == seq![message@] + self@,
    {
        let mut chain = self.chain;
        chain.insert(0, message.to_owned());
        proof {
            assert(texts(chain@) =~= seq![message@] + self@);
        }
        BrowserError { chain }
    }

    /// The message of the error.
    pub fn to_string(&self) -> (r: String)
        ensures
            r@ == message_of(self@),
    {
        proof {
            assert(self@.len() == self.chain@.len());
        }
        if self.chain.len() == 0 {
            "".to_owned()
        } else {
            proof {
                assert(self@[0] == self.chain@[0]@);
            }
            self.chain[0].clone()
        }
    }
}

// ---------------------------------------------------------------------------
// Known failures
// ---------------------------------------------------------------------------

/// Whether a message says that the connection to the browser was closed.
pub open spec fn is_closed_text(message: Seq<char>) -> bool {
    let shown = lower(message);
    ||| holds(shown, "underlying connection is closed"@)
    ||| holds(shown, "connection is closed"@)
    ||| holds(shown, "connection closed"@)
    ||| holds(shown, "target closed"@)
    ||| holds(shown, "browser closed"@)
    ||| holds(shown, "browser has been closed"@)
    ||| holds(shown, "browser has disconnected"@)
    ||| holds(shown, "channel closed"@)
    ||| holds(shown, "websocket"@) && holds(shown, "closed"@)
}

/// Whether a message says that the connection to the browser was closed.
pub fn is_browser_connection_closed_text(message: &str) -> (r: bool)
    ensures
        r == is_closed_text(message@),
{
    let lowered = text::lowered(message);
    let shown = lowered.as_str();
    text::contains(shown, "underlying connection is closed") || text::contains(
        shown,
        "connection is closed",
    ) || text::contains(shown, "connection closed") || text::contains(shown, "target closed")
        || text::contains(shown, "browser closed") || text::contains(
        shown,
        "browser has been closed",
    ) || text::contains(shown, "browser has disconnected") || text::contains(
        shown,
        "channel closed",
    ) || (text::contains(shown, "websocket") && text::contains(shown, "closed"))
}

/// Whether a message says that an awaited event did not come.
pub open spec fn is_timeout_text(message: Seq<char>) -> bool {
    holds(lower(message), "the event waited for never came"@)
}

/// Whether a message says that an awaited event did not come.
pub fn is_browser_event_timeout_text(message: &str) -> (r: bool)
    ensures
        r == is_timeout_text(message@),
{
    text::contains(text::lowered(message).as_str(), "the event waited for never came")
}

/// Whether some message of the chain says that the connection was closed.
pub open spec fn chain_closed(chain: Seq<Seq<char>>) -> bool {
    exists|i: int| 0 <= i < chain.len() && is_closed_text(#[trigger] chain[i])
}

/// Whether some message of the chain says that an event did not come.
pub open spec fn chain_timed_out(chain: Seq<Seq<char>>) -> bool {
    exists|i: int| 0 <= i < chain.len() && is_timeout_text(#[trigger] chain[i])
}

fn browser_error_has_connection_closed(error: &BrowserError) -> (r: bool)
    ensures
        r == chain_closed(error@),
{
    let mut i: usize = 0;
    while i < error.chain.len()
        invariant
            i <= error.chain@.len(),
            forall|j: int| 0 <= j < i ==> !is_closed_text(#[trigger] error@[j]),
        decreases error.chain@.len() - i,
    {
        proof {
            assert(error@[i as int] == error.chain@[i as int]@);
        }
        if is_browser_connection_closed_text(error.chain[i].as_str()) {
            return true;
        }
        i += 1;
    }
    proof {
        assert(error@.len() == error.chain@.len());
    }
    false
}

fn browser_error_has_event_timeout(error: &BrowserError) -> (r: bool)
    ensures
        r == chain_timed_out(error@),
{
    let mut i: usize = 0;
    while i < error.chain.len()
        invariant
            i <= error.chain@.len(),
            forall|j: int| 0 <= j < i ==> !is_timeout_text(#[trigger] error@[j]),
        decreases error.chain@.len() - i,
    {
        proof {
            assert(error@[i as int] == error.chain@[i as int]@);
        }
        if is_browser_event_timeout_text(error.chain[i].as_str()) {
            return true;
        }
        i += 1;
    }
    proof {
        assert(error@.len() == error.chain@.len());
    }
    false
}

/// The class of an error while the browser is set up.
pub open spec fn setup_class(message: Seq<char>, fallback: Seq<char>) -> Seq<char> {
    if is_closed_text(message) {
        "BrowserConnectionClosed"@
    } else if is_timeout_text(message) {
        "BrowserEventTimeout"@
    } else {
        fallback
    }
}

/// The class of an error while the browser is set up.
pub fn browser_setup_error_class(message: &str, fallback: &str) -> (r: String)
    ensures
        r@ == setup_class(message@, fallback@),
{
    if is_browser_connection_closed_text(message) {
        "BrowserConnectionClosed".to_owned()
    } else if is_browser_event_timeout_text(message) {
        "BrowserEventTimeout".to_owned()
    } else {
        fallback.to_owned()
    }
}

/// The classes that an error message may begin with.
pub open spec fn is_known_class(class: Seq<char>) -> bool {
    ||| class == "LoginPageUnavailable"@
    ||| class == "LoginFormUnavailable"@
    ||| class == "DashboardUnavailable"@
    ||| class == "ChallengeRequired"@
    ||| class == "AdOverlayBlocked"@
    ||| class == "StartButtonUnavailable"@
    ||| class == "StartNotAccepted"@
    ||| class == "BrowserConnectionClosed"@
    ||| class == "BrowserEventTimeout"@
    ||| class == "ArtifactWrite"@
}

fn known_class(class: &str) -> (r: bool)
    ensures
        r == is_known_class(class@),
{
    text::same(class, "LoginPageUnavailable") || text::same(class, "LoginFormUnavailable")
        || text::same(class, "DashboardUnavailable") || text::same(class, "ChallengeRequired")
        || text::same(class, "AdOverlayBlocked") || text::same(class, "StartButtonUnavailable")
        || text::same(class, "StartNotAccepted") || text::same(class, "BrowserConnectionClosed")
        || text::same(class, "BrowserEventTimeout") || text::same(class, "ArtifactWrite")
}

/// The class of an error: a lost browser anywhere in its chain, else the known
/// class before the first colon of its message.
pub open spec fn error_class(chain: Seq<Seq<char>>) -> Seq<char> {
    let pieces = split_on(message_of(chain), ':');
    let class = trim(pieces[0]);
    if chain_closed(chain) {
        "BrowserConnectionClosed"@
    } else if chain_timed_out(chain) {
        "BrowserEventTimeout"@
    } else if pieces.len() >= 2 && is_known_class(class) {
        class
    } else {
        "BrowserAutomation"@
    }
}

/// The class of an error.
pub fn classify_browser_error(error: &BrowserError) -> (r: String)
    ensures
        r@ == error_class(error@),
{
    if browser_error_has_connection_closed(error) {
        return "BrowserConnectionClosed".to_owned();
    }
    if browser_error_has_event_timeout(error) {
        return "BrowserEventTimeout".to_owned();
    }
    let pieces = text::split_at_mark(error.to_string().as_str(), ':');
    proof {
        assert(texts(pieces@).len() == pieces@.len());
        assert(texts(pieces@)[0] == pieces@[0]@);
    }
    let class = text::trimmed(pieces[0].as_str());
    if pieces.len() >= 2 && known_class(class.as_str()) {
        class
    } else {
        "BrowserAutomation".to_owned()
    }
}

/// Whether a message shows a lost browser.
pub open spec fn is_lost_text(message: Seq<char>) -> bool {
    is_closed_text(message) || is_timeout_text(message)
}

/// The first message of the chain that shows a lost browser.
pub open spec fn lost_message(chain: Seq<Seq<char>>) -> Option<Seq<char>>
    decreases chain.len(),
{
    if chain.len() == 0 {
        None
    } else if is_lost_text(chain[0]) {
        Some(chain[0])
    } else {
        lost_message(chain.skip(1))
    }
}

/// The message of a failure: where the browser was lost and the message hides
/// it, the cause is added.
pub open spec fn failure_message(chain: Seq<Seq<char>>) -> Seq<char> {
    let message = message_of(chain);
    match lost_message(chain) {
        Some(source) if !is_lost_text(message) => message + "; source: "@ + source,
        _ => message,
    }
}

/// The message of a failure.
pub fn browser_failure_message(error: &BrowserError) -> (r: String)
    ensures
        r@ == failure_message(error@),
{
    let message = error.to_string();
    let shown = is_browser_connection_closed_text(message.as_str()) || is_browser_event_timeout_text(
        message.as_str(),
    );
    let mut i: usize = 0;
    proof {
        assert(error@.skip(0) =~= error@);
        assert(error@.len() == error.chain@.len());
    }
    while i < error.chain.len()
        invariant
            i <= error.chain@.len(),
            error@.len() == error.chain@.len(),
            message@ == message_of(error@),
            shown == is_lost_text(message@),
            lost_message(error@) == lost_message(error@.skip(i as int)),
        decreases error.chain@.len() - i,
    {
        let cause = error.chain[i].as_str();
        proof {
            assert(error@[i as int] == error.chain@[i as int]@);
            assert(error@.skip(i as int)[0] == error@[i as int]);
            assert(error@.skip(i as int).skip(1) =~= error@.skip(i + 1));
        }
        if is_browser_connection_closed_text(cause) || is_browser_event_timeout_text(cause) {
            if shown {
                return message;
            }
            return text::cat3(message.as_str(), "; source: ", cause);
        }
        i += 1;
    }
    message
}

// ---------------------------------------------------------------------------
// Failures after the start click
// ---------------------------------------------------------------------------

/// Whether a failure leaves open what the browser did.
pub open spec fn is_ambiguous(failure: ProviderStartFailure<Seq<char>>) -> bool {
    ||| is_lost_text(failure.message)
    ||| failure.error_class == "BrowserConnectionClosed"@
    ||| failure.error_class == "BrowserEventTimeout"@
}

/// Whether a failure leaves open what the browser did.
pub fn is_ambiguous_browser_failure(failure: &ProviderStartFailure) -> (r: bool)
    ensures
        r == is_ambiguous(failure@),
{
    is_browser_connection_closed_text(failure.message.as_str()) || is_browser_event_timeout_text(
        failure.message.as_str(),
    ) || text::same(failure.error_class.as_str(), "BrowserConnectionClosed") || text::same(
        failure.error_class.as_str(),
        "BrowserEventTimeout",
    )
}

/// Whether an attempt that failed so may be repeated: the browser was lost, and
/// the server cannot have been started.
pub open spec fn is_retryable(failure: ProviderStartFailure<Seq<char>>) -> bool {
    &&& !failure.uncertain_mutation.starts_server()
    &&& failure.error_class != "BrowserConnectionClosedAfterStartClick"@
    &&& is_ambiguous(failure)
}

/// Whether an attempt that failed so may be repeated.
pub fn is_retryable_browser_failure(failure: &ProviderStartFailure) -> (r: bool)
    ensures
        r == is_retryable(failure@),
{
    if failure.uncertain_mutation.may_have_started_server() {
        return false;
    }
    if text::same(failure.error_class.as_str(), "BrowserConnectionClosedAfterStartClick") {
        return false;
    }
    is_ambiguous_browser_failure(failure)
}

/// A failure as it stands once the start button was clicked or not: an
/// ambiguous failure after the click may have started the server, and says so.
pub open spec fn after_click(
    failure: ProviderStartFailure<Seq<char>>,
    start_clicked: bool,
) -> ProviderStartFailure<Seq<char>> {
    if start_clicked && is_ambiguous(failure) {
        ProviderStartFailure {
            uncertain_mutation: ProviderMutation::BrowserStart,
            error_class: if failure.error_class == "BrowserConnectionClosed"@ {
                "BrowserConnectionClosedAfterStartClick"@
            } else {
                failure.error_class
            },
            message: if holds(failure.message, "start click may have been submitted"@) {
                failure.message
            } else {
                failure.message + "; start click may have been submitted"@
            },
            ..failure
        }
    } else {
        failure
    }
}

/// Marks an ambiguous failure after the start click as one that may have
/// started the server.
pub fn apply_post_click_submission_metadata(failure: &mut ProviderStartFailure, start_clicked: bool)
    ensures
        final(failure)@ == after_click(old(failure)@, start_clicked),
{
    if !start_clicked || !is_ambiguous_browser_failure(failure) {
        return;
    }
    failure.uncertain_mutation = ProviderMutation::BrowserStart;
    if text::same(failure.error_class.as_str(), "BrowserConnectionClosed") {
        failure.error_class = "BrowserConnectionClosedAfterStartClick".to_owned();
    }
    if !text::contains(failure.message.as_str(), "start click may have been submitted") {
        let message = text::cat2(failure.message.as_str(), "; start click may have been submitted");
        failure.message = message;
    }
}

/// The screenshot of a failure: the one from before the click stands in where
/// the start may have been submitted and no other could be taken.
pub fn failure_screenshot_or_checkpoint(
    failure_screenshot_path: Option<String>,
    start_may_have_been_submitted: bool,
    checkpoint_screenshot_path: Option<String>,
) -> (r: Option<String>)
    ensures
        r == if failure_screenshot_path is None && start_may_have_been_submitted {
            checkpoint_screenshot_path
        } else {
            failure_screenshot_path
        },
{
    if failure_screenshot_path.is_none() && start_may_have_been_submitted {
        checkpoint_screenshot_path
    } else {
        failure_screenshot_path
    }
}

// ---------------------------------------------------------------------------
// Repeating an attempt
// ---------------------------------------------------------------------------

/// How often a start is attempted with a fresh browser.
pub const BROWSER_START_ATTEMPTS: usize = 2;

/// The last failure of a start whose attempts are used up.
pub open spec fn exhausted(
    failure: ProviderStartFailure<Seq<char>>,
    max_attempts: nat,
) -> ProviderStartFailure<Seq<char>> {
    ProviderStartFailure {
        error_class: if is_timeout_text(failure.message) {
            "BrowserEventTimeout"@
        } else {
            "BrowserConnectionClosed"@
        },
        message: if holds(failure.message, "after "@) {
            failure.message
        } else {
            failure.message + " (after "@ + decimal(max_attempts) + " attempts)"@
        },
        ..failure
    }
}

/// Marks the last failure of a start whose attempts are used up.
pub fn annotate_browser_retry_exhausted(failure: &mut ProviderStartFailure, max_attempts: usize)
    ensures
        final(failure)@ == exhausted(old(failure)@, max_attempts as nat),
{
    if is_browser_event_timeout_text(failure.message.as_str()) {
        failure.error_class = "BrowserEventTimeout".to_owned();
    } else {
        failure.error_class = "BrowserConnectionClosed".to_owned();
    }
    if !text::contains(failure.message.as_str(), "after ") {
        let message = text::cat4(
            failure.message.as_str(),
            " (after ",
            text::decimal_usize(max_attempts).as_str(),
            " attempts)",
        );
        failure.message = message;
    }
}

/// A start that is attempted up to `max_attempts` times, at least once, and
/// stands at its attempt number `attempt`.
#[derive(Clone, Copy, Debug, PartialEq, Eq, Structural)]
pub struct BrowserRetry {
    pub attempt: usize,
    pub max_attempts: usize,
}

impl BrowserRetry {
    /// The attempts are counted from one and stay within their number.
    pub open spec fn well_formed(self) -> bool {
        1 <= self.attempt <= self.max_attempts
    }
}

/// What follows an attempt.
#[derive(Debug)]
pub enum RetryNext {
    /// Warn of the failure of the attempt, then make the next attempt.
    Again { retry: BrowserRetry, failed_attempt: usize, failure: ProviderStartFailure },
    /// The start is over.
    Done { end: Result<ProviderStartResult, ProviderStartFailure> },
}

/// Whether another attempt follows a failed one.
pub open spec fn tries_again(attempt: int, max_attempts: int, failure: ProviderStartFailure<Seq<char>>) -> bool {
    is_retryable(failure) && attempt < max_attempts
}

/// A start is attempted again only where its failure may be repeated and attempts are
/// left, of which there are two.
pub proof fn starts_are_attempted_twice_at_most(attempt: int, failure: ProviderStartFailure<Seq<char>>)
    ensures
        BROWSER_START_ATTEMPTS == 2,
        tries_again(attempt, 2, failure) ==> attempt < 2 && is_retryable(failure),
        attempt == 1 && is_retryable(failure) ==> tries_again(attempt, 2, failure),
        !is_retryable(failure) ==> !tries_again(attempt, 2, failure),
{
}

impl BrowserRetry {
    /// A start before its first attempt.
    pub fn begin(max_attempts: usize) -> (r: BrowserRetry)
        ensures
            r.well_formed(),
            r.attempt == 1,
            r.max_attempts == if max_attempts == 0 {
                1
            } else {
                max_attempts
            },
    {
        BrowserRetry { attempt: 1, max_attempts: if max_attempts == 0 { 1 } else { max_attempts } }
    }

    /// Whether this attempt is the last: only it keeps the artifacts of a
    /// failure that would else be repeated.
    pub fn final_attempt(&self) -> (r: bool)
        ensures
            r == (self.attempt >= self.max_attempts),
    {
        self.attempt >= self.max_attempts
    }

    /// What follows the outcome of this attempt.
    pub fn after_attempt(self, outcome: Result<ProviderStartResult, ProviderStartFailure>) -> (r: RetryNext)
        requires
            self.well_formed(),
        ensures
            match outcome {
                Ok(result) => r == (RetryNext::Done { end: Ok(result) }),
                Err(failure) => if tries_again(self.attempt as int, self.max_attempts as int, failure@) {
                    r == (RetryNext::Again {
                        retry: BrowserRetry {
                            attempt: (self.attempt + 1) as usize,
                            max_attempts: self.max_attempts,
                        },
                        failed_attempt: self.attempt,
                        failure,
                    })
                } else {
                    r matches RetryNext::Done { end: Err(last) } && last@ == if is_retryable(
                        failure@,
                    ) {
                        exhausted(failure@, self.max_attempts as nat)
                    } else {
                        failure@
                    }
                },
            },
            r matches RetryNext::Again { retry, .. } ==> retry.well_formed(),
    {
        match outcome {
            Ok(result) => RetryNext::Done { end: Ok(result) },
            Err(failure) => {
                let retryable = is_retryable_browser_failure(&failure);
                if retryable && self.attempt < self.max_attempts {
                    return RetryNext::Again {
                        retry: BrowserRetry {
                            attempt: self.attempt + 1,
                            max_attempts: self.max_attempts,
                        },
                        failed_attempt: self.attempt,
                        failure,
                    };
                }
                let mut failure = failure;
                if retryable {
                    annotate_browser_retry_exhausted(&mut failure, self.max_attempts);
                }
                RetryNext::Done { end: Err(failure) }
            },
        }
    }
}

/// A start whose button may have been clicked to effect is not attempted again.
pub proof fn submitted_start_is_not_repeated(failure: ProviderStartFailure<Seq<char>>)
    ensures
        is_ambiguous(failure) ==> !is_retryable(after_click(failure, true)),
        !is_ambiguous(failure) ==> !is_retryable(failure),
{
}

/// The warning about a failed attempt that is repeated.
pub fn browser_retry_warning(run_name: Option<&str>, attempt: usize, failure: &ProviderStartFailure) -> (r: String)
    ensures
        r@ == (match run_name {
            Some(name) => name@,
            None => "run"@,
        }) + " browser automation lost control on attempt "@ + decimal(attempt as nat)
            + "; retrying; class "@ + crate::terminal::cleaned(failure@.error_class),
{
    let name = match run_name {
        Some(name) => name,
        None => "run",
    };
    text::cat5(
        name,
        " browser automation lost control on attempt ",
        text::decimal_usize(attempt).as_str(),
        "; retrying; class ",
        crate::terminal::clean(failure.error_class.as_str()).as_str(),
    )
}

// ---------------------------------------------------------------------------
// Artifacts
// ---------------------------------------------------------------------------

/// Whether some message of the chain names the given class.
pub open spec fn chain_names(chain: Seq<Seq<char>>, class: Seq<char>) -> bool {
    exists|i: int| 0 <= i < chain.len() && holds(lower(#[trigger] chain[i]), class)
}

fn names(error: &BrowserError, class: &str) -> (r: bool)
    ensures
        r == chain_names(error@, class@),
{
    let mut i: usize = 0;
    while i < error.chain.len()
        invariant
            i <= error.chain@.len(),
            forall|j: int| 0 <= j < i ==> !holds(lower(#[trigger] error@[j]), class@),
        decreases error.chain@.len() - i,
    {
        proof {
            assert(error@[i as int] == error.chain@[i as int]@);
        }
        if text::contains(text::lowered(error.chain[i].as_str()).as_str(), class) {
            return true;
        }
        i += 1;
    }
    proof {
        assert(error@.len() == error.chain@.len());
    }
    false
}

/// The class under which a failed capture is reported.
pub open spec fn warning_class(chain: Seq<Seq<char>>) -> Seq<char> {
    if chain_names(chain, "browsercapture:"@) {
        "BrowserCapture"@
    } else if chain_names(chain, "artifactwrite:"@) {
        "ArtifactWrite"@
    } else {
        "ArtifactWarning"@
    }
}

/// The class under which a failed capture is reported.
pub fn artifact_warning_error_class(error: &BrowserError) -> (r: &'static str)
    ensures
        r@ == warning_class(error@),
{
    if names(error, "browsercapture:") {
        "BrowserCapture"
    } else if names(error, "artifactwrite:") {
        "ArtifactWrite"
    } else {
        "ArtifactWarning"
    }
}

/// The warning about a failed capture. Of the error it tells the class alone.
pub open spec fn warning_text(run_name: Option<Seq<char>>, target: Seq<char>, class: Seq<char>) -> Seq<char> {
    (if class == "BrowserCapture"@ {
        "could not capture "@ + target + " from browser"@
    } else {
        "could not write "@ + target
    }) + " for run "@ + (match run_name {
        Some(name) => name,
        None => "unknown"@,
    }) + "; error_class "@ + class
}

/// The warning about a failed capture of a run.
pub fn artifact_warning_message(run_name: Option<&str>, target: &str, error: &BrowserError) -> (r: String)
    ensures
        r@ == warning_text(opt_str(run_name), target@, warning_class(error@)),
{
    let class = artifact_warning_error_class(error);
    let mut message = if text::same(class, "BrowserCapture") {
        text::cat3("could not capture ", target, " from browser")
    } else {
        text::cat2("could not write ", target)
    };
    message.push_str(" for run ");
    message.push_str(match run_name {
        Some(name) => name,
        None => "unknown",
    });
    message.push_str("; error_class ");
    message.push_str(class);
    message
}

/// The path of a capture, or nothing where it failed, with the warning to
/// write then.
pub fn artifact_capture_result_best_effort(
    result: Result<Option<String>, BrowserError>,
    run_name: Option<&str>,
    target: &str,
) -> (r: (Option<String>, Option<String>))
    ensures
        match result {
            Ok(path) => r == (path, None::<String>),
            Err(error) => r.0 is None && opt_text(r.1) == Some(
                warning_text(opt_str(run_name), target@, warning_class(error@)),
            ),
        },
{
    match result {
        Ok(path) => (path, None),
        Err(error) => (None, Some(artifact_warning_message(run_name, target, &error))),
    }
}

} // verus!
