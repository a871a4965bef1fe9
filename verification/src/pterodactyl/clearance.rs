//! Cloudflare clearance: what a FlareSolverr answer is worth, and when a
//! clearance is fetched again.

use vstd::prelude::*;
use crate::outside;
use crate::outside::is_header_text;
use crate::provider::{failure_view, provider_failure, retryable_provider_failure, ProviderMutation, ProviderStartFailure};
use crate::pterodactyl::LimitedBodyError;
use crate::text;
use crate::text::{finishes, lower, opt_str, opt_text, split_on, texts};

verus! {

/// A cookie of the solved page. `expires` is the whole second of a finite,
/// positive expiry time.
#[verifier::ext_equal]
#[derive(Clone, Debug)]
pub struct FlareSolverrCookie<T = String> {
    pub name: T,
    pub value: T,
    pub domain: Option<T>,
    pub expires: Option<u64>,
}

impl View for FlareSolverrCookie<String> {
    type V = FlareSolverrCookie<Seq<char>>;

    open spec fn view(&self) -> FlareSolverrCookie<Seq<char>> {
        FlareSolverrCookie {
            name: self.name@,
            value: self.value@,
            domain: opt_text(self.domain),
            expires: self.expires,
        }
    }
}

/// The solved page.
#[derive(Clone, Debug)]
pub struct FlareSolverrSolution {
    pub status: u16,
    pub user_agent: String,
    pub cookies: Vec<FlareSolverrCookie>,
}

/// FlareSolverr's answer.
#[derive(Clone, Debug)]
pub struct FlareSolverrResponse {
    pub status: String,
    pub solution: Option<FlareSolverrSolution>,
}

/// The user agent and cookie with which the panel lets requests through.
#[verifier::ext_equal]
#[derive(Clone, Debug)]
pub struct Clearance<T = String> {
    pub user_agent: T,
    pub cookie_header: T,
    pub expires_at: Option<u64>,
}

impl View for Clearance<String> {
    type V = Clearance<Seq<char>>;

    open spec fn view(&self) -> Clearance<Seq<char>> {
        Clearance {
            user_agent: self.user_agent@,
            cookie_header: self.cookie_header@,
            expires_at: self.expires_at,
        }
    }
}

/// How many seconds before its expiry a clearance counts as expired.
pub const EXPIRY_MARGIN_SECS: u64 = 30;

/// Whether a clearance expires within the margin or has expired.
pub open spec fn has_expired(expires_at: Option<u64>, unix_timestamp: u64) -> bool {
    expires_at matches Some(expires_at) && unix_timestamp + EXPIRY_MARGIN_SECS >= expires_at
}

/// A clearance without an expiry does not expire; another counts as expired from half a
/// minute before its expiry on, and then for good.
pub proof fn clearances_expire_early(expires_at: u64, now: u64, later: u64)
    ensures
        !has_expired(None, now),
        now + 30 < expires_at ==> !has_expired(Some(expires_at), now),
        now + 30 >= expires_at ==> has_expired(Some(expires_at), now),
        now <= later && has_expired(Some(expires_at), now) ==> has_expired(Some(expires_at), later),
{
}

impl Clearance<String> {
    /// Whether the clearance expires within the margin or has expired.
    pub fn is_expired(&self, unix_timestamp: u64) -> (r: bool)
        ensures
            r == has_expired(self.expires_at, unix_timestamp),
    {
        match self.expires_at {
            Some(expires_at) => {
                if unix_timestamp > u64::MAX - EXPIRY_MARGIN_SECS {
                    true
                } else {
                    unix_timestamp + EXPIRY_MARGIN_SECS >= expires_at
                }
            },
            None => false,
        }
    }
}

/// The clearance to send along: the held one, unless it has expired.
pub fn cached_clearance(held: Option<Clearance>, unix_timestamp: u64) -> (r: Option<Clearance>)
    ensures
        r == (match held {
            Some(clearance) => if has_expired(clearance.expires_at, unix_timestamp) {
                None
            } else {
                held
            },
            None => None,
        }),
{
    match held {
        Some(clearance) => {
            if clearance.is_expired(unix_timestamp) {
                None
            } else {
                Some(clearance)
            }
        },
        None => None,
    }
}

// ---------------------------------------------------------------------------
// Cookies
// ---------------------------------------------------------------------------

/// `domain` without its leading dots.
pub open spec fn without_dots(domain: Seq<char>) -> Seq<char>
    decreases domain.len(),
{
    if domain.len() > 0 && domain[0] == '.' {
        without_dots(domain.skip(1))
    } else {
        domain
    }
}

fn strip_dots(domain: &str) -> (r: String)
    ensures
        r@ == without_dots(domain@),
{
    let chars = text::chars_of(domain);
    let mut from: usize = 0;
    proof {
        assert(chars@.skip(0) =~= chars@);
    }
    while from < chars.len() && chars[from] == '.'
        invariant
            from <= chars@.len(),
            without_dots(chars@) == without_dots(chars@.skip(from as int)),
        decreases chars@.len() - from,
    {
        proof {
            assert(chars@.skip(from as int).skip(1) =~= chars@.skip(from + 1));
        }
        from += 1;
    }
    proof {
        assert(chars@.subrange(from as int, chars@.len() as int) =~= chars@.skip(from as int));
    }
    text::string_of_range(&chars, from, chars.len())
}

/// Whether a cookie's domain covers the panel: it has at least two labels and
/// is the panel's host or a parent of it.
pub open spec fn domain_covers(domain: Option<Seq<char>>, panel_host: Seq<char>) -> bool {
    match domain {
        Some(domain) => {
            let scope = lower(without_dots(domain));
            let host = lower(panel_host);
            split_on(scope, '.').len() >= 2 && (host == scope || finishes(host, "."@ + scope))
        },
        None => false,
    }
}

/// Whether a cookie's domain covers the panel.
pub fn cookie_domain_matches(domain: Option<&str>, panel_host: &str) -> (r: bool)
    ensures
        r == domain_covers(opt_str(domain), panel_host@),
{
    match domain {
        Some(domain) => {
            let scope = text::lowered(strip_dots(domain).as_str());
            let host = text::lowered(panel_host);
            let labels = text::split_at_mark(scope.as_str(), '.');
            proof {
                assert(texts(labels@).len() == labels@.len());
            }
            let dotted = text::cat2(".", scope.as_str());
            labels.len() >= 2 && (text::same(host.as_str(), scope.as_str()) || text::ends_with(
                host.as_str(),
                dotted.as_str(),
            ))
        },
        None => false,
    }
}

/// Whether a character may stand in a cookie's value: visible ASCII but for
/// quote, comma, semicolon and backslash.
pub open spec fn is_cookie_char(c: char) -> bool {
    '!' <= c <= '~' && c != '"' && c != ',' && c != ';' && c != '\\'
}

/// Whether the text may stand as a cookie's value.
pub open spec fn is_cookie_value(value: Seq<char>) -> bool {
    value.len() > 0 && forall|i: int| 0 <= i < value.len() ==> is_cookie_char(#[trigger] value[i])
}

/// Whether the text may stand as a cookie's value.
pub fn valid_cookie_value(value: &str) -> (r: bool)
    ensures
        r == is_cookie_value(value@),
{
    let chars = text::chars_of(value);
    if chars.len() == 0 {
        return false;
    }
    let mut i: usize = 0;
    while i < chars.len()
        invariant
            i <= chars@.len(),
            chars@ == value@,
            forall|j: int| 0 <= j < i ==> is_cookie_char(#[trigger] chars@[j]),
        decreases chars@.len() - i,
    {
        let c: char = chars[i];
        if !('!' <= c && c <= '~' && c != '"' && c != ',' && c != ';' && c != '\\') {
            assert(!is_cookie_char(value@[i as int]));
            return false;
        }
        i += 1;
    }
    true
}

// ---------------------------------------------------------------------------
// FlareSolverr's answer
// ---------------------------------------------------------------------------

/// The index of the first clearance cookie.
pub open spec fn is_first_clearance(cookies: Seq<FlareSolverrCookie>, at: int) -> bool {
    &&& 0 <= at < cookies.len()
    &&& cookies[at].name@ == "cf_clearance"@
    &&& forall|j: int| 0 <= j < at ==> (#[trigger] cookies[j]).name@ != "cf_clearance"@
}

/// Whether some cookie is a clearance.
pub open spec fn has_clearance(cookies: Seq<FlareSolverrCookie>) -> bool {
    exists|at: int| #[trigger] is_first_clearance(cookies, at)
}

/// The first clearance cookie.
pub open spec fn first_clearance(cookies: Seq<FlareSolverrCookie>) -> FlareSolverrCookie {
    cookies[choose|at: int| #[trigger] is_first_clearance(cookies, at)]
}

/// A failure of the solver.
pub open spec fn solver_failure(error_class: Seq<char>, message: Seq<char>) -> ProviderStartFailure<Seq<char>> {
    failure_view(error_class, message, None, ProviderMutation::Nothing)
}

/// What FlareSolverr's answer is worth: a clearance for the panel, or the
/// first of the reasons why it is none.
pub open spec fn clearance_of(
    response: FlareSolverrResponse,
    panel_host: Seq<char>,
) -> Result<Clearance<Seq<char>>, ProviderStartFailure<Seq<char>>> {
    if response.status@ != "ok"@ {
        Err(solver_failure("FlareSolverrChallenge"@, "FlareSolverr did not solve the browser challenge"@))
    } else {
        match response.solution {
            None => Err(
                solver_failure(
                    "FlareSolverrProtocol"@,
                    "FlareSolverr response did not contain a solution"@,
                ),
            ),
            Some(solution) => {
                let cookie = first_clearance(solution.cookies@)@;
                let header = "cf_clearance="@ + cookie.value;
                if solution.status != 200 {
                    Err(
                        solver_failure(
                            "FlareSolverrChallenge"@,
                            "FlareSolverr solution did not reach the panel"@,
                        ),
                    )
                } else if !has_clearance(solution.cookies@) {
                    Err(
                        solver_failure(
                            "FlareSolverrChallenge"@,
                            "FlareSolverr solution did not include Cloudflare clearance"@,
                        ),
                    )
                } else if !domain_covers(cookie.domain, panel_host) {
                    Err(
                        solver_failure(
                            "FlareSolverrProtocol"@,
                            "Cloudflare clearance was scoped to an unexpected domain"@,
                        ),
                    )
                } else if !is_cookie_value(cookie.value) {
                    Err(
                        solver_failure(
                            "FlareSolverrProtocol"@,
                            "FlareSolverr returned an invalid clearance cookie"@,
                        ),
                    )
                } else if !is_header_text(solution.user_agent@) {
                    Err(
                        solver_failure(
                            "FlareSolverrProtocol"@,
                            "FlareSolverr returned an invalid user agent"@,
                        ),
                    )
                } else if !is_header_text(header) {
                    Err(
                        solver_failure(
                            "FlareSolverrProtocol"@,
                            "FlareSolverr returned an invalid clearance cookie"@,
                        ),
                    )
                } else {
                    Ok(
                        Clearance {
                            user_agent: solution.user_agent@,
                            cookie_header: header,
                            expires_at: cookie.expires,
                        },
                    )
                }
            },
        }
    }
}

/// The view of a clearance or of the failure to get one.
pub open spec fn clearance_view(
    result: Result<Clearance, ProviderStartFailure>,
) -> Result<Clearance<Seq<char>>, ProviderStartFailure<Seq<char>>> {
    match result {
        Ok(clearance) => Ok(clearance@),
        Err(failure) => Err(failure@),
    }
}

fn find_clearance(cookies: &Vec<FlareSolverrCookie>) -> (r: Option<usize>)
    ensures
        match r {
            Some(at) => has_clearance(cookies@) && at < cookies@.len() && cookies@[at as int]
                == first_clearance(cookies@),
            None => !has_clearance(cookies@),
        },
{
    let mut i: usize = 0;
    while i < cookies.len()
        invariant
            i <= cookies@.len(),
            forall|j: int| 0 <= j < i ==> (#[trigger] cookies@[j]).name@ != "cf_clearance"@,
        decreases cookies@.len() - i,
    {
        if text::same(cookies[i].name.as_str(), "cf_clearance") {
            proof {
                assert(is_first_clearance(cookies@, i as int));
                let at = choose|at: int| #[trigger] is_first_clearance(cookies@, at);
                assert(at == i);
            }
            return Some(i);
        }
        i += 1;
    }
    None
}

/// What FlareSolverr's answer is worth.
pub fn parse_clearance(
    response: FlareSolverrResponse,
    panel_host: &str,
) -> (r: Result<Clearance, ProviderStartFailure>)
    ensures
        clearance_view(r) == clearance_of(response, panel_host@),
{
    if !text::same(response.status.as_str(), "ok") {
        return Err(
            provider_failure(
                "FlareSolverrChallenge",
                "FlareSolverr did not solve the browser challenge",
                None,
                ProviderMutation::Nothing,
            ),
        );
    }
    let solution = match response.solution {
        Some(solution) => solution,
        None => {
            return Err(
                provider_failure(
                    "FlareSolverrProtocol",
                    "FlareSolverr response did not contain a solution",
                    None,
                    ProviderMutation::Nothing,
                ),
            );
        },
    };
    if solution.status != 200 {
        return Err(
            provider_failure(
                "FlareSolverrChallenge",
                "FlareSolverr solution did not reach the panel",
                None,
                ProviderMutation::Nothing,
            ),
        );
    }
    let at: usize = match find_clearance(&solution.cookies) {
        Some(at) => at,
        None => {
            return Err(
                provider_failure(
                    "FlareSolverrChallenge",
                    "FlareSolverr solution did not include Cloudflare clearance",
                    None,
                    ProviderMutation::Nothing,
                ),
            );
        },
    };
    let cookie = &solution.cookies[at];
    let domain = match &cookie.domain {
        Some(domain) => Some(domain.as_str()),
        None => None,
    };
    if !cookie_domain_matches(domain, panel_host) {
        return Err(
            provider_failure(
                "FlareSolverrProtocol",
                "Cloudflare clearance was scoped to an unexpected domain",
                None,
                ProviderMutation::Nothing,
            ),
        );
    }
    if !valid_cookie_value(cookie.value.as_str()) {
        return Err(
            provider_failure(
                "FlareSolverrProtocol",
                "FlareSolverr returned an invalid clearance cookie",
                None,
                ProviderMutation::Nothing,
            ),
        );
    }
    if !outside::is_header_value(solution.user_agent.as_str()) {
        return Err(
            provider_failure(
                "FlareSolverrProtocol",
                "FlareSolverr returned an invalid user agent",
                None,
                ProviderMutation::Nothing,
            ),
        );
    }
    let cookie_header = text::cat2("cf_clearance=", cookie.value.as_str());
    if !outside::is_header_value(cookie_header.as_str()) {
        return Err(
            provider_failure(
                "FlareSolverrProtocol",
                "FlareSolverr returned an invalid clearance cookie",
                None,
                ProviderMutation::Nothing,
            ),
        );
    }
    Ok(
        Clearance {
            user_agent: solution.user_agent.clone(),
            cookie_header,
            expires_at: cookie.expires,
        },
    )
}

// ---------------------------------------------------------------------------
// Asking FlareSolverr
// ---------------------------------------------------------------------------

/// What came of one request to FlareSolverr.
#[derive(Clone, Debug)]
pub enum SolverReply {
    /// The address of the solver could not be built.
    NoUrl,
    /// The request could not be completed.
    Unreached,
    /// The solver answered with a status that is no success.
    Refused,
    /// The body was not taken.
    Body(LimitedBodyError),
    /// The body was not the expected JSON.
    Garbled,
    /// The solver's answer.
    Answer(FlareSolverrResponse),
}

/// The outcome of one request to FlareSolverr.
pub open spec fn solver_outcome(
    reply: SolverReply,
    panel_host: Seq<char>,
) -> Result<Clearance<Seq<char>>, ProviderStartFailure<Seq<char>>> {
    match reply {
        SolverReply::NoUrl => Err(
            solver_failure("FlareSolverrConfiguration"@, "Could not construct FlareSolverr URL"@),
        ),
        SolverReply::Unreached => Err(
            ProviderStartFailure {
                retryable: true,
                ..solver_failure(
                    "FlareSolverrUnavailable"@,
                    "FlareSolverr request could not be completed"@,
                )
            },
        ),
        SolverReply::Refused => Err(
            ProviderStartFailure {
                retryable: true,
                ..solver_failure(
                    "FlareSolverrUnavailable"@,
                    "FlareSolverr returned an unsuccessful status"@,
                )
            },
        ),
        SolverReply::Body(LimitedBodyError::Read) => Err(
            solver_failure("FlareSolverrProtocol"@, "FlareSolverr response could not be read"@),
        ),
        SolverReply::Body(LimitedBodyError::TooLarge) => Err(
            solver_failure(
                "FlareSolverrProtocol"@,
                "FlareSolverr response exceeded the allowed size"@,
            ),
        ),
        SolverReply::Garbled => Err(
            solver_failure("FlareSolverrProtocol"@, "FlareSolverr response was not valid JSON"@),
        ),
        SolverReply::Answer(response) => clearance_of(response, panel_host),
    }
}

/// The outcome of one request to FlareSolverr.
pub fn refresh_clearance_once(
    reply: SolverReply,
    panel_host: &str,
) -> (r: Result<Clearance, ProviderStartFailure>)
    ensures
        clearance_view(r) == solver_outcome(reply, panel_host@),
{
    match reply {
        SolverReply::NoUrl => Err(
            provider_failure(
                "FlareSolverrConfiguration",
                "Could not construct FlareSolverr URL",
                None,
                ProviderMutation::Nothing,
            ),
        ),
        SolverReply::Unreached => Err(
            retryable_provider_failure(
                "FlareSolverrUnavailable",
                "FlareSolverr request could not be completed",
            ),
        ),
        SolverReply::Refused => Err(
            retryable_provider_failure(
                "FlareSolverrUnavailable",
                "FlareSolverr returned an unsuccessful status",
            ),
        ),
        SolverReply::Body(error) => Err(
            provider_failure(
                "FlareSolverrProtocol",
                match error {
                    LimitedBodyError::Read => "FlareSolverr response could not be read",
                    LimitedBodyError::TooLarge => "FlareSolverr response exceeded the allowed size",
                },
                None,
                ProviderMutation::Nothing,
            ),
        ),
        SolverReply::Garbled => Err(
            provider_failure(
                "FlareSolverrProtocol",
                "FlareSolverr response was not valid JSON",
                None,
                ProviderMutation::Nothing,
            ),
        ),
        SolverReply::Answer(response) => parse_clearance(response, panel_host),
    }
}

/// How often a clearance is asked for.
pub const CLEARANCE_ATTEMPTS: u64 = 2;

/// The pause between two requests for a clearance.
pub const CLEARANCE_RETRY_INTERVAL_MS: u64 = 2_000;

/// What follows a request for a clearance.
#[derive(Debug)]
pub enum ClearanceStep {
    /// Pause, then ask once more.
    AskAgain { pause_ms: u64 },
    /// The refresh is over.
    Done(Result<Clearance, ProviderStartFailure>),
}

/// Whether a failed request for a clearance is repeated.
pub fn clearance_failure_is_retryable(failure: &ProviderStartFailure) -> (r: bool)
    ensures
        r == (failure@.error_class == "FlareSolverrUnavailable"@),
{
    text::same(failure.error_class.as_str(), "FlareSolverrUnavailable")
}

/// Whether the solver is asked again after request number `attempt`, counted from one,
/// that failed so: it was unavailable, and attempts are left.
pub open spec fn asks_again(attempt: u64, error_class: Option<Seq<char>>) -> bool {
    error_class == Some("FlareSolverrUnavailable"@) && attempt < CLEARANCE_ATTEMPTS
}

/// A solver is asked twice at most, two seconds apart, and the second time only where it
/// was unavailable.
pub proof fn solvers_are_asked_twice_at_most(attempt: u64, error_class: Option<Seq<char>>)
    ensures
        asks_again(attempt, error_class) ==> attempt < 2,
        attempt >= 2 ==> !asks_again(attempt, error_class),
        attempt == 1 && error_class == Some("FlareSolverrUnavailable"@) ==> asks_again(attempt, error_class),
        error_class is None ==> !asks_again(attempt, error_class),
        error_class != Some("FlareSolverrUnavailable"@) ==> !asks_again(attempt, error_class),
        CLEARANCE_RETRY_INTERVAL_MS == 2_000,
{
}

/// What follows the outcome of request number `attempt`, counted from one. An
/// unavailable solver is asked again while attempts are left; anything else
/// ends the refresh with that outcome.
pub fn after_clearance_attempt(
    attempt: u64,
    outcome: Result<Clearance, ProviderStartFailure>,
) -> (r: ClearanceStep)
    ensures
        r == if asks_again(
            attempt,
            match outcome {
                Ok(_) => None,
                Err(failure) => Some(failure@.error_class),
            },
        ) {
            ClearanceStep::AskAgain { pause_ms: CLEARANCE_RETRY_INTERVAL_MS }
        } else {
            ClearanceStep::Done(outcome)
        },
{
    let again = match &outcome {
        Ok(_) => false,
        Err(failure) => clearance_failure_is_retryable(failure) && attempt < CLEARANCE_ATTEMPTS,
    };
    if again {
        ClearanceStep::AskAgain { pause_ms: CLEARANCE_RETRY_INTERVAL_MS }
    } else {
        ClearanceStep::Done(outcome)
    }
}

} // verus!
