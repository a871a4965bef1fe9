//! The Pterodactyl panel: what its answers mean and what to do about them.

pub mod allocation;
pub mod answers;
pub mod clearance;
pub mod decisions;
pub mod endings;
pub mod laws;
pub mod lifecycle;
pub mod panel;
pub mod power;
pub mod requests;
pub mod start;
pub mod supervisor;

use vstd::prelude::*;
use crate::outside;
use crate::outside::lossy_text;
use crate::provider::{failure_view, provider_failure, ProviderMutation, ProviderStartFailure};
use crate::text;
use crate::text::{
    decimal, holds, join, lower, only_if, opt_str, opt_text, texts, trim, upper,
};

verus! {

// ---------------------------------------------------------------------------
// What the panel reports
// ---------------------------------------------------------------------------

/// The power state of the server.
#[verifier::ext_equal]
#[derive(Clone, Debug)]
pub struct PterodactylResources<T = String> {
    pub current_state: T,
    pub is_suspended: bool,
}

impl View for PterodactylResources<String> {
    type V = PterodactylResources<Seq<char>>;

    open spec fn view(&self) -> PterodactylResources<Seq<char>> {
        PterodactylResources { current_state: self.current_state@, is_suspended: self.is_suspended }
    }
}

/// The server as the panel lists it.
#[verifier::ext_equal]
#[derive(Clone, Debug)]
pub struct PterodactylServer<T = String> {
    pub uuid: T,
    pub is_suspended: bool,
    pub is_limbo: bool,
    pub status: Option<T>,
}

impl View for PterodactylServer<String> {
    type V = PterodactylServer<Seq<char>>;

    open spec fn view(&self) -> PterodactylServer<Seq<char>> {
        PterodactylServer {
            uuid: self.uuid@,
            is_suspended: self.is_suspended,
            is_limbo: self.is_limbo,
            status: opt_text(self.status),
        }
    }
}

/// Where the server stands in the host's allocation queue.
#[verifier::ext_equal]
#[derive(Clone, Debug, PartialEq, Eq)]
pub struct PlaySleepStatus<T = String> {
    pub phase: T,
    pub connection: Option<T>,
    pub position: Option<u64>,
    pub total: Option<u64>,
    pub estimated_minutes: Option<u64>,
    pub blocked: Option<bool>,
    pub enabled: Option<bool>,
}

impl View for PlaySleepStatus<String> {
    type V = PlaySleepStatus<Seq<char>>;

    open spec fn view(&self) -> PlaySleepStatus<Seq<char>> {
        PlaySleepStatus {
            phase: self.phase@,
            connection: opt_text(self.connection),
            position: self.position,
            total: self.total,
            estimated_minutes: self.estimated_minutes,
            blocked: self.blocked,
            enabled: self.enabled,
        }
    }
}

impl PlaySleepStatus<String> {
    /// A copy of the status.
    pub fn copied(&self) -> (r: Self)
        ensures
            r@ == self@,
    {
        PlaySleepStatus {
            phase: self.phase.clone(),
            connection: text::copy_opt(&self.connection),
            position: self.position,
            total: self.total,
            estimated_minutes: self.estimated_minutes,
            blocked: self.blocked,
            enabled: self.enabled,
        }
    }
}

/// An allocation that is ready, and whether this run asked for it.
#[verifier::ext_equal]
#[derive(Clone, Debug)]
pub struct AllocationResult<T = String> {
    pub minecraft_address: Option<T>,
    pub status: PlaySleepStatus<T>,
    pub wake_requested: bool,
}

impl View for AllocationResult<String> {
    type V = AllocationResult<Seq<char>>;

    open spec fn view(&self) -> AllocationResult<Seq<char>> {
        AllocationResult {
            minecraft_address: opt_text(self.minecraft_address),
            status: self.status@,
            wake_requested: self.wake_requested,
        }
    }
}

/// The view of an optional allocation.
pub open spec fn opt_allocation(value: Option<AllocationResult>) -> Option<AllocationResult<Seq<char>>> {
    match value {
        Some(allocation) => Some(allocation@),
        None => None,
    }
}

// ---------------------------------------------------------------------------
// Decisions
// ---------------------------------------------------------------------------

/// What a power state asks for.
#[derive(Clone, Copy, Debug, PartialEq, Eq, Structural)]
pub enum StateAction {
    AlreadyActive,
    RequestStart,
    WaitForStopping,
    FailUnknown,
}

/// What the server's listing asks for.
#[derive(Clone, Copy, Debug, PartialEq, Eq, Structural)]
pub enum ServerDetailsAction {
    Wake,
    FailSuspended,
    FetchResources,
}

/// A server in limbo is woken even where it is also suspended.
pub open spec fn details_action(details: PterodactylServer<Seq<char>>) -> ServerDetailsAction {
    if details.is_limbo {
        ServerDetailsAction::Wake
    } else if details.is_suspended {
        ServerDetailsAction::FailSuspended
    } else {
        ServerDetailsAction::FetchResources
    }
}

/// What the server's listing asks for.
pub fn action_for_server_details(details: &PterodactylServer) -> (r: ServerDetailsAction)
    ensures
        r == details_action(details@),
{
    if details.is_limbo {
        ServerDetailsAction::Wake
    } else if details.is_suspended {
        ServerDetailsAction::FailSuspended
    } else {
        ServerDetailsAction::FetchResources
    }
}

/// A word of the panel as it is compared: trimmed and in lower case.
pub open spec fn folded(value: Seq<char>) -> Seq<char> {
    lower(trim(value))
}

/// A word of the panel as it is compared: trimmed and in lower case.
pub fn fold(value: &str) -> (r: String)
    ensures
        r@ == folded(value@),
{
    text::lowered(text::trimmed(value).as_str())
}

/// What a power state asks for.
pub open spec fn state_action(state: Seq<char>) -> StateAction {
    let word = folded(state);
    if word == "running"@ || word == "starting"@ {
        StateAction::AlreadyActive
    } else if word == "offline"@ || word == "stopped"@ {
        StateAction::RequestStart
    } else if word == "stopping"@ {
        StateAction::WaitForStopping
    } else {
        StateAction::FailUnknown
    }
}

/// What a power state asks for.
pub fn action_for_state(state: &str) -> (r: StateAction)
    ensures
        r == state_action(state@),
{
    let folded = fold(state);
    let word = folded.as_str();
    if text::same(word, "running") || text::same(word, "starting") {
        StateAction::AlreadyActive
    } else if text::same(word, "offline") || text::same(word, "stopped") {
        StateAction::RequestStart
    } else if text::same(word, "stopping") {
        StateAction::WaitForStopping
    } else {
        StateAction::FailUnknown
    }
}

/// A power state as it is shown: in lower case but for its first letter.
pub open spec fn shown_state(state: Seq<char>) -> Seq<char> {
    let word = folded(state);
    if word.len() == 0 {
        "Unknown"@
    } else {
        upper(word.take(1)) + word.skip(1)
    }
}

/// A power state as it is shown: in lower case but for its first letter.
pub fn normalized_state(state: &str) -> (r: String)
    ensures
        r@ == shown_state(state@),
{
    let word = text::chars_of(fold(state).as_str());
    if word.len() == 0 {
        return "Unknown".to_owned();
    }
    let mut out = String::new();
    out.push(text::char_upper(word[0]));
    out.push_str(text::string_of_range(&word, 1, word.len()).as_str());
    proof {
        assert(out@ =~= upper(word@.take(1)) + word@.skip(1));
    }
    out
}

/// Whether the host has allocated the server.
pub open spec fn allocation_ready(status: PlaySleepStatus<Seq<char>>) -> bool {
    ||| (status.connection matches Some(connection) && trim(connection).len() > 0)
    ||| folded(status.phase) == lower("active"@)
}

/// Whether the host has allocated the server.
pub fn sleep_status_allocation_ready(status: &PlaySleepStatus) -> (r: bool)
    ensures
        r == allocation_ready(status@),
{
    if let Some(connection) = &status.connection {
        if !text::trimmed(connection.as_str()).as_str().is_empty() {
            return true;
        }
    }
    text::same_ignoring_case(text::trimmed(status.phase.as_str()).as_str(), "active")
}

/// Whether the status shows that a wake request took effect.
pub open spec fn wake_confirmed(status: PlaySleepStatus<Seq<char>>) -> bool {
    let phase = folded(status.phase);
    allocation_ready(status) || phase == "queued"@ || phase == "waking"@ || phase == "attention"@
}

/// Whether the status shows that a wake request took effect.
pub fn sleep_status_confirms_wake(status: &PlaySleepStatus) -> (r: bool)
    ensures
        r == wake_confirmed(status@),
{
    let folded = fold(status.phase.as_str());
    let phase = folded.as_str();
    sleep_status_allocation_ready(status) || text::same(phase, "queued") || text::same(phase, "waking")
        || text::same(phase, "attention")
}

/// The class and message of an allocation that cannot go on.
pub open spec fn status_failure(status: PlaySleepStatus<Seq<char>>) -> Option<(Seq<char>, Seq<char>)> {
    let phase = folded(status.phase);
    if status.enabled == Some(false) {
        Some((
            "ProviderAllocationDisabled"@,
            "Play Hosting allocation is disabled for the configured server"@,
        ))
    } else if status.blocked == Some(true) || phase == lower("attention"@) {
        Some((
            "ProviderAllocationBlocked"@,
            "Play Hosting allocation requires attention before it can continue"@,
        ))
    } else if phase == "active"@ || phase == "queued"@ || phase == "waking"@ || phase == "suspended"@
        || phase == "sleeping"@ || phase == "asleep"@ {
        None
    } else {
        Some((
            "ProviderAllocationStateUnknown"@,
            "Play Hosting returned an unsupported allocation phase"@,
        ))
    }
}

/// The class and message of an allocation that cannot go on.
pub fn allocation_status_failure(status: &PlaySleepStatus) -> (r: Option<(&'static str, &'static str)>)
    ensures
        match r {
            Some((error_class, message)) => status_failure(status@) == Some((error_class@, message@)),
            None => status_failure(status@) is None,
        },
{
    if let Some(false) = status.enabled {
        return Some((
            "ProviderAllocationDisabled",
            "Play Hosting allocation is disabled for the configured server",
        ));
    }
    let blocked = match status.blocked {
        Some(value) => value,
        None => false,
    };
    let bare = text::trimmed(status.phase.as_str());
    if blocked || text::same_ignoring_case(bare.as_str(), "attention") {
        return Some((
            "ProviderAllocationBlocked",
            "Play Hosting allocation requires attention before it can continue",
        ));
    }
    let folded = fold(status.phase.as_str());
    let phase = folded.as_str();
    if text::same(phase, "active") || text::same(phase, "queued") || text::same(phase, "waking")
        || text::same(phase, "suspended") || text::same(phase, "sleeping")
        || text::same(phase, "asleep") {
        None
    } else {
        Some((
            "ProviderAllocationStateUnknown",
            "Play Hosting returned an unsupported allocation phase",
        ))
    }
}

/// The address at which players reach the allocated server.
pub open spec fn connection_address(status: PlaySleepStatus<Seq<char>>) -> Option<Seq<char>> {
    match status.connection {
        Some(connection) if trim(connection).len() > 0 => Some(trim(connection)),
        _ => None,
    }
}

/// The address at which players reach the allocated server.
pub fn minecraft_connection(status: &PlaySleepStatus) -> (r: Option<String>)
    ensures
        opt_text(r) == connection_address(status@),
{
    if let Some(connection) = &status.connection {
        let bare = text::trimmed(connection.as_str());
        if !bare.as_str().is_empty() {
            return Some(bare);
        }
    }
    None
}

/// The status in words: phase, place in the queue, estimate, blockade.
pub open spec fn status_detail(status: PlaySleepStatus<Seq<char>>) -> Seq<char> {
    join(
        seq!["phase "@ + folded(status.phase)] + (match (status.position, status.total) {
            (Some(position), Some(total)) => seq![
                "queue "@ + decimal(position as nat) + "/"@ + decimal(total as nat),
            ],
            (Some(position), None) => seq!["queue position "@ + decimal(position as nat)],
            (None, _) => Seq::empty(),
        }) + (match status.estimated_minutes {
            Some(minutes) => seq!["estimated "@ + decimal(minutes as nat) + " minutes"@],
            None => Seq::empty(),
        }) + only_if(status.blocked == Some(true), "blocked"@),
        ", "@,
    )
}

/// The status in words: phase, place in the queue, estimate, blockade.
pub fn allocation_status_detail(status: &PlaySleepStatus) -> (r: String)
    ensures
        r@ == status_detail(status@),
{
    let mut parts = text::no_texts();
    text::add_text(&mut parts, text::cat2("phase ", fold(status.phase.as_str()).as_str()));
    let ghost p0 = seq!["phase "@ + folded(status@.phase)];
    assert(texts(parts@) =~= p0);
    if let Some(position) = status.position {
        let place = text::decimal_u64(position);
        match status.total {
            Some(total) => {
                let all = text::decimal_u64(total);
                text::add_text(&mut parts, text::cat4("queue ", place.as_str(), "/", all.as_str()));
            },
            None => {
                text::add_text(&mut parts, text::cat2("queue position ", place.as_str()));
            },
        }
    }
    let ghost p1 = p0 + (match (status.position, status.total) {
        (Some(position), Some(total)) => seq![
            "queue "@ + decimal(position as nat) + "/"@ + decimal(total as nat),
        ],
        (Some(position), None) => seq!["queue position "@ + decimal(position as nat)],
        (None, _) => Seq::empty(),
    });
    assert(texts(parts@) =~= p1);
    if let Some(minutes) = status.estimated_minutes {
        text::add_text(
            &mut parts,
            text::cat3("estimated ", text::decimal_u64(minutes).as_str(), " minutes"),
        );
    }
    let ghost p2 = p1 + (match status.estimated_minutes {
        Some(minutes) => seq!["estimated "@ + decimal(minutes as nat) + " minutes"@],
        None => Seq::empty(),
    });
    assert(texts(parts@) =~= p2);
    if let Some(true) = status.blocked {
        text::add_text(&mut parts, "blocked".to_owned());
    }
    assert(texts(parts@) =~= p2 + only_if(status.blocked == Some(true), "blocked"@));
    text::joined(&parts, ", ")
}

/// Why an allocation was given up.
pub open spec fn timeout_detail(
    status: PlaySleepStatus<Seq<char>>,
    last_error: Option<Seq<char>>,
) -> Seq<char> {
    let detail = "Provider allocation did not become active before the configured deadline ("@
        + status_detail(status) + ")"@;
    match last_error {
        Some(error) => detail + "; last transient error: "@ + error,
        None => detail,
    }
}

/// Why an allocation was given up.
pub fn allocation_timeout_detail(status: &PlaySleepStatus, last_error: Option<&str>) -> (r: String)
    ensures
        r@ == timeout_detail(status@, opt_str(last_error)),
{
    let mut detail = text::cat3(
        "Provider allocation did not become active before the configured deadline (",
        allocation_status_detail(status).as_str(),
        ")",
    );
    if let Some(error) = last_error {
        detail.push_str("; last transient error: ");
        detail.push_str(error);
    }
    detail
}

/// Whether `c` is an ASCII hexadecimal digit.
pub open spec fn is_hex_digit(c: char) -> bool {
    '0' <= c <= '9' || 'a' <= c <= 'f' || 'A' <= c <= 'F'
}

/// Whether a server may be named so in a URL: at most 64 hexadecimal digits
/// and hyphens, and at least one.
pub open spec fn is_server_reference(value: Seq<char>) -> bool {
    &&& 0 < value.len() <= 64
    &&& forall|i: int| 0 <= i < value.len() ==> is_hex_digit(#[trigger] value[i]) || value[i] == '-'
}

/// Whether a server may be named so in a URL.
pub fn valid_server_reference(value: &str) -> (r: bool)
    ensures
        r == is_server_reference(value@),
{
    let chars = text::chars_of(value);
    if chars.len() == 0 || chars.len() > 64 {
        return false;
    }
    let mut i: usize = 0;
    while i < chars.len()
        invariant
            i <= chars@.len(),
            chars@ == value@,
            forall|j: int| 0 <= j < i ==> is_hex_digit(#[trigger] chars@[j]) || chars@[j] == '-',
        decreases chars@.len() - i,
    {
        let c: char = chars[i];
        if !(('0' <= c && c <= '9') || ('a' <= c && c <= 'f') || ('A' <= c && c <= 'F') || c == '-') {
            assert(!is_hex_digit(value@[i as int]));
            return false;
        }
        i += 1;
    }
    true
}

// ---------------------------------------------------------------------------
// Failed requests
// ---------------------------------------------------------------------------

/// A request to the panel that did not succeed.
#[verifier::ext_equal]
#[derive(Clone, Copy, Debug)]
pub struct ApiError<T = &'static str> {
    pub error_class: T,
    pub message: T,
    pub challenge: bool,
    pub uncertain_mutation: ProviderMutation,
    pub retryable: bool,
}

impl View for ApiError<&'static str> {
    type V = ApiError<Seq<char>>;

    open spec fn view(&self) -> ApiError<Seq<char>> {
        ApiError {
            error_class: self.error_class@,
            message: self.message@,
            challenge: self.challenge,
            uncertain_mutation: self.uncertain_mutation,
            retryable: self.retryable,
        }
    }
}

/// An error that changed nothing and was no challenge.
pub open spec fn plain_error(error_class: Seq<char>, message: Seq<char>, retryable: bool) -> ApiError<Seq<char>> {
    ApiError {
        error_class,
        message,
        challenge: false,
        uncertain_mutation: ProviderMutation::Nothing,
        retryable,
    }
}

/// The provider failure that a request error amounts to.
pub open spec fn api_failure(error: ApiError<Seq<char>>) -> ProviderStartFailure<Seq<char>> {
    ProviderStartFailure {
        retryable: error.retryable,
        ..failure_view(error.error_class, error.message, None, error.uncertain_mutation)
    }
}

impl ApiError<&'static str> {
    /// An error that a repetition would not mend.
    pub fn definitive(error_class: &'static str, message: &'static str) -> (r: Self)
        ensures
            r@ == plain_error(error_class@, message@, false),
    {
        ApiError {
            error_class,
            message,
            challenge: false,
            uncertain_mutation: ProviderMutation::Nothing,
            retryable: false,
        }
    }

    /// An error that a repetition may mend.
    pub fn transient(error_class: &'static str, message: &'static str) -> (r: Self)
        ensures
            r@ == plain_error(error_class@, message@, true),
    {
        ApiError {
            error_class,
            message,
            challenge: false,
            uncertain_mutation: ProviderMutation::Nothing,
            retryable: true,
        }
    }

    /// The provider failure that the error amounts to.
    pub fn into_provider_failure(self) -> (r: ProviderStartFailure)
        ensures
            r@ == api_failure(self@),
    {
        let mut failure = provider_failure(
            self.error_class,
            self.message,
            None,
            self.uncertain_mutation,
        );
        failure.retryable = self.retryable;
        failure
    }
}

/// Whether a status code is one of the server errors.
pub open spec fn is_server_error(status: u16) -> bool {
    500 <= status < 600
}

/// Whether an answer asks for a browser challenge: its header says so, or its
/// text speaks of Cloudflare and of a moment to wait.
pub open spec fn is_challenge(cf_mitigated: Option<Seq<char>>, body: Seq<u8>) -> bool {
    let shown = lower(lossy_text(body));
    ||| (cf_mitigated matches Some(value) && lower(value) == lower("challenge"@))
    ||| (holds(shown, "cloudflare"@) && holds(shown, "just a moment"@))
}

/// Whether the text of an answer speaks of a Cloudflare challenge.
pub fn text_shows_challenge(shown: &str) -> (r: bool)
    ensures
        r == (holds(lower(shown@), "cloudflare"@) && holds(lower(shown@), "just a moment"@)),
{
    let folded = text::lowered(shown);
    text::contains(folded.as_str(), "cloudflare") && text::contains(folded.as_str(), "just a moment")
}

/// Whether an answer asks for a browser challenge.
pub fn is_cloudflare_challenge(cf_mitigated: Option<&str>, body: &[u8]) -> (r: bool)
    ensures
        r == is_challenge(opt_str(cf_mitigated), body@),
{
    if let Some(value) = cf_mitigated {
        if text::same_ignoring_case(value, "challenge") {
            return true;
        }
    }
    text_shows_challenge(outside::text_from_utf8_lossy(body).as_str())
}

/// The class and message of an unsuccessful status code.
pub open spec fn status_words(status: u16) -> (Seq<char>, Seq<char>) {
    if status == 401 {
        ("ProviderAuthentication"@, "Provider rejected the API token"@)
    } else if status == 403 {
        ("ProviderAuthorization"@, "Provider denied access to the configured server"@)
    } else if status == 404 {
        ("ProviderServerUnavailable"@, "Configured provider server was not found"@)
    } else if status == 422 {
        ("ProviderProtocol"@, "Provider rejected the requested power action"@)
    } else if status == 409 {
        (
            "ProviderStateConflict"@,
            "Provider state changed while the request was in progress"@,
        )
    } else if status == 429 {
        ("ProviderRateLimited"@, "Provider rate limit was reached"@)
    } else if is_server_error(status) {
        ("ProviderUnavailable"@, "Provider returned a server error"@)
    } else {
        ("ProviderProtocol"@, "Provider returned an unexpected status"@)
    }
}

/// What an unsuccessful answer means, given whether it is a challenge. Only a
/// server error leaves open whether a change was made; only a read is repeated
/// behind a challenge.
pub open spec fn reply_error(status: u16, challenged: bool, mutation: ProviderMutation) -> ApiError<Seq<char>> {
    if status == 403 && challenged {
        ApiError {
            error_class: "ProviderChallenge"@,
            message: "Cloudflare clearance is required"@,
            challenge: mutation == ProviderMutation::Nothing,
            uncertain_mutation: ProviderMutation::Nothing,
            retryable: false,
        }
    } else {
        ApiError {
            error_class: status_words(status).0,
            message: status_words(status).1,
            challenge: false,
            uncertain_mutation: if is_server_error(status) {
                mutation
            } else {
                ProviderMutation::Nothing
            },
            retryable: status == 429 || is_server_error(status),
        }
    }
}

/// What an unsuccessful answer means, given whether it is a challenge.
pub fn classify_status(status: u16, challenged: bool, mutation: ProviderMutation) -> (r: ApiError)
    ensures
        r@ == reply_error(status, challenged, mutation),
{
    if status == 403 && challenged {
        return ApiError {
            error_class: "ProviderChallenge",
            message: "Cloudflare clearance is required",
            challenge: mutation == ProviderMutation::Nothing,
            uncertain_mutation: ProviderMutation::Nothing,
            retryable: false,
        };
    }
    let server_error = 500 <= status && status < 600;
    let (error_class, message) = if status == 401 {
        ("ProviderAuthentication", "Provider rejected the API token")
    } else if status == 403 {
        ("ProviderAuthorization", "Provider denied access to the configured server")
    } else if status == 404 {
        ("ProviderServerUnavailable", "Configured provider server was not found")
    } else if status == 422 {
        ("ProviderProtocol", "Provider rejected the requested power action")
    } else if status == 409 {
        ("ProviderStateConflict", "Provider state changed while the request was in progress")
    } else if status == 429 {
        ("ProviderRateLimited", "Provider rate limit was reached")
    } else if server_error {
        ("ProviderUnavailable", "Provider returned a server error")
    } else {
        ("ProviderProtocol", "Provider returned an unexpected status")
    };
    ApiError {
        error_class,
        message,
        challenge: false,
        uncertain_mutation: if server_error { mutation } else { ProviderMutation::Nothing },
        retryable: status == 429 || server_error,
    }
}

/// What an unsuccessful answer means.
pub fn classify_api_response(
    status: u16,
    cf_mitigated: Option<&str>,
    body: &[u8],
    mutation: ProviderMutation,
) -> (r: ApiError)
    ensures
        r@ == reply_error(status, is_challenge(opt_str(cf_mitigated), body@), mutation),
{
    let challenged = is_cloudflare_challenge(cf_mitigated, body);
    classify_status(status, challenged, mutation)
}

/// Why a response body was not taken.
#[derive(Clone, Copy, Debug, PartialEq, Eq, Structural)]
pub enum LimitedBodyError {
    Read,
    TooLarge,
}

/// The greatest size of a response body.
pub const MAX_RESPONSE_BYTES: u64 = 1024 * 1024;

/// Whether a response that announces `content_length` bytes is refused before
/// it is read.
pub fn announces_too_much(content_length: Option<u64>, max_bytes: u64) -> (r: bool)
    ensures
        r == (content_length matches Some(size) && size > max_bytes),
{
    match content_length {
        Some(size) => size > max_bytes,
        None => false,
    }
}

/// Puts a chunk behind the body, unless the body would exceed `max_bytes`.
pub fn take_chunk(body: &mut Vec<u8>, chunk: &[u8], max_bytes: u64) -> (r: Result<(), LimitedBodyError>)
    ensures
        ({
            let total = old(body)@.len() + chunk@.len();
            if total <= max_bytes && total <= usize::MAX {
                r is Ok && final(body)@ == old(body)@ + chunk@
            } else {
                r == Err::<(), LimitedBodyError>(LimitedBodyError::TooLarge) && final(body)@ == old(body)@
            }
        }),
{
    let held: usize = body.len();
    let more: usize = chunk.len();
    if held > usize::MAX - more {
        return Err(LimitedBodyError::TooLarge);
    }
    if (held + more) as u64 > max_bytes {
        return Err(LimitedBodyError::TooLarge);
    }
    body.extend_from_slice(chunk);
    assert(body@ =~= old(body)@ + chunk@);
    Ok(())
}

/// The request error of a response body that was not taken.
pub fn body_error(error: LimitedBodyError) -> (r: ApiError)
    ensures
        r@ == match error {
            LimitedBodyError::Read => plain_error(
                "ProviderUnavailable"@,
                "Provider response could not be read"@,
                true,
            ),
            LimitedBodyError::TooLarge => plain_error(
                "ProviderProtocol"@,
                "Provider response exceeded the allowed size"@,
                false,
            ),
        },
{
    match error {
        LimitedBodyError::Read => ApiError::transient(
            "ProviderUnavailable",
            "Provider response could not be read",
        ),
        LimitedBodyError::TooLarge => ApiError::definitive(
            "ProviderProtocol",
            "Provider response exceeded the allowed size",
        ),
    }
}

} // verus!
