//! Requests to the panel: where they go, what their answers mean, and when a
//! read is repeated behind a fresh clearance.

use vstd::prelude::*;
use crate::outside;
use crate::outside::{is_header_text, url_joined};
use crate::provider::{ProviderMutation, ProviderStartFailure};
use crate::pterodactyl::{
    api_failure, body_error, classify_api_response, is_challenge, is_server_reference, plain_error,
    reply_error, valid_server_reference, ApiError, LimitedBodyError, PlaySleepStatus,
    PterodactylResources, PterodactylServer,
};
use crate::text;
use crate::text::{opt_str, opt_text};

verus! {

// ---------------------------------------------------------------------------
// Where requests go
// ---------------------------------------------------------------------------

/// The path of an endpoint of a server, below the panel's origin.
pub open spec fn endpoint_path(server_reference: Seq<char>, endpoint: Option<Seq<char>>) -> Seq<char> {
    match endpoint {
        Some(endpoint) => "api/client/servers/"@ + server_reference + "/"@ + endpoint,
        None => "api/client/servers/"@ + server_reference,
    }
}

/// The address of an endpoint, given how the URL crate joins it to the origin.
pub open spec fn endpoint_url(server_reference: Seq<char>, joined: Option<Seq<char>>) -> Result<Seq<char>, ApiError<Seq<char>>> {
    if !is_server_reference(server_reference) {
        Err(
            plain_error(
                "ProviderConfiguration"@,
                "Server reference contained invalid characters"@,
                false,
            ),
        )
    } else {
        match joined {
            Some(url) => Ok(url),
            None => Err(
                plain_error("ProviderConfiguration"@, "Could not construct provider URL"@, false),
            ),
        }
    }
}

/// The view of an address or of the reason why there is none.
pub open spec fn url_view(result: Result<String, ApiError>) -> Result<Seq<char>, ApiError<Seq<char>>> {
    match result {
        Ok(url) => Ok(url@),
        Err(error) => Err(error@),
    }
}

/// The path of an endpoint of a server, below the panel's origin.
pub fn server_path(server_reference: &str, endpoint: Option<&str>) -> (r: String)
    ensures
        r@ == endpoint_path(server_reference@, opt_str(endpoint)),
{
    match endpoint {
        Some(endpoint) => text::cat4("api/client/servers/", server_reference, "/", endpoint),
        None => text::cat2("api/client/servers/", server_reference),
    }
}

/// Accepts the joined address of an endpoint, for a server that may be named.
pub fn check_api_url(server_reference: &str, joined: Option<String>) -> (r: Result<String, ApiError>)
    ensures
        url_view(r) == endpoint_url(server_reference@, opt_text(joined)),
{
    if !valid_server_reference(server_reference) {
        return Err(
            ApiError::definitive(
                "ProviderConfiguration",
                "Server reference contained invalid characters",
            ),
        );
    }
    match joined {
        Some(url) => Ok(url),
        None => Err(
            ApiError::definitive("ProviderConfiguration", "Could not construct provider URL"),
        ),
    }
}

/// The address of an endpoint of a server on the panel.
pub fn api_url(panel_origin: &str, server_reference: &str, endpoint: Option<&str>) -> (r: Result<String, ApiError>)
    ensures
        url_view(r) == endpoint_url(
            server_reference@,
            url_joined(panel_origin@, endpoint_path(server_reference@, opt_str(endpoint))),
        ),
{
    let path = server_path(server_reference, endpoint);
    check_api_url(server_reference, outside::join_url(panel_origin, path.as_str()))
}

/// The endpoint that wakes a sleeping server.
pub const WAKE_ENDPOINT: &'static str = "wake";

/// The endpoint that takes power signals.
pub const POWER_ENDPOINT: &'static str = "power";

/// The document that asks for a server to be powered on.
pub const POWER_REQUEST: &'static str = "{\"signal\":\"start\"}";

/// The address of the solver's interface, where it can be built.
pub fn solver_url(flaresolverr_url: &str) -> (r: Option<String>)
    ensures
        opt_text(r) == url_joined(flaresolverr_url@, "v1"@),
{
    outside::join_url(flaresolverr_url, "v1")
}

/// The value of the authorization header, unless the token cannot stand in one.
pub fn authorization(api_token: &str) -> (r: Result<String, ApiError>)
    ensures
        url_view(r) == if is_header_text("Bearer "@ + api_token@) {
            Ok("Bearer "@ + api_token@)
        } else {
            Err(
                plain_error("ProviderConfiguration"@, "API token was not a valid header"@, false),
            )
        },
{
    let value = text::cat2("Bearer ", api_token);
    if outside::is_header_value(value.as_str()) {
        Ok(value)
    } else {
        Err(ApiError::definitive("ProviderConfiguration", "API token was not a valid header"))
    }
}

// ---------------------------------------------------------------------------
// What answers mean
// ---------------------------------------------------------------------------

/// What came of a read. `parsed` is the body of a successful answer as the
/// expected value, where it is one.
#[allow(inconsistent_fields)]
#[derive(Debug)]
pub enum ReadReply<V> {
    /// The request could not be built.
    NotSent { error: ApiError },
    /// The request could not be completed.
    Unreached,
    /// The body was not taken.
    Body { error: LimitedBodyError },
    /// The panel answered.
    Answered { status: u16, cf_mitigated: Option<String>, body: Vec<u8>, parsed: Option<V> },
}

/// The value of a read, or why there is none. `garbled` says that a successful
/// answer was not the expected value.
pub open spec fn read_value<V>(reply: ReadReply<V>, garbled: Seq<char>) -> Result<V, ApiError<Seq<char>>> {
    match reply {
        ReadReply::NotSent { error } => Err(error@),
        ReadReply::Unreached => Err(
            plain_error(
                "ProviderUnavailable"@,
                "Provider request could not be completed"@,
                true,
            ),
        ),
        ReadReply::Body { error: LimitedBodyError::Read } => Err(
            plain_error("ProviderUnavailable"@, "Provider response could not be read"@, true),
        ),
        ReadReply::Body { error: LimitedBodyError::TooLarge } => Err(
            plain_error(
                "ProviderProtocol"@,
                "Provider response exceeded the allowed size"@,
                false,
            ),
        ),
        ReadReply::Answered { status, cf_mitigated, body, parsed } => if status == 200 {
            match parsed {
                Some(value) => Ok(value),
                None => Err(plain_error("ProviderProtocol"@, garbled, false)),
            }
        } else {
            Err(
                reply_error(
                    status,
                    is_challenge(opt_text(cf_mitigated), body@),
                    ProviderMutation::Nothing,
                ),
            )
        },
    }
}

/// The view of a read whose value is its own view.
pub open spec fn read_view<V>(result: Result<V, ApiError>) -> Result<V, ApiError<Seq<char>>> {
    match result {
        Ok(value) => Ok(value),
        Err(error) => Err(error@),
    }
}

fn read<V>(reply: ReadReply<V>, garbled: &'static str) -> (r: Result<V, ApiError>)
    ensures
        read_view(r) == read_value(reply, garbled@),
{
    match reply {
        ReadReply::NotSent { error } => Err(error),
        ReadReply::Unreached => Err(
            ApiError::transient("ProviderUnavailable", "Provider request could not be completed"),
        ),
        ReadReply::Body { error } => Err(body_error(error)),
        ReadReply::Answered { status, cf_mitigated, body, parsed } => {
            if status == 200 {
                match parsed {
                    Some(value) => Ok(value),
                    None => Err(ApiError::definitive("ProviderProtocol", garbled)),
                }
            } else {
                let header = match &cf_mitigated {
                    Some(value) => Some(value.as_str()),
                    None => None,
                };
                Err(
                    classify_api_response(
                        status,
                        header,
                        body.as_slice(),
                        ProviderMutation::Nothing,
                    ),
                )
            }
        },
    }
}

/// The server's listing, or why there is none. A listing must name its server
/// so that it can stand in a URL.
pub open spec fn listing(reply: ReadReply<PterodactylServer>) -> Result<PterodactylServer, ApiError<Seq<char>>> {
    match read_value(reply, "Provider server response was not valid JSON"@) {
        Ok(server) => if is_server_reference(server@.uuid) {
            Ok(server)
        } else {
            Err(
                plain_error("ProviderProtocol"@, "Provider returned an invalid server UUID"@, false),
            )
        },
        Err(error) => Err(error),
    }
}

/// A read gives the value of a successful answer, and nothing else does. A listing is
/// taken only where it names its server so that the name can stand in a URL. A read that
/// did not get through, or whose body broke off, may be repeated.
pub proof fn successful_answers_are_read<V>(
    reply: ReadReply<V>,
    garbled: Seq<char>,
    listed: ReadReply<PterodactylServer>,
)
    ensures
        read_value(reply, garbled) matches Ok(value) ==> (reply matches ReadReply::Answered { status, parsed, .. } && status
            == 200 && parsed == Some(value)),
        reply matches ReadReply::Answered { status, parsed, .. } ==> {
            &&& status == 200 && parsed is Some ==> read_value(reply, garbled) == Ok::<V, ApiError<Seq<char>>>(parsed->0)
            &&& status == 200 && parsed is None ==> (read_value(reply, garbled) matches Err(error) && error.error_class
                == "ProviderProtocol"@ && error.message == garbled && !error.retryable)
        },
        reply is Unreached ==> (read_value(reply, garbled) matches Err(error) && error.error_class
            == "ProviderUnavailable"@ && error.retryable && !error.challenge),
        reply matches ReadReply::Body { error: cause } ==> (read_value(reply, garbled) matches Err(error)
            && error.retryable == (cause is Read) && !error.challenge && error.error_class == (if cause is Read {
            "ProviderUnavailable"@
        } else {
            "ProviderProtocol"@
        })),
        listing(listed) matches Ok(server) ==> is_server_reference(server@.uuid) && read_value(
            listed,
            "Provider server response was not valid JSON"@,
        ) == Ok::<PterodactylServer, ApiError<Seq<char>>>(server),
        read_value(listed, "Provider server response was not valid JSON"@) matches Ok(server) ==> (listing(listed) is Ok
            <==> is_server_reference(server@.uuid)),
{
}

/// The server's listing, or why there is none.
pub fn fetch_details(reply: ReadReply<PterodactylServer>) -> (r: Result<PterodactylServer, ApiError>)
    ensures
        read_view(r) == listing(reply),
{
    match read(reply, "Provider server response was not valid JSON") {
        Ok(server) => {
            if valid_server_reference(server.uuid.as_str()) {
                Ok(server)
            } else {
                Err(
                    ApiError::definitive(
                        "ProviderProtocol",
                        "Provider returned an invalid server UUID",
                    ),
                )
            }
        },
        Err(error) => Err(error),
    }
}

/// The server's power state, or why there is none.
pub fn fetch_resources(reply: ReadReply<PterodactylResources>) -> (r: Result<PterodactylResources, ApiError>)
    ensures
        read_view(r) == read_value(reply, "Provider resources response was not valid JSON"@),
{
    read(reply, "Provider resources response was not valid JSON")
}

/// The server's place in the allocation queue, or why there is none.
pub fn fetch_sleep_status(reply: ReadReply<PlaySleepStatus>) -> (r: Result<PlaySleepStatus, ApiError>)
    ensures
        read_view(r) == read_value(reply, "Provider sleep-status response was not valid JSON"@),
{
    read(reply, "Provider sleep-status response was not valid JSON")
}

// ---------------------------------------------------------------------------
// Reading behind a challenge
// ---------------------------------------------------------------------------

/// What follows the first try of a read.
#[derive(Debug)]
pub enum ReadNext<V> {
    /// Fetch a clearance and read once more with it.
    Refresh,
    /// The read is over.
    Done { end: Result<V, ProviderStartFailure> },
}

/// What follows the first try of a read: only a challenge is worth a refresh.
pub fn after_first_read<V>(result: Result<V, ApiError>) -> (r: ReadNext<V>)
    ensures
        match result {
            Ok(value) => r == (ReadNext::Done { end: Ok(value) }),
            Err(error) => if error.challenge {
                r is Refresh
            } else {
                r matches ReadNext::Done { end: Err(failure) } && failure@ == api_failure(error@)
            },
        },
{
    match result {
        Ok(value) => ReadNext::Done { end: Ok(value) },
        Err(error) => {
            if error.challenge {
                ReadNext::Refresh
            } else {
                ReadNext::Done { end: Err(error.into_provider_failure()) }
            }
        },
    }
}

/// The end of a read that was repeated with a fresh clearance.
pub fn after_second_read<V>(result: Result<V, ApiError>) -> (r: Result<V, ProviderStartFailure>)
    ensures
        match result {
            Ok(value) => r == Ok::<V, ProviderStartFailure>(value),
            Err(error) => r matches Err(failure) && failure@ == api_failure(error@),
        },
{
    match result {
        Ok(value) => Ok(value),
        Err(error) => Err(error.into_provider_failure()),
    }
}

/// A failed read never leaves a change in doubt.
pub proof fn failed_reads_change_nothing<V>(reply: ReadReply<V>, garbled: Seq<char>)
    requires
        reply matches ReadReply::NotSent { error } ==> error@.uncertain_mutation
            == ProviderMutation::Nothing,
    ensures
        read_value(reply, garbled) matches Err(error) ==> api_failure(error).uncertain_mutation
            == ProviderMutation::Nothing,
{
}

/// A server's endpoints stand below its own path, and that below the panel's interface; a
/// server that may not be named has none.
pub proof fn endpoints_stand_below_their_server(server: Seq<char>, endpoint: Seq<char>, joined: Option<Seq<char>>)
    ensures
        endpoint_path(server, None) == "api/client/servers/"@ + server,
        endpoint_path(server, Some(endpoint)) == "api/client/servers/"@ + server + "/"@ + endpoint,
        endpoint_url(server, joined) matches Ok(url) ==> is_server_reference(server) && joined == Some(url),
        is_server_reference(server) && joined is Some ==> endpoint_url(server, joined) is Ok,
        WAKE_ENDPOINT@ == "wake"@,
        POWER_ENDPOINT@ == "power"@,
        POWER_REQUEST@ == "{\"signal\":\"start\"}"@,
        crate::pterodactyl::MAX_RESPONSE_BYTES == 1_048_576,
{
}

} // verus!
