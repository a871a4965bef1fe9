//! The bot's settings, as its environment variables give them.

use vstd::prelude::*;
use crate::outside;
use crate::outside::{url_of, ParsedUrl};
use crate::pterodactyl::{folded, fold, is_server_reference, valid_server_reference};
use crate::text;
use crate::text::{all_digits, decimal, opt_str, parse_number, split_on, texts, trim};

verus! {

// ---------------------------------------------------------------------------
// Artifact capture
// ---------------------------------------------------------------------------

/// Which browser artifacts a run keeps.
#[derive(Clone, Copy, Debug, PartialEq, Eq, Structural)]
pub enum ArtifactCapture {
    Screenshots,
    Full,
    Failure,
    Off,
}

impl ArtifactCapture {
    /// Whether a successful run keeps a screenshot.
    pub fn capture_success_screenshot(self) -> (r: bool)
        ensures
            r == (self == ArtifactCapture::Screenshots || self == ArtifactCapture::Full),
    {
        matches!(self, ArtifactCapture::Screenshots | ArtifactCapture::Full)
    }

    /// Whether a successful run keeps the page.
    pub fn capture_success_html(self) -> (r: bool)
        ensures
            r == (self == ArtifactCapture::Full),
    {
        matches!(self, ArtifactCapture::Full)
    }

    /// Whether a failed run keeps a screenshot.
    pub fn capture_failure_screenshot(self) -> (r: bool)
        ensures
            r == (self != ArtifactCapture::Off),
    {
        matches!(
            self,
            ArtifactCapture::Screenshots | ArtifactCapture::Full | ArtifactCapture::Failure
        )
    }

    /// Whether a failed run keeps the page.
    pub fn capture_failure_html(self) -> (r: bool)
        ensures
            r == (self != ArtifactCapture::Off),
    {
        matches!(
            self,
            ArtifactCapture::Screenshots | ArtifactCapture::Full | ArtifactCapture::Failure
        )
    }

    /// Whether a run keeps the state that the panel reported.
    pub fn capture_provider_state(self) -> (r: bool)
        ensures
            r == (self != ArtifactCapture::Off),
    {
        !matches!(self, ArtifactCapture::Off)
    }

    /// The name of the mode.
    pub open spec fn name(self) -> Seq<char> {
        match self {
            ArtifactCapture::Screenshots => "screenshots"@,
            ArtifactCapture::Full => "full"@,
            ArtifactCapture::Failure => "failure"@,
            ArtifactCapture::Off => "off"@,
        }
    }

    /// The name of the mode.
    pub fn to_string(&self) -> (r: String)
        ensures
            r@ == self.name(),
    {
        match self {
            ArtifactCapture::Screenshots => "screenshots".to_owned(),
            ArtifactCapture::Full => "full".to_owned(),
            ArtifactCapture::Failure => "failure".to_owned(),
            ArtifactCapture::Off => "off".to_owned(),
        }
    }
}

/// The host of the server.
#[derive(Clone, Copy, Debug, PartialEq, Eq, Structural)]
pub enum ServerProviderKind {
    Aternos,
    Pterodactyl,
}

impl ServerProviderKind {
    /// The name of the host.
    pub open spec fn name(self) -> Seq<char> {
        match self {
            ServerProviderKind::Aternos => "aternos"@,
            ServerProviderKind::Pterodactyl => "pterodactyl"@,
        }
    }

    /// The name of the host.
    pub fn to_string(&self) -> (r: String)
        ensures
            r@ == self.name(),
    {
        match self {
            ServerProviderKind::Aternos => "aternos".to_owned(),
            ServerProviderKind::Pterodactyl => "pterodactyl".to_owned(),
        }
    }
}

// ---------------------------------------------------------------------------
// What is wrong with a value
// ---------------------------------------------------------------------------

/// What is wrong with a value.
#[verifier::ext_equal]
#[derive(Clone, Debug)]
pub enum ValueError<T = String> {
    UnsupportedProvider { value: T },
    InvalidUrl,
    NotPanelOrigin,
    NotLoopbackOrigin,
    InvalidServerIdentifier,
    InvalidBoolean { value: T },
    InvalidNumber,
    Zero,
    ExceedsMaximum { maximum: u64 },
    InvalidCaptureMode { value: T },
    InvalidUserId { id: T },
}

impl View for ValueError<String> {
    type V = ValueError<Seq<char>>;

    open spec fn view(&self) -> ValueError<Seq<char>> {
        match *self {
            ValueError::UnsupportedProvider { value } => ValueError::UnsupportedProvider { value: value@ },
            ValueError::InvalidUrl => ValueError::InvalidUrl,
            ValueError::NotPanelOrigin => ValueError::NotPanelOrigin,
            ValueError::NotLoopbackOrigin => ValueError::NotLoopbackOrigin,
            ValueError::InvalidServerIdentifier => ValueError::InvalidServerIdentifier,
            ValueError::InvalidBoolean { value } => ValueError::InvalidBoolean { value: value@ },
            ValueError::InvalidNumber => ValueError::InvalidNumber,
            ValueError::Zero => ValueError::Zero,
            ValueError::ExceedsMaximum { maximum } => ValueError::ExceedsMaximum { maximum },
            ValueError::InvalidCaptureMode { value } => ValueError::InvalidCaptureMode { value: value@ },
            ValueError::InvalidUserId { id } => ValueError::InvalidUserId { id: id@ },
        }
    }
}

/// The error in words.
pub open spec fn value_error_text(error: ValueError<Seq<char>>) -> Seq<char> {
    match error {
        ValueError::UnsupportedProvider { value } => "unsupported server provider `"@ + value + "`"@,
        ValueError::InvalidUrl => "invalid URL"@,
        ValueError::NotPanelOrigin => "panel URL must be an HTTPS origin"@,
        ValueError::NotLoopbackOrigin => "FlareSolverr URL must be an HTTP loopback origin"@,
        ValueError::InvalidServerIdentifier => "invalid server identifier"@,
        ValueError::InvalidBoolean { value } => "invalid boolean value `"@ + value + "`"@,
        ValueError::InvalidNumber => "invalid unsigned integer"@,
        ValueError::Zero => "value must be greater than zero"@,
        ValueError::ExceedsMaximum { maximum } => "value must not exceed "@ + decimal(maximum as nat),
        ValueError::InvalidCaptureMode { value } => "invalid artifact capture mode `"@ + value + "`"@,
        ValueError::InvalidUserId { id } => "invalid Discord user ID `"@ + id + "`"@,
    }
}

impl ValueError<String> {
    /// The error in words.
    pub fn to_string(&self) -> (r: String)
        ensures
            r@ == value_error_text(self@),
    {
        match self {
            ValueError::UnsupportedProvider { value } => text::cat3(
                "unsupported server provider `",
                value.as_str(),
                "`",
            ),
            ValueError::InvalidUrl => "invalid URL".to_owned(),
            ValueError::NotPanelOrigin => "panel URL must be an HTTPS origin".to_owned(),
            ValueError::NotLoopbackOrigin => "FlareSolverr URL must be an HTTP loopback origin".to_owned(),
            ValueError::InvalidServerIdentifier => "invalid server identifier".to_owned(),
            ValueError::InvalidBoolean { value } => text::cat3(
                "invalid boolean value `",
                value.as_str(),
                "`",
            ),
            ValueError::InvalidNumber => "invalid unsigned integer".to_owned(),
            ValueError::Zero => "value must be greater than zero".to_owned(),
            ValueError::ExceedsMaximum { maximum } => text::cat2(
                "value must not exceed ",
                text::decimal_u64(*maximum).as_str(),
            ),
            ValueError::InvalidCaptureMode { value } => text::cat3(
                "invalid artifact capture mode `",
                value.as_str(),
                "`",
            ),
            ValueError::InvalidUserId { id } => text::cat3("invalid Discord user ID `", id.as_str(), "`"),
        }
    }
}

// ---------------------------------------------------------------------------
// Values
// ---------------------------------------------------------------------------

/// The provider that a value names.
pub open spec fn provider_kind(value: Seq<char>) -> Result<ServerProviderKind, ValueError<Seq<char>>> {
    let word = folded(value);
    if word == "aternos"@ {
        Ok(ServerProviderKind::Aternos)
    } else if word == "pterodactyl"@ {
        Ok(ServerProviderKind::Pterodactyl)
    } else {
        Err(ValueError::UnsupportedProvider { value: word })
    }
}

/// The view of a result whose value is its own view.
pub open spec fn plain_result<V>(result: Result<V, ValueError>) -> Result<V, ValueError<Seq<char>>> {
    match result {
        Ok(value) => Ok(value),
        Err(error) => Err(error@),
    }
}

/// The provider that a value names.
pub fn parse_provider_kind(value: &str) -> (r: Result<ServerProviderKind, ValueError>)
    ensures
        plain_result(r) == provider_kind(value@),
{
    let word = fold(value);
    if text::same(word.as_str(), "aternos") {
        Ok(ServerProviderKind::Aternos)
    } else if text::same(word.as_str(), "pterodactyl") {
        Ok(ServerProviderKind::Pterodactyl)
    } else {
        Err(ValueError::UnsupportedProvider { value: word })
    }
}

/// Whether a URL is nothing but scheme, host and port.
pub open spec fn is_bare_origin(url: ParsedUrl<Seq<char>>) -> bool {
    &&& url.username.len() == 0
    &&& url.password is None
    &&& url.query is None
    &&& url.fragment is None
    &&& url.path == ""@ || url.path == "/"@
}

fn bare_origin(url: &ParsedUrl) -> (r: bool)
    ensures
        r == is_bare_origin(url@),
{
    url.username.as_str().is_empty() && url.password.is_none() && url.query.is_none()
        && url.fragment.is_none() && (text::same(url.path.as_str(), "") || text::same(
        url.path.as_str(),
        "/",
    ))
}

/// The panel that a URL names: an HTTPS origin without credentials or path.
pub open spec fn panel_origin(url: Option<ParsedUrl<Seq<char>>>) -> Result<ParsedUrl<Seq<char>>, ValueError<Seq<char>>> {
    match url {
        None => Err(ValueError::InvalidUrl),
        Some(url) => if url.scheme == "https"@ && url.host is Some && is_bare_origin(url) {
            Ok(url)
        } else {
            Err(ValueError::NotPanelOrigin)
        },
    }
}

/// The view of a URL or of what is wrong with it.
pub open spec fn url_result(result: Result<ParsedUrl, ValueError>) -> Result<ParsedUrl<Seq<char>>, ValueError<Seq<char>>> {
    match result {
        Ok(url) => Ok(url@),
        Err(error) => Err(error@),
    }
}

/// Accepts the URL of a panel.
pub fn check_panel_origin(url: Option<ParsedUrl>) -> (r: Result<ParsedUrl, ValueError>)
    ensures
        url_result(r) == panel_origin(match url {
            Some(url) => Some(url@),
            None => None,
        }),
{
    match url {
        None => Err(ValueError::InvalidUrl),
        Some(url) => {
            if text::same(url.scheme.as_str(), "https") && url.host.is_some() && bare_origin(&url) {
                Ok(url)
            } else {
                Err(ValueError::NotPanelOrigin)
            }
        },
    }
}

/// The panel that a value names. Its path being "/", the URL's text is the
/// origin with a slash behind it.
pub fn parse_panel_origin(value: &str) -> (r: Result<ParsedUrl, ValueError>)
    ensures
        url_result(r) == panel_origin(url_of(value@)),
        r matches Ok(url) ==> text::finishes(url@.text, url@.path),
{
    check_panel_origin(outside::parse_url(value))
}

/// Whether a text is one of the numbers 0 to 255 in decimal, without leading
/// zeros.
pub open spec fn is_octet(part: Seq<char>) -> bool {
    exists|n: nat| n <= 255 && part == #[trigger] decimal(n)
}

/// Whether a URL's host is the local machine: its name, or an IPv4 address that
/// begins with 127. An IPv6 host stands in brackets and is no address here.
pub open spec fn is_loopback_host(host: Seq<char>) -> bool {
    let parts = split_on(host, '.');
    host == "localhost"@ || {
        &&& parts.len() == 4
        &&& parts[0] == decimal(127)
        &&& forall|i: int| 0 <= i < 4 ==> is_octet(#[trigger] parts[i])
    }
}

fn octet(part: &str) -> (r: bool)
    ensures
        r == is_octet(part@),
{
    match text::parse_unsigned(part, 255) {
        Some(n) => {
            let r = text::same(text::decimal_u64(n).as_str(), part);
            proof {
                if is_octet(part@) {
                    let m = choose|m: nat| m <= 255 && part@ == #[trigger] decimal(m);
                    text::parse_reads_back_decimal(m, 255);
                }
            }
            r
        },
        None => {
            proof {
                if is_octet(part@) {
                    let m = choose|m: nat| m <= 255 && part@ == #[trigger] decimal(m);
                    text::parse_reads_back_decimal(m, 255);
                }
            }
            false
        },
    }
}

/// Whether a URL's host is the local machine.
pub fn loopback_host(host: &str) -> (r: bool)
    ensures
        r == is_loopback_host(host@),
{
    if text::same(host, "localhost") {
        return true;
    }
    let parts = text::split_at_mark(host, '.');
    let ghost spec_parts = split_on(host@, '.');
    proof {
        assert(texts(parts@).len() == parts@.len());
        assert(forall|i: int| 0 <= i < parts@.len() ==> spec_parts[i] == (#[trigger] parts@[i])@);
    }
    if parts.len() != 4 {
        return false;
    }
    let first = text::decimal_u64(127);
    let r = text::same(parts[0].as_str(), first.as_str()) && octet(parts[0].as_str()) && octet(
        parts[1].as_str(),
    ) && octet(parts[2].as_str()) && octet(parts[3].as_str());
    proof {
        assert(spec_parts[0] == parts@[0]@);
        assert(spec_parts[1] == parts@[1]@);
        assert(spec_parts[2] == parts@[2]@);
        assert(spec_parts[3] == parts@[3]@);
    }
    r
}

/// The solver that a URL names: an HTTP origin on the local machine.
pub open spec fn flaresolverr_origin(url: Option<ParsedUrl<Seq<char>>>) -> Result<ParsedUrl<Seq<char>>, ValueError<Seq<char>>> {
    match url {
        None => Err(ValueError::InvalidUrl),
        Some(url) => if url.scheme == "http"@ && (url.host matches Some(host) && is_loopback_host(
            host,
        )) && is_bare_origin(url) {
            Ok(url)
        } else {
            Err(ValueError::NotLoopbackOrigin)
        },
    }
}

/// Accepts the URL of the solver.
pub fn check_flaresolverr_url(url: Option<ParsedUrl>) -> (r: Result<ParsedUrl, ValueError>)
    ensures
        url_result(r) == flaresolverr_origin(match url {
            Some(url) => Some(url@),
            None => None,
        }),
{
    match url {
        None => Err(ValueError::InvalidUrl),
        Some(url) => {
            let local = match &url.host {
                Some(host) => loopback_host(host.as_str()),
                None => false,
            };
            if text::same(url.scheme.as_str(), "http") && local && bare_origin(&url) {
                Ok(url)
            } else {
                Err(ValueError::NotLoopbackOrigin)
            }
        },
    }
}

/// The solver that a value names.
pub fn parse_flaresolverr_url(value: &str) -> (r: Result<ParsedUrl, ValueError>)
    ensures
        url_result(r) == flaresolverr_origin(url_of(value@)),
{
    check_flaresolverr_url(outside::parse_url(value))
}

/// Whether `c` is an ASCII letter or digit.
pub open spec fn is_alphanumeric(c: char) -> bool {
    'a' <= c <= 'z' || 'A' <= c <= 'Z' || '0' <= c <= '9'
}

/// Whether a text may name a container: at most 128 ASCII letters, digits,
/// underscores, dots and hyphens, the first a letter or digit.
pub open spec fn is_container_name(value: Seq<char>) -> bool {
    &&& 0 < value.len() <= 128
    &&& is_alphanumeric(value[0])
    &&& forall|i: int|
        0 <= i < value.len() ==> is_alphanumeric(#[trigger] value[i]) || value[i] == '_' || value[i]
            == '.' || value[i] == '-'
}

fn alphanumeric(c: char) -> (r: bool)
    ensures
        r == is_alphanumeric(c),
{
    ('a' <= c && c <= 'z') || ('A' <= c && c <= 'Z') || ('0' <= c && c <= '9')
}

/// Whether a text may name a container.
pub fn valid_container_name(value: &str) -> (r: bool)
    ensures
        r == is_container_name(value@),
{
    let chars = text::chars_of(value);
    if chars.len() == 0 || chars.len() > 128 || !alphanumeric(chars[0]) {
        return false;
    }
    let mut i: usize = 0;
    while i < chars.len()
        invariant
            i <= chars@.len(),
            chars@ == value@,
            forall|j: int|
                0 <= j < i ==> is_alphanumeric(#[trigger] chars@[j]) || chars@[j] == '_' || chars@[j]
                    == '.' || chars@[j] == '-',
        decreases chars@.len() - i,
    {
        let c: char = chars[i];
        if !(alphanumeric(c) || c == '_' || c == '.' || c == '-') {
            assert(!is_alphanumeric(value@[i as int]));
            return false;
        }
        i += 1;
    }
    true
}

/// The server that a value names.
pub open spec fn server_identifier(value: Seq<char>) -> Result<Seq<char>, ValueError<Seq<char>>> {
    if is_server_reference(value) {
        Ok(value)
    } else {
        Err(ValueError::InvalidServerIdentifier)
    }
}

/// The view of a text or of what is wrong with it.
pub open spec fn text_result(result: Result<String, ValueError>) -> Result<Seq<char>, ValueError<Seq<char>>> {
    match result {
        Ok(value) => Ok(value@),
        Err(error) => Err(error@),
    }
}

/// The server that a value names.
pub fn parse_pterodactyl_server_id(value: &str) -> (r: Result<String, ValueError>)
    ensures
        text_result(r) == server_identifier(value@),
{
    if valid_server_reference(value) {
        Ok(value.to_owned())
    } else {
        Err(ValueError::InvalidServerIdentifier)
    }
}

/// The boolean that a value writes, or the default where there is no value.
pub open spec fn bool_value(value: Option<Seq<char>>, default: bool) -> Result<bool, ValueError<Seq<char>>> {
    match value {
        None => Ok(default),
        Some(value) => {
            let word = folded(value);
            if word == "1"@ || word == "true"@ || word == "yes"@ || word == "y"@ || word == "on"@ {
                Ok(true)
            } else if word == "0"@ || word == "false"@ || word == "no"@ || word == "n"@ || word
                == "off"@ {
                Ok(false)
            } else {
                Err(ValueError::InvalidBoolean { value: word })
            }
        },
    }
}

/// The boolean that a value writes, or the default where there is no value.
pub fn parse_bool_value(value: Option<&str>, default: bool) -> (r: Result<bool, ValueError>)
    ensures
        plain_result(r) == bool_value(opt_str(value), default),
{
    match value {
        None => Ok(default),
        Some(value) => {
            let folded = fold(value);
            let word = folded.as_str();
            if text::same(word, "1") || text::same(word, "true") || text::same(word, "yes")
                || text::same(word, "y") || text::same(word, "on") {
                Ok(true)
            } else if text::same(word, "0") || text::same(word, "false") || text::same(word, "no")
                || text::same(word, "n") || text::same(word, "off") {
                Ok(false)
            } else {
                Err(ValueError::InvalidBoolean { value: folded })
            }
        },
    }
}

/// The number that a value writes, or the default where there is no value.
pub open spec fn number_value(value: Option<Seq<char>>, default: nat, max: nat) -> Result<nat, ValueError<Seq<char>>> {
    match value {
        None => Ok(default),
        Some(value) => match parse_number(trim(value), max) {
            Some(n) => Ok(n),
            None => Err(ValueError::InvalidNumber),
        },
    }
}

/// The view of a number or of what is wrong with it.
pub open spec fn number_result(result: Result<u64, ValueError>) -> Result<nat, ValueError<Seq<char>>> {
    match result {
        Ok(n) => Ok(n as nat),
        Err(error) => Err(error@),
    }
}

/// The number that a value writes, or the default where there is no value.
pub fn u64_var_value(value: Option<&str>, default: u64) -> (r: Result<u64, ValueError>)
    ensures
        number_result(r) == number_value(opt_str(value), default as nat, u64::MAX as nat),
{
    match value {
        None => Ok(default),
        Some(value) => match text::parse_unsigned(text::trimmed(value).as_str(), u64::MAX) {
            Some(n) => Ok(n),
            None => Err(ValueError::InvalidNumber),
        },
    }
}

/// The number that a value writes, or the default where there is no value.
pub fn usize_var_value(value: Option<&str>, default: usize) -> (r: Result<usize, ValueError>)
    ensures
        (match r {
            Ok(n) => Ok::<nat, ValueError<Seq<char>>>(n as nat),
            Err(error) => Err(error@),
        }) == number_value(opt_str(value), default as nat, usize::MAX as nat),
{
    match value {
        None => Ok(default),
        Some(value) => match text::parse_unsigned(text::trimmed(value).as_str(), usize::MAX as u64) {
            Some(n) => Ok(n as usize),
            None => Err(ValueError::InvalidNumber),
        },
    }
}

/// The number from one to `maximum` that a value writes, or the default where
/// there is no value.
pub open spec fn bounded_value(value: Option<Seq<char>>, default: nat, maximum: u64) -> Result<nat, ValueError<Seq<char>>> {
    match number_value(value, default, u64::MAX as nat) {
        Ok(n) => if n == 0 {
            Err(ValueError::Zero)
        } else if n > maximum {
            Err(ValueError::ExceedsMaximum { maximum })
        } else {
            Ok(n)
        },
        Err(error) => Err(error),
    }
}

/// The number from one to `maximum` that a value writes, or the default where
/// there is no value.
pub fn bounded_positive_u64_var_value(
    value: Option<&str>,
    default: u64,
    maximum: u64,
) -> (r: Result<u64, ValueError>)
    ensures
        number_result(r) == bounded_value(opt_str(value), default as nat, maximum),
{
    match u64_var_value(value, default) {
        Ok(n) => {
            if n == 0 {
                Err(ValueError::Zero)
            } else if n > maximum {
                Err(ValueError::ExceedsMaximum { maximum })
            } else {
                Ok(n)
            }
        },
        Err(error) => Err(error),
    }
}

/// The capture mode that a value names.
pub open spec fn capture_value(value: Seq<char>) -> Result<ArtifactCapture, ValueError<Seq<char>>> {
    let word = folded(value);
    if word == ""@ || word == "screenshots"@ {
        Ok(ArtifactCapture::Screenshots)
    } else if word == "full"@ {
        Ok(ArtifactCapture::Full)
    } else if word == "failure"@ {
        Ok(ArtifactCapture::Failure)
    } else if word == "off"@ {
        Ok(ArtifactCapture::Off)
    } else {
        Err(ValueError::InvalidCaptureMode { value: word })
    }
}

/// The capture mode that a value names.
pub fn parse_artifact_capture_value(value: &str) -> (r: Result<ArtifactCapture, ValueError>)
    ensures
        plain_result(r) == capture_value(value@),
{
    let folded = fold(value);
    let word = folded.as_str();
    if text::same(word, "") || text::same(word, "screenshots") {
        Ok(ArtifactCapture::Screenshots)
    } else if text::same(word, "full") {
        Ok(ArtifactCapture::Full)
    } else if text::same(word, "failure") {
        Ok(ArtifactCapture::Failure)
    } else if text::same(word, "off") {
        Ok(ArtifactCapture::Off)
    } else {
        Err(ValueError::InvalidCaptureMode { value: folded })
    }
}

// ---------------------------------------------------------------------------
// Owners
// ---------------------------------------------------------------------------

/// A set of Discord user IDs.
#[derive(Debug)]
pub struct UserIds {
    ids: Vec<String>,
}

impl View for UserIds {
    type V = Set<Seq<char>>;

    closed spec fn view(&self) -> Set<Seq<char>> {
        texts(self.ids@).to_set()
    }
}

impl UserIds {
    /// No ID is held twice.
    #[verifier::type_invariant]
    spec fn distinct(self) -> bool {
        texts(self.ids@).no_duplicates()
    }

    /// The empty set.
    pub fn new() -> (r: UserIds)
        ensures
            r@ == Set::<Seq<char>>::empty(),
    {
        let ids: Vec<String> = Vec::new();
        proof {
            assert(texts(ids@) =~= Seq::<Seq<char>>::empty());
            assert(texts(ids@).to_set() =~= Set::<Seq<char>>::empty());
        }
        UserIds { ids }
    }

    /// How many IDs the set holds.
    pub fn len(&self) -> (r: usize)
        ensures
            r == self@.len(),
    {
        proof {
            use_type_invariant(self);
            texts(self.ids@).unique_seq_to_set();
        }
        self.ids.len()
    }

    /// Whether the set holds no ID.
    pub fn is_empty(&self) -> (r: bool)
        ensures
            r == (self@ == Set::<Seq<char>>::empty()),
    {
        proof {
            if self.ids@.len() == 0 {
                assert(texts(self.ids@).to_set() =~= Set::<Seq<char>>::empty());
            } else {
                assert(texts(self.ids@)[0] == self.ids@[0]@);
                assert(texts(self.ids@).to_set().contains(self.ids@[0]@));
            }
        }
        self.ids.len() == 0
    }

    /// Whether the set holds `id`.
    pub fn contains(&self, id: &str) -> (r: bool)
        ensures
            r == self@.contains(id@),
    {
        let mut i: usize = 0;
        while i < self.ids.len()
            invariant
                i <= self.ids@.len(),
                forall|j: int| 0 <= j < i ==> (#[trigger] self.ids@[j])@ != id@,
            decreases self.ids@.len() - i,
        {
            if text::same(self.ids[i].as_str(), id) {
                proof {
                    assert(texts(self.ids@)[i as int] == id@);
                }
                return true;
            }
            i += 1;
        }
        proof {
            if texts(self.ids@).contains(id@) {
                let j = choose|j: int| 0 <= j < texts(self.ids@).len() && texts(self.ids@)[j] == id@;
                assert(self.ids@[j]@ == id@);
            }
        }
        false
    }

    /// The set with `id` added.
    pub fn with(self, id: String) -> (r: UserIds)
        ensures
            r@ == self@.insert(id@),
    {
        if self.contains(id.as_str()) {
            proof {
                assert(self@.insert(id@) =~= self@);
            }
            return self;
        }
        proof {
            use_type_invariant(&self);
        }
        let mut ids = self.ids;
        let ghost before = texts(ids@);
        text::add_text(&mut ids, id);
        proof {
            assert(texts(ids@) =~= before.push(id@));
            assert(texts(ids@).to_set() =~= before.to_set().insert(id@)) by {
                assert forall|t: Seq<char>| before.to_set().insert(id@).contains(t) implies texts(
                    ids@,
                ).to_set().contains(t) by {
                    if t == id@ {
                        assert(texts(ids@)[before.len() as int] == id@);
                    } else {
                        let j = choose|j: int| 0 <= j < before.len() && before[j] == t;
                        assert(texts(ids@)[j] == t);
                    }
                }
            }
            assert(!before.contains(id@));
        }
        UserIds { ids }
    }
}

/// The user IDs among the pieces of a list: the pieces that are not blank, all
/// of which must be ASCII digits.
pub open spec fn ids_among(pieces: Seq<Seq<char>>) -> Result<Set<Seq<char>>, ValueError<Seq<char>>>
    decreases pieces.len(),
{
    if pieces.len() == 0 {
        Ok(Set::empty())
    } else {
        match ids_among(pieces.drop_last()) {
            Err(error) => Err(error),
            Ok(ids) => {
                let id = trim(pieces.last());
                if id.len() == 0 {
                    Ok(ids)
                } else if all_digits(id) {
                    Ok(ids.insert(id))
                } else {
                    Err(ValueError::InvalidUserId { id })
                }
            },
        }
    }
}

/// The user IDs of a comma-separated list.
pub open spec fn owner_ids(value: Seq<char>) -> Result<Set<Seq<char>>, ValueError<Seq<char>>> {
    ids_among(split_on(value, ','))
}

fn digits_only(value: &str) -> (r: bool)
    ensures
        r == (forall|i: int| 0 <= i < value@.len() ==> text::is_digit(#[trigger] value@[i])),
{
    let chars = text::chars_of(value);
    let mut i: usize = 0;
    while i < chars.len()
        invariant
            i <= chars@.len(),
            chars@ == value@,
            forall|j: int| 0 <= j < i ==> text::is_digit(#[trigger] chars@[j]),
        decreases chars@.len() - i,
    {
        let c: char = chars[i];
        if !('0' <= c && c <= '9') {
            assert(!text::is_digit(value@[i as int]));
            return false;
        }
        i += 1;
    }
    true
}

proof fn lemma_ids_error_stays(pieces: Seq<Seq<char>>, n: int)
    requires
        0 <= n <= pieces.len(),
        ids_among(pieces.take(n)) is Err,
    ensures
        ids_among(pieces) == ids_among(pieces.take(n)),
    decreases pieces.len() - n,
{
    if n < pieces.len() {
        assert(pieces.take(n + 1).drop_last() =~= pieces.take(n));
        lemma_ids_error_stays(pieces, n + 1);
    } else {
        assert(pieces.take(n) =~= pieces);
    }
}

/// The view of a set of user IDs or of what is wrong with the list.
pub open spec fn ids_result(result: Result<UserIds, ValueError>) -> Result<Set<Seq<char>>, ValueError<Seq<char>>> {
    match result {
        Ok(ids) => Ok(ids@),
        Err(error) => Err(error@),
    }
}

/// The user IDs of a comma-separated list.
pub fn parse_owner_user_ids_value(value: &str) -> (r: Result<UserIds, ValueError>)
    ensures
        ids_result(r) == owner_ids(value@),
{
    let pieces = text::split_at_mark(value, ',');
    let ghost all = texts(pieces@);
    let mut ids = UserIds::new();
    let mut i: usize = 0;
    proof {
        assert(all.take(0) =~= Seq::<Seq<char>>::empty());
    }
    while i < pieces.len()
        invariant
            i <= pieces@.len(),
            all == texts(pieces@),
            all == split_on(value@, ','),
            ids_among(all.take(i as int)) == Ok::<Set<Seq<char>>, ValueError<Seq<char>>>(ids@),
        decreases pieces@.len() - i,
    {
        let id = text::trimmed(pieces[i].as_str());
        proof {
            assert(all.take(i + 1).drop_last() =~= all.take(i as int));
            assert(all.take(i + 1).last() == pieces@[i as int]@);
        }
        if !id.as_str().is_empty() {
            if !digits_only(id.as_str()) {
                proof {
                    lemma_ids_error_stays(all, i + 1);
                }
                return Err(ValueError::InvalidUserId { id });
            }
            ids = ids.with(id);
        }
        i += 1;
    }
    proof {
        assert(all.take(pieces@.len() as int) =~= all);
    }
    Ok(ids)
}

// ---------------------------------------------------------------------------
// What values mean
// ---------------------------------------------------------------------------

/// Whether `value` is the word, whatever its letters' case and the whitespace around it.
pub open spec fn reads(value: Seq<char>, word: Seq<char>) -> bool {
    text::lower(trim(value)) == word
}

/// A truth value is one of ten words, or the default where nothing is set; any other word
/// is refused.
pub proof fn booleans_are_read_from_words(value: Seq<char>, default: bool)
    ensures
        bool_value(None, default) == Ok::<bool, ValueError<Seq<char>>>(default),
        ({
            let yes = reads(value, "1"@) || reads(value, "true"@) || reads(value, "yes"@) || reads(value, "y"@) || reads(
                value,
                "on"@,
            );
            let no = reads(value, "0"@) || reads(value, "false"@) || reads(value, "no"@) || reads(value, "n"@) || reads(
                value,
                "off"@,
            );
            &&& yes ==> bool_value(Some(value), default) == Ok::<bool, ValueError<Seq<char>>>(true)
            &&& no ==> bool_value(Some(value), default) == Ok::<bool, ValueError<Seq<char>>>(false)
            &&& !yes && !no ==> (bool_value(Some(value), default) matches Err(error) && error is InvalidBoolean)
        }),
{
    reveal_strlit("1");
    reveal_strlit("true");
    reveal_strlit("yes");
    reveal_strlit("y");
    reveal_strlit("on");
    reveal_strlit("0");
    reveal_strlit("false");
    reveal_strlit("no");
    reveal_strlit("n");
    reveal_strlit("off");
    assert("1"@[0] == '1' && "0"@[0] == '0' && "y"@[0] == 'y' && "n"@[0] == 'n');
    assert("1"@.len() == 1 && "0"@.len() == 1 && "y"@.len() == 1 && "n"@.len() == 1);
    assert("true"@.len() == 4 && "yes"@.len() == 3 && "on"@.len() == 2 && "false"@.len() == 5);
    assert("no"@.len() == 2 && "off"@.len() == 3 && "yes"@[0] == 'y' && "off"@[0] == 'o' && "on"@[0] == 'o' && "no"@[0]
        == 'n');
}

/// The provider is named by its word; the mode of capture too, and nothing stands for the
/// first mode. Any other word is refused.
pub proof fn modes_are_read_from_words(value: Seq<char>)
    ensures
        ({
            let kind = provider_kind(value);
            &&& reads(value, "aternos"@) <==> kind == Ok::<ServerProviderKind, ValueError<Seq<char>>>(
                ServerProviderKind::Aternos,
            )
            &&& reads(value, "pterodactyl"@) <==> kind == Ok::<ServerProviderKind, ValueError<Seq<char>>>(
                ServerProviderKind::Pterodactyl,
            )
        }),
        ({
            let mode = capture_value(value);
            &&& reads(value, ""@) || reads(value, "screenshots"@) <==> mode == Ok::<ArtifactCapture, ValueError<Seq<char>>>(
                ArtifactCapture::Screenshots,
            )
            &&& reads(value, "full"@) <==> mode == Ok::<ArtifactCapture, ValueError<Seq<char>>>(ArtifactCapture::Full)
            &&& reads(value, "failure"@) <==> mode == Ok::<ArtifactCapture, ValueError<Seq<char>>>(ArtifactCapture::Failure)
            &&& reads(value, "off"@) <==> mode == Ok::<ArtifactCapture, ValueError<Seq<char>>>(ArtifactCapture::Off)
        }),
{
    reveal_strlit("aternos");
    reveal_strlit("pterodactyl");
    reveal_strlit("");
    reveal_strlit("screenshots");
    reveal_strlit("full");
    reveal_strlit("failure");
    reveal_strlit("off");
    assert("aternos"@.len() == 7 && "pterodactyl"@.len() == 11);
    assert(""@.len() == 0 && "screenshots"@.len() == 11 && "full"@.len() == 4 && "failure"@.len() == 7 && "off"@.len()
        == 3);
}

/// A bounded number is between one and its bound, or the default where nothing is set.
pub proof fn numbers_are_kept_in_bounds(value: Option<Seq<char>>, default: nat, maximum: u64)
    requires
        1 <= default <= maximum,
    ensures
        value is None ==> bounded_value(value, default, maximum) == Ok::<nat, ValueError<Seq<char>>>(default),
        bounded_value(value, default, maximum) matches Ok(n) ==> 1 <= n <= maximum,
        value matches Some(written) ==> (parse_number(trim(written), u64::MAX as nat) matches Some(n) ==> {
            &&& 1 <= n <= maximum ==> bounded_value(value, default, maximum) == Ok::<nat, ValueError<Seq<char>>>(n)
            &&& n == 0 ==> (bounded_value(value, default, maximum) matches Err(error) && error is Zero)
            &&& n > maximum ==> (bounded_value(value, default, maximum) matches Err(error) && error is ExceedsMaximum)
        }),
        value matches Some(written) ==> (parse_number(trim(written), u64::MAX as nat) is None ==> (bounded_value(
            value,
            default,
            maximum,
        ) matches Err(error) && error is InvalidNumber)),
{
}

/// The owners are exactly the numbers of the list, blanks aside.
pub proof fn owners_are_those_listed(pieces: Seq<Seq<char>>, id: Seq<char>)
    ensures
        ids_among(pieces) matches Ok(ids) ==> {
            &&& ids.contains(id) <==> id.len() > 0 && exists|i: int| 0 <= i < pieces.len() && trim(#[trigger] pieces[i]) == id
            &&& forall|i: int|
                0 <= i < pieces.len() ==> trim(#[trigger] pieces[i]).len() == 0 || all_digits(trim(pieces[i]))
        },
        (forall|i: int| 0 <= i < pieces.len() ==> trim(#[trigger] pieces[i]).len() == 0 || all_digits(trim(pieces[i])))
            ==> ids_among(pieces) is Ok,
    decreases pieces.len(),
{
    if pieces.len() > 0 {
        let before = pieces.drop_last();
        owners_are_those_listed(before, id);
        assert forall|i: int| 0 <= i < before.len() implies #[trigger] before[i] == pieces[i] by {}
        let last = trim(pieces.last());
        if let Ok(ids) = ids_among(pieces) {
            if exists|i: int| 0 <= i < before.len() && trim(#[trigger] before[i]) == id {
                let i = choose|i: int| 0 <= i < before.len() && trim(#[trigger] before[i]) == id;
                assert(trim(pieces[i]) == id);
            }
            if exists|i: int| 0 <= i < pieces.len() && trim(#[trigger] pieces[i]) == id {
                let i = choose|i: int| 0 <= i < pieces.len() && trim(#[trigger] pieces[i]) == id;
                if i < before.len() {
                    assert(trim(before[i]) == id);
                }
            }
            if last == id {
                assert(trim(pieces[pieces.len() - 1]) == id);
            }
            assert forall|i: int| 0 <= i < pieces.len() implies trim(#[trigger] pieces[i]).len() == 0 || all_digits(
                trim(pieces[i]),
            ) by {
                if i < before.len() {
                    assert(trim(before[i]).len() == 0 || all_digits(trim(before[i])));
                }
            }
        }
        if forall|i: int| 0 <= i < pieces.len() ==> trim(#[trigger] pieces[i]).len() == 0 || all_digits(trim(pieces[i])) {
            assert forall|i: int| 0 <= i < before.len() implies trim(#[trigger] before[i]).len() == 0 || all_digits(
                trim(before[i]),
            ) by {
                assert(trim(pieces[i]).len() == 0 || all_digits(trim(pieces[i])));
            }
            assert(trim(pieces[pieces.len() - 1]).len() == 0 || all_digits(trim(pieces[pieces.len() - 1])));
        }
    }
}

/// The panel is an HTTPS origin and the solver an HTTP origin on this machine, each
/// without credentials, path, query or fragment; any other URL is refused.
pub proof fn origins_are_bare(url: ParsedUrl<Seq<char>>)
    ensures
        ({
            let bare = url.username.len() == 0 && url.password is None && url.query is None && url.fragment is None && (
            url.path == ""@ || url.path == "/"@);
            &&& panel_origin(Some(url)) is Ok <==> bare && url.scheme == "https"@ && url.host is Some
            &&& panel_origin(Some(url)) matches Ok(origin) ==> origin == url
            &&& flaresolverr_origin(Some(url)) is Ok <==> bare && url.scheme == "http"@ && (url.host matches Some(host)
                && is_loopback_host(host))
            &&& flaresolverr_origin(Some(url)) matches Ok(origin) ==> origin == url
            &&& panel_origin(None) is Err && flaresolverr_origin(None) is Err
        }),
{
}

/// The solver's host is this machine: by name, or by an address of four numbers that
/// begins with 127.
pub proof fn loopback_hosts_are_this_machine(host: Seq<char>)
    ensures
        is_loopback_host("localhost"@),
        is_loopback_host(host) && host != "localhost"@ ==> split_on(host, '.').len() == 4 && split_on(host, '.')[0]
            == decimal(127),
        host != "localhost"@ && split_on(host, '.').len() == 4 && split_on(host, '.')[0] == decimal(127) && (forall|i: int|
            0 <= i < 4 ==> is_octet(#[trigger] split_on(host, '.')[i])) ==> is_loopback_host(host),
        host != "localhost"@ && split_on(host, '.').len() != 4 ==> !is_loopback_host(host),
{
}

/// A container's name is letters, digits, underscores, dots and hyphens, a letter or a
/// digit first, and 128 at most.
pub proof fn container_names_are_plain(value: Seq<char>)
    ensures
        value.len() == 0 || value.len() > 128 ==> !is_container_name(value),
        is_container_name(value) ==> value[0] != '-' && value[0] != '.' && value[0] != '_',
        is_container_name(value) <==> 1 <= value.len() <= 128 && is_alphanumeric(value[0]) && forall|i: int|
            0 <= i < value.len() ==> is_alphanumeric(#[trigger] value[i]) || value[i] == '_' || value[i] == '.' || value[i]
                == '-',
        is_alphanumeric('a') && is_alphanumeric('Z') && is_alphanumeric('0') && !is_alphanumeric(' ') && !is_alphanumeric(
            '/',
        ),
{
}

} // verus!
