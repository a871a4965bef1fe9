//! The calls into other crates and into parts of the standard library that
//! carry no specification of their own. Each contract says what the call is
//! relied on for; the proofs of this library rest on it.

use vstd::prelude::*;
use crate::text::{finishes, opt_text};
use vstd::utf8::{decode_utf8, encode_utf8, valid_utf8};

verus! {

/// Whether a byte may stand in an HTTP header value: a tab, or anything from
/// the space upwards but the delete character.
pub open spec fn is_header_byte(byte: u8) -> bool {
    (byte >= 32 && byte != 127) || byte == 9
}

/// Whether every UTF-8 byte of the text may stand in an HTTP header value.
pub open spec fn is_header_text(value: Seq<char>) -> bool {
    let bytes = encode_utf8(value);
    forall|i: int| 0 <= i < bytes.len() ==> is_header_byte(#[trigger] bytes[i])
}

/// Whether `HeaderValue::from_str` of the crate `http` (through `reqwest`)
/// accepts the text. It accepts exactly the texts whose UTF-8 bytes are all
/// header bytes.
#[verifier::external_body]
pub(crate) fn is_header_value(value: &str) -> (r: bool)
    ensures
        r == is_header_text(value@),
{
    reqwest::header::HeaderValue::from_str(value).is_ok()
}

/// The text that `String::from_utf8_lossy` makes of bytes.
pub uninterp spec fn utf8_lossy(bytes: Seq<u8>) -> Seq<char>;

/// `String::from_utf8_lossy`: a function of the bytes alone, which decodes
/// them where they are valid UTF-8. What stands in place of invalid sequences
/// is left to its name.
#[verifier::external_body]
pub(crate) fn text_from_utf8_lossy(bytes: &[u8]) -> (r: String)
    ensures
        r@ == utf8_lossy(bytes@),
        valid_utf8(bytes@) ==> r@ == decode_utf8(bytes@),
{
    String::from_utf8_lossy(bytes).into_owned()
}

/// The text that bytes are taken for: what they encode where they are valid
/// UTF-8, else what `String::from_utf8_lossy` makes of them.
pub open spec fn lossy_text(bytes: Seq<u8>) -> Seq<char> {
    if valid_utf8(bytes) {
        decode_utf8(bytes)
    } else {
        utf8_lossy(bytes)
    }
}

/// Text survives being taken from its own bytes.
pub proof fn encoded_text_is_read_back(value: Seq<char>)
    ensures
        lossy_text(encode_utf8(value)) == value,
{
    vstd::utf8::encode_utf8_valid_utf8(value);
    vstd::utf8::encode_utf8_decode_utf8(value);
}

// ---------------------------------------------------------------------------
// URLs
// ---------------------------------------------------------------------------

/// A URL in its parts, and its normalized text.
#[verifier::ext_equal]
#[derive(Clone, Debug)]
pub struct ParsedUrl<T = String> {
    pub scheme: T,
    pub host: Option<T>,
    pub port: Option<u16>,
    pub username: T,
    pub password: Option<T>,
    pub path: T,
    pub query: Option<T>,
    pub fragment: Option<T>,
    pub text: T,
}

impl View for ParsedUrl<String> {
    type V = ParsedUrl<Seq<char>>;

    open spec fn view(&self) -> ParsedUrl<Seq<char>> {
        ParsedUrl {
            scheme: self.scheme@,
            host: opt_text(self.host),
            port: self.port,
            username: self.username@,
            password: opt_text(self.password),
            path: self.path@,
            query: opt_text(self.query),
            fragment: opt_text(self.fragment),
            text: self.text@,
        }
    }
}

impl ParsedUrl<String> {
    /// The normalized text of the URL.
    pub fn as_str(&self) -> (r: &str)
        ensures
            r@ == self@.text,
    {
        self.text.as_str()
    }
}

/// The URL that `url::Url::parse` reads from a text, where it reads one.
pub uninterp spec fn url_of(value: Seq<char>) -> Option<ParsedUrl<Seq<char>>>;

/// `url::Url::parse`, and the parts of the URL by its accessors of the same
/// names. The result is a function of the text. A URL without query and
/// fragment ends with its path.
#[verifier::external_body]
pub(crate) fn parse_url(value: &str) -> (r: Option<ParsedUrl>)
    ensures
        match r {
            Some(url) => url_of(value@) == Some(url@),
            None => url_of(value@) is None,
        },
        r matches Some(url) ==> (url@.query is None && url@.fragment is None ==> finishes(
            url@.text,
            url@.path,
        )),
{
    let url = url::Url::parse(value).ok()?;
    Some(ParsedUrl {
        scheme: url.scheme().to_owned(),
        host: url.host_str().map(str::to_owned),
        port: url.port(),
        username: url.username().to_owned(),
        password: url.password().map(str::to_owned),
        path: url.path().to_owned(),
        query: url.query().map(str::to_owned),
        fragment: url.fragment().map(str::to_owned),
        text: url.as_str().to_owned(),
    })
}

/// The text of the URL that `url::Url::join` makes of a base and a reference.
pub uninterp spec fn url_joined(base: Seq<char>, reference: Seq<char>) -> Option<Seq<char>>;

/// `url::Url::join` on the URL that `base` is the text of: a function of both
/// texts, without a value where either of them is no URL.
#[verifier::external_body]
pub(crate) fn join_url(base: &str, reference: &str) -> (r: Option<String>)
    ensures
        opt_text(r) == url_joined(base@, reference@),
{
    let url = url::Url::parse(base).ok()?;
    url.join(reference).ok().map(String::from)
}

// ---------------------------------------------------------------------------
// Text
// ---------------------------------------------------------------------------

/// The text that `str::to_lowercase` makes of a text.
pub uninterp spec fn unicode_lower(value: Seq<char>) -> Seq<char>;

/// `str::to_lowercase`: the lower case of every character by Unicode's tables,
/// a function of the text.
#[verifier::external_body]
pub(crate) fn unicode_lowered(value: &str) -> (r: String)
    ensures
        r@ == unicode_lower(value@),
{
    value.to_lowercase()
}

/// The groups of every match of a pattern in a text, in order, the whole match
/// first; nothing where the pattern is no regular expression.
pub uninterp spec fn regex_matches(
    pattern: Seq<char>,
    subject: Seq<char>,
) -> Option<Seq<Seq<Option<Seq<char>>>>>;

/// The characters of optional groups.
pub open spec fn group_texts(groups: Seq<Option<String>>) -> Seq<Option<Seq<char>>> {
    groups.map_values(|group: Option<String>| opt_text(group))
}

/// The characters of the groups of several found.
pub open spec fn match_texts(found: Seq<Vec<Option<String>>>) -> Seq<Seq<Option<Seq<char>>>> {
    found.map_values(|groups: Vec<Option<String>>| group_texts(groups@))
}

/// `regex::Regex::new` and `Regex::captures_iter`: the groups of every match of
/// the pattern in the text, a function of both.
#[verifier::external_body]
pub(crate) fn find_matches(pattern: &str, subject: &str) -> (r: Option<Vec<Vec<Option<String>>>>)
    ensures
        match r {
            Some(found) => regex_matches(pattern@, subject@) == Some(match_texts(found@)),
            None => regex_matches(pattern@, subject@) is None,
        },
{
    let regex = regex::Regex::new(pattern).ok()?;
    let found = regex.captures_iter(subject).map(|captures| {
        captures.iter().map(|group| group.map(|part| part.as_str().to_owned())).collect()
    });
    Some(found.collect())
}

// ---------------------------------------------------------------------------
// Chance
// ---------------------------------------------------------------------------

/// `rand::Rng::gen_range` on the thread's generator: some number below the
/// bound.
#[verifier::external_body]
pub(crate) fn random_below(bound: usize) -> (r: usize)
    requires
        bound > 0,
    ensures
        r < bound,
{
    rand::Rng::gen_range(&mut rand::thread_rng(), 0..bound)
}

/// `rand::random`: some number.
#[verifier::external_body]
pub(crate) fn random_number() -> u64 {
    rand::random::<u64>()
}

} // verus!
