//! The Minecraft server itself: its address, its answers to a ping, and what
//! they mean.

pub mod dns;
pub mod lookup;
pub mod meaning;

use vstd::prelude::*;
use crate::json::{json_text, opt_json, Json, JsonTree};
use crate::outside;
use crate::outside::{group_texts, match_texts, regex_matches, unicode_lower};
use crate::text;
use crate::text::{
    decimal, every, finishes, holds, is_space, join, joined_parts_are_found_again,
    joined_pieces_are_the_whole, lacks, lower, occurs_at, opt_text, parse_number, pieces_lack_the_mark,
    split_on, texts, trim, trimmed_texts_stay,
};

verus! {

// ---------------------------------------------------------------------------
// Status
// ---------------------------------------------------------------------------

/// Where the server stands.
#[verifier::ext_equal]
#[derive(Clone, Debug, PartialEq, Eq)]
pub enum ServerStatus<T = String, L = Vec<String>> {
    Offline,
    Unreachable { reason: T },
    Queued,
    Starting,
    Preparing,
    Loading,
    Online { online: u32, max: u32, players: L },
}

impl View for ServerStatus<String, Vec<String>> {
    type V = ServerStatus<Seq<char>, Seq<Seq<char>>>;

    open spec fn view(&self) -> ServerStatus<Seq<char>, Seq<Seq<char>>> {
        match *self {
            ServerStatus::Offline => ServerStatus::Offline,
            ServerStatus::Unreachable { reason } => ServerStatus::Unreachable { reason: reason@ },
            ServerStatus::Queued => ServerStatus::Queued,
            ServerStatus::Starting => ServerStatus::Starting,
            ServerStatus::Preparing => ServerStatus::Preparing,
            ServerStatus::Loading => ServerStatus::Loading,
            ServerStatus::Online { online, max, players } => ServerStatus::Online {
                online,
                max,
                players: texts(players@),
            },
        }
    }
}

/// The status in words.
pub open spec fn status_text(status: ServerStatus<Seq<char>, Seq<Seq<char>>>) -> Seq<char> {
    match status {
        ServerStatus::Offline => "Offline"@,
        ServerStatus::Unreachable { reason } => "Offline ("@ + reason + ")"@,
        ServerStatus::Queued => "In Queue"@,
        ServerStatus::Starting => "Starting"@,
        ServerStatus::Preparing => "Preparing"@,
        ServerStatus::Loading => "Loading"@,
        ServerStatus::Online { online, max, players } => "Online ("@ + decimal(online as nat) + "/"@
            + decimal(max as nat) + " players)\nPlayers: "@ + (if players.len() == 0 {
            "None"@
        } else {
            join(players, ", "@)
        }),
    }
}

impl ServerStatus<Seq<char>, Seq<Seq<char>>> {
    /// Whether a start is worth trying.
    pub open spec fn offline_like(self) -> bool {
        self is Offline || self is Unreachable
    }
}

impl ServerStatus<String, Vec<String>> {
    /// Whether a start is worth trying.
    pub fn is_offline_like(&self) -> (r: bool)
        ensures
            r == self@.offline_like(),
    {
        matches!(self, ServerStatus::Offline | ServerStatus::Unreachable { .. })
    }

    /// The status in words.
    pub fn to_string(&self) -> (r: String)
        ensures
            r@ == status_text(self@),
    {
        match self {
            ServerStatus::Offline => "Offline".to_owned(),
            ServerStatus::Unreachable { reason } => text::cat3("Offline (", reason.as_str(), ")"),
            ServerStatus::Queued => "In Queue".to_owned(),
            ServerStatus::Starting => "Starting".to_owned(),
            ServerStatus::Preparing => "Preparing".to_owned(),
            ServerStatus::Loading => "Loading".to_owned(),
            ServerStatus::Online { online, max, players } => {
                let mut shown = text::cat5(
                    "Online (",
                    text::decimal_u64(*online as u64).as_str(),
                    "/",
                    text::decimal_u64(*max as u64).as_str(),
                    " players)\nPlayers: ",
                );
                proof {
                    assert(texts(players@).len() == players@.len());
                }
                if players.len() == 0 {
                    shown.push_str("None");
                } else {
                    shown.push_str(text::joined(players, ", ").as_str());
                }
                shown
            },
        }
    }

    /// A copy of the status.
    pub fn copied(&self) -> (r: ServerStatus)
        ensures
            r@ == self@,
    {
        match self {
            ServerStatus::Offline => ServerStatus::Offline,
            ServerStatus::Unreachable { reason } => ServerStatus::Unreachable {
                reason: reason.clone(),
            },
            ServerStatus::Queued => ServerStatus::Queued,
            ServerStatus::Starting => ServerStatus::Starting,
            ServerStatus::Preparing => ServerStatus::Preparing,
            ServerStatus::Loading => ServerStatus::Loading,
            ServerStatus::Online { online, max, players } => {
                let copy = text::copy_all(players);
                ServerStatus::Online { online: *online, max: *max, players: copy }
            },
        }
    }
}

// ---------------------------------------------------------------------------
// Address
// ---------------------------------------------------------------------------

/// A server address in its parts.
#[verifier::ext_equal]
#[derive(Clone, Debug, PartialEq, Eq)]
pub struct ServerAddress<T = String> {
    pub original: T,
    pub host: T,
    pub explicit_port: Option<u16>,
}

impl View for ServerAddress<String> {
    type V = ServerAddress<Seq<char>>;

    open spec fn view(&self) -> ServerAddress<Seq<char>> {
        ServerAddress {
            original: self.original@,
            host: self.host@,
            explicit_port: self.explicit_port,
        }
    }
}

/// What is wrong with an address.
#[verifier::ext_equal]
#[derive(Clone, Debug, PartialEq, Eq)]
pub enum AddressError<T = String> {
    Empty,
    MissingBracket,
    TextAfterBracket,
    InvalidPort { address: T },
    EmptyHost,
    WhitespaceInHost,
}

impl View for AddressError<String> {
    type V = AddressError<Seq<char>>;

    open spec fn view(&self) -> AddressError<Seq<char>> {
        match *self {
            AddressError::Empty => AddressError::Empty,
            AddressError::MissingBracket => AddressError::MissingBracket,
            AddressError::TextAfterBracket => AddressError::TextAfterBracket,
            AddressError::InvalidPort { address } => AddressError::InvalidPort { address: address@ },
            AddressError::EmptyHost => AddressError::EmptyHost,
            AddressError::WhitespaceInHost => AddressError::WhitespaceInHost,
        }
    }
}

impl AddressError<String> {
    /// The error in words.
    pub fn to_string(&self) -> (r: String)
        ensures
            r@ == match self@ {
                AddressError::Empty => "Minecraft server address must not be empty"@,
                AddressError::MissingBracket => "Bracketed IPv6 address is missing closing ']'"@,
                AddressError::TextAfterBracket => "Unexpected text after bracketed IPv6 address"@,
                AddressError::InvalidPort { address } => "Invalid Minecraft server port in "@ + address,
                AddressError::EmptyHost => "Minecraft server host must not be empty"@,
                AddressError::WhitespaceInHost => "Minecraft server host must not contain whitespace"@,
            },
    {
        match self {
            AddressError::Empty => "Minecraft server address must not be empty".to_owned(),
            AddressError::MissingBracket => "Bracketed IPv6 address is missing closing ']'".to_owned(),
            AddressError::TextAfterBracket => "Unexpected text after bracketed IPv6 address".to_owned(),
            AddressError::InvalidPort { address } => text::cat2(
                "Invalid Minecraft server port in ",
                address.as_str(),
            ),
            AddressError::EmptyHost => "Minecraft server host must not be empty".to_owned(),
            AddressError::WhitespaceInHost => {
                "Minecraft server host must not contain whitespace".to_owned()
            },
        }
    }
}

/// What is wrong with a host, if anything.
pub open spec fn host_error(host: Seq<char>) -> Option<AddressError<Seq<char>>> {
    if trim(host).len() == 0 {
        Some(AddressError::EmptyHost)
    } else if exists|i: int| 0 <= i < host.len() && is_space(#[trigger] host[i]) {
        Some(AddressError::WhitespaceInHost)
    } else {
        None
    }
}

fn validate_host(host: &str) -> (r: Result<(), AddressError>)
    ensures
        match r {
            Ok(_) => host_error(host@) is None,
            Err(error) => host_error(host@) == Some(error@),
        },
{
    if text::trimmed(host).as_str().is_empty() {
        return Err(AddressError::EmptyHost);
    }
    let chars = text::chars_of(host);
    let mut i: usize = 0;
    while i < chars.len()
        invariant
            i <= chars@.len(),
            chars@ == host@,
            trim(host@).len() > 0,
            forall|j: int| 0 <= j < i ==> !is_space(#[trigger] host@[j]),
        decreases chars@.len() - i,
    {
        if text::char_is_space(chars[i]) {
            assert(is_space(host@[i as int]));
            return Err(AddressError::WhitespaceInHost);
        }
        i += 1;
    }
    Ok(())
}

/// An address of a host, with the port that the text writes, if any.
pub open spec fn address_of(
    addr: Seq<char>,
    host: Seq<char>,
    port: Option<Seq<char>>,
) -> Result<ServerAddress<Seq<char>>, AddressError<Seq<char>>> {
    match (host_error(host), port) {
        (Some(error), _) => Err(error),
        (None, None) => Ok(ServerAddress { original: trim(addr), host, explicit_port: None }),
        (None, Some(digits)) => match parse_number(digits, u16::MAX as nat) {
            Some(port) => Ok(
                ServerAddress { original: trim(addr), host, explicit_port: Some(port as u16) },
            ),
            None => Err(AddressError::InvalidPort { address: addr }),
        },
    }
}

/// The address that a text writes: a host or a bracketed IPv6 address, with a
/// port behind a colon or without. A text with several colons is a bare host.
pub open spec fn server_address(addr: Seq<char>) -> Result<ServerAddress<Seq<char>>, AddressError<Seq<char>>> {
    let bare = trim(addr);
    if bare.len() == 0 {
        Err(AddressError::Empty)
    } else if bare[0] == '[' {
        let rest = bare.skip(1);
        let end = text::first_index(rest, ']');
        if end >= rest.len() {
            Err(AddressError::MissingBracket)
        } else {
            let host = rest.take(end);
            let tail = rest.skip(end + 1);
            if tail.len() == 0 {
                address_of(addr, host, None)
            } else if tail[0] == ':' {
                address_of(addr, host, Some(tail.skip(1)))
            } else {
                match host_error(host) {
                    Some(error) => Err(error),
                    None => Err(AddressError::TextAfterBracket),
                }
            }
        }
    } else {
        let pieces = split_on(bare, ':');
        if pieces.len() == 2 {
            address_of(addr, pieces[0], Some(pieces[1]))
        } else {
            address_of(addr, bare, None)
        }
    }
}

/// The view of an address or of what is wrong with it.
pub open spec fn address_view(result: Result<ServerAddress, AddressError>) -> Result<ServerAddress<Seq<char>>, AddressError<Seq<char>>> {
    match result {
        Ok(address) => Ok(address@),
        Err(error) => Err(error@),
    }
}

fn address(addr: &str, host: &str, port: Option<&str>) -> (r: Result<ServerAddress, AddressError>)
    ensures
        address_view(r) == address_of(addr@, host@, text::opt_str(port)),
{
    if let Err(error) = validate_host(host) {
        return Err(error);
    }
    let explicit_port = match port {
        None => None,
        Some(digits) => match text::parse_unsigned(digits, u16::MAX as u64) {
            Some(n) => Some(n as u16),
            None => return Err(AddressError::InvalidPort { address: addr.to_owned() }),
        },
    };
    Ok(ServerAddress { original: text::trimmed(addr), host: host.to_owned(), explicit_port })
}

/// Reads a server address.
pub fn parse_address(addr: &str) -> (r: Result<ServerAddress, AddressError>)
    ensures
        address_view(r) == server_address(addr@),
{
    let trimmed = text::trimmed(addr);
    let bare = text::chars_of(trimmed.as_str());
    if bare.len() == 0 {
        return Err(AddressError::Empty);
    }
    if bare[0] == '[' {
        let rest = text::chars_of(text::string_of_range(&bare, 1, bare.len()).as_str());
        proof {
            assert(rest@ =~= bare@.skip(1));
        }
        let end: usize = text::find_char(&rest, ']');
        if end >= rest.len() {
            return Err(AddressError::MissingBracket);
        }
        let host = text::string_of_range(&rest, 0, end);
        let ghost tail = rest@.skip(end + 1);
        proof {
            assert(host@ =~= rest@.take(end as int));
        }
        if end + 1 == rest.len() {
            proof {
                assert(tail.len() == 0);
            }
            return address(addr, host.as_str(), None);
        }
        proof {
            assert(tail[0] == rest@[end + 1]);
        }
        if rest[end + 1] == ':' {
            let port = text::string_of_range(&rest, end + 2, rest.len());
            proof {
                assert(port@ =~= tail.skip(1));
            }
            return address(addr, host.as_str(), Some(port.as_str()));
        }
        return match validate_host(host.as_str()) {
            Ok(_) => Err(AddressError::TextAfterBracket),
            Err(error) => Err(error),
        };
    }
    let pieces = text::split_at_mark(trimmed.as_str(), ':');
    proof {
        assert(texts(pieces@).len() == pieces@.len());
    }
    if pieces.len() == 2 {
        proof {
            assert(texts(pieces@)[0] == pieces@[0]@);
            assert(texts(pieces@)[1] == pieces@[1]@);
        }
        return address(addr, pieces[0].as_str(), Some(pieces[1].as_str()));
    }
    address(addr, trimmed.as_str(), None)
}

/// Whitespace around an address is of no matter: the trimmed text is read as the
/// same address. Only the complaint about a port quotes the text as it was given.
pub proof fn whitespace_around_addresses_is_ignored(addr: Seq<char>)
    ensures
        server_address(trim(addr)) == match server_address(addr) {
            Err(AddressError::InvalidPort { .. }) => Err(AddressError::InvalidPort { address: trim(addr) }),
            result => result,
        },
{
    trimmed_texts_stay(addr);
}

/// The host of an address is a part of the trimmed text, which is kept. It is not
/// empty and holds no whitespace.
pub proof fn hosts_stand_in_their_text(addr: Seq<char>)
    ensures
        server_address(addr) matches Ok(address) ==> {
            &&& address.original == trim(addr)
            &&& address.host.len() > 0
            &&& every(address.host, |c: char| !is_space(c))
            &&& holds(trim(addr), address.host)
        },
{
    let bare = trim(addr);
    if let Ok(address) = server_address(addr) {
        let host = address.host;
        assert(host_error(host) is None);
        if bare[0] == '[' {
            let rest = bare.skip(1);
            let end = text::first_index(rest, ']');
            lemma_first_index_is_natural(rest, ']');
            assert(bare.subrange(1, 1 + host.len() as int) =~= rest.take(end));
            assert(occurs_at(bare, host, 1));
        } else {
            let pieces = split_on(bare, ':');
            if pieces.len() == 2 {
                lemma_two_pieces(bare);
                assert(bare.subrange(0, host.len() as int) =~= host);
            } else {
                assert(bare.subrange(0, bare.len() as int) =~= bare);
            }
            assert(occurs_at(bare, host, 0));
        }
    }
}

proof fn lemma_first_index_is_natural(s: Seq<char>, c: char)
    ensures
        0 <= text::first_index(s, c) <= s.len(),
    decreases s.len(),
{
    if s.len() > 0 && s[0] != c {
        lemma_first_index_is_natural(s.skip(1), c);
    }
}

proof fn lemma_two_pieces(bare: Seq<char>)
    requires
        split_on(bare, ':').len() == 2,
    ensures
        bare == split_on(bare, ':')[0].push(':') + split_on(bare, ':')[1],
        lacks(split_on(bare, ':')[0], ':'),
        lacks(split_on(bare, ':')[1], ':'),
{
    let pieces = split_on(bare, ':');
    joined_pieces_are_the_whole(bare, ':');
    pieces_lack_the_mark(bare, ':');
    assert(pieces.drop_last()[0] == pieces[0]);
    assert(join(pieces.drop_last(), seq![':']) == pieces[0]);
    assert(bare =~= pieces[0].push(':') + pieces[1]);
}

/// Outside brackets, one colon parts the host before it from the port behind it.
pub proof fn one_colon_parts_host_and_port(addr: Seq<char>, host: Seq<char>, port: Seq<char>)
    requires
        trim(addr) == host.push(':') + port,
        trim(addr)[0] != '[',
        lacks(host, ':'),
        lacks(port, ':'),
    ensures
        server_address(addr) == address_of(addr, host, Some(port)),
        server_address(addr) matches Ok(address) ==> address.host == host && (address.explicit_port matches Some(
            number,
        ) && parse_number(port, u16::MAX as nat) == Some(number as nat)),
{
    let parts = seq![host, port];
    assert(parts.drop_last() =~= seq![host]);
    assert(join(seq![host], seq![':']) == host);
    assert(join(parts, seq![':']) =~= trim(addr));
    joined_parts_are_found_again(parts, ':');
}

/// Outside brackets, a text with no colon or with several is a bare host without
/// a port.
pub proof fn other_colons_leave_a_bare_host(addr: Seq<char>, i: int, j: int)
    requires
        trim(addr).len() > 0,
        trim(addr)[0] != '[',
        lacks(trim(addr), ':') || (0 <= i < j < trim(addr).len() && trim(addr)[i] == ':' && trim(addr)[j] == ':'),
    ensures
        server_address(addr) == address_of(addr, trim(addr), None),
        server_address(addr) matches Ok(address) ==> address.host == trim(addr) && address.explicit_port is None,
{
    let bare = trim(addr);
    let pieces = split_on(bare, ':');
    if pieces.len() == 2 {
        lemma_two_pieces(bare);
        let at = pieces[0].len() as int;
        assert(bare[at] == ':');
        assert forall|k: int| 0 <= k < bare.len() && k != at implies (#[trigger] bare[k]) != ':' by {
            if k < at {
                assert(bare[k] == pieces[0][k]);
            } else {
                assert(bare[k] == pieces[1][k - at - 1]);
            }
        }
    }
}

/// Whether the address is asked for in DNS although it names a port: an
/// Aternos host on the default port.
pub open spec fn prefers_srv(address: ServerAddress<Seq<char>>) -> bool {
    address.explicit_port == Some(25565u16) && finishes(lower(address.host), ".aternos.me"@)
}

/// Whether the address is asked for in DNS although it names a port.
pub fn should_prefer_srv(address: &ServerAddress) -> (r: bool)
    ensures
        r == prefers_srv(address@),
{
    let default_port = match address.explicit_port {
        Some(port) => port == 25565,
        None => false,
    };
    default_port && text::ends_with(text::lowered(address.host.as_str()).as_str(), ".aternos.me")
}

// ---------------------------------------------------------------------------
// Ping
// ---------------------------------------------------------------------------

/// What the server answers to a ping.
pub struct PingResponse {
    pub version: String,
    pub description: Option<Json>,
    pub online_players: usize,
    pub max_players: usize,
    pub sample: Option<Vec<String>>,
}

/// What an answer amounts to: a status, or another address to ask.
#[verifier::ext_equal]
#[derive(Clone, Debug, PartialEq, Eq)]
pub enum PingResult<T = String, L = Vec<String>> {
    Status(ServerStatus<T, L>),
    Redirect { host: T, port: u16 },
}

impl View for PingResult<String, Vec<String>> {
    type V = PingResult<Seq<char>, Seq<Seq<char>>>;

    open spec fn view(&self) -> PingResult<Seq<char>, Seq<Seq<char>>> {
        match *self {
            PingResult::Status(status) => PingResult::Status(status@),
            PingResult::Redirect { host, port } => PingResult::Redirect { host: host@, port },
        }
    }
}

/// The text of a description: a plain text, or an object's own text and that of
/// its extra parts. Where there is no text, the description's JSON stands for
/// it.
pub open spec fn description_text(tree: JsonTree) -> Seq<char>
    decreases tree, 1nat,
{
    match tree {
        JsonTree::Text(value) => value,
        JsonTree::Object(members) => {
            let own = match tree.text_member("text"@) {
                Some(value) => value,
                None => Seq::empty(),
            };
            let shown = own + extra_text(members);
            if shown.len() == 0 {
                json_text(tree)
            } else {
                shown
            }
        },
        _ => json_text(tree),
    }
}

/// The text of the extra parts among an object's members.
pub open spec fn extra_text(members: Seq<(Seq<char>, JsonTree)>) -> Seq<char>
    decreases members, 0nat,
{
    if crate::json::has_member(members, "extra"@) {
        let at = choose|at: int| #[trigger] crate::json::is_first_member(members, "extra"@, at);
        proof {
            assert(decreases_to!(members => members[at]));
            assert(decreases_to!(members[at] => members[at].1));
        }
        match members[at].1 {
            JsonTree::Array(parts) => parts_text(parts),
            _ => Seq::empty(),
        }
    } else {
        Seq::empty()
    }
}

/// The texts of several descriptions, one behind the other.
pub open spec fn parts_text(parts: Seq<JsonTree>) -> Seq<char>
    decreases parts, 0nat,
{
    if parts.len() == 0 {
        Seq::empty()
    } else {
        parts_text(parts.drop_last()) + description_text(parts.last())
    }
}

/// The text of a description.
pub fn flatten(value: &Json) -> (r: String)
    ensures
        r@ == description_text(value@),
    decreases value@,
{
    if let Some(own) = value.as_text() {
        return own;
    }
    if !value.is_object() {
        return value.to_string();
    }
    let mut shown = match value.text_of("text") {
        Some(own) => own,
        None => String::new(),
    };
    let ghost own = shown@;
    let ghost members = value@->Object_0;
    if let Some(extra) = value.get("extra") {
        if let Some(parts) = extra.items() {
            let ghost trees = crate::json::json_trees(parts@);
            proof {
                let at = choose|at: int|
                    #[trigger] crate::json::is_first_member(members, "extra"@, at);
                assert(members[at].1 == extra@);
                assert(decreases_to!(value@ => members));
                assert(decreases_to!(members => members[at]));
                assert(decreases_to!(members[at] => members[at].1));
                assert(extra_text(members) == parts_text(trees));
            }
            let mut i: usize = 0;
            proof {
                assert(trees.take(0) =~= Seq::<JsonTree>::empty());
                assert(shown@ =~= own + parts_text(trees.take(0)));
            }
            while i < parts.len()
                invariant
                    i <= parts@.len(),
                    trees == crate::json::json_trees(parts@),
                    extra@ == JsonTree::Array(trees),
                    decreases_to!(value@ => extra@),
                    shown@ == own + parts_text(trees.take(i as int)),
                decreases parts@.len() - i,
            {
                proof {
                    assert(trees[i as int] == parts@[i as int]@);
                    assert(decreases_to!(extra@ => extra@->Array_0));
                    assert(decreases_to!(extra@->Array_0 => extra@->Array_0[i as int]));
                }
                let part = flatten(&parts[i]);
                shown.push_str(part.as_str());
                proof {
                    assert(trees.take(i + 1).drop_last() =~= trees.take(i as int));
                    assert(trees.take(i + 1).last() == trees[i as int]);
                    assert(shown@ =~= own + parts_text(trees.take(i + 1)));
                }
                i += 1;
            }
            proof {
                assert(trees.take(parts@.len() as int) =~= trees);
            }
        }
    }
    assert(shown@ =~= own + extra_text(members));
    if shown.as_str().is_empty() {
        value.to_string()
    } else {
        shown
    }
}

/// The text of a description, or nothing where there is none.
pub open spec fn described(value: Option<JsonTree>) -> Seq<char> {
    match value {
        Some(tree) => description_text(tree),
        None => ""@,
    }
}

/// The text of a description, or nothing where there is none.
pub fn flatten_description(value: &Option<Json>) -> (r: String)
    ensures
        r@ == described(opt_json(*value)),
{
    match value {
        Some(json) => flatten(json),
        None => "".to_owned(),
    }
}

/// `value` without the section signs that mark colors and the characters behind
/// them.
pub open spec fn without_colors(value: Seq<char>) -> Seq<char>
    decreases value.len(),
{
    if value.len() == 0 {
        value
    } else if value[0] == '\u{a7}' {
        if value.len() == 1 {
            Seq::empty()
        } else {
            without_colors(value.skip(2))
        }
    } else {
        seq![value[0]] + without_colors(value.skip(1))
    }
}

/// `value` without color codes.
pub fn strip_minecraft_color_codes(value: &str) -> (r: String)
    ensures
        r@ == without_colors(value@),
{
    let chars = text::chars_of(value);
    let mut out = String::new();
    let mut i: usize = 0;
    proof {
        assert(chars@.skip(0) =~= chars@);
        assert(out@ + without_colors(chars@) =~= without_colors(chars@));
    }
    while i < chars.len()
        invariant
            i <= chars@.len(),
            chars@ == value@,
            without_colors(value@) == out@ + without_colors(chars@.skip(i as int)),
        decreases chars@.len() - i,
    {
        let c: char = chars[i];
        let ghost rest = chars@.skip(i as int);
        if c == '\u{a7}' {
            if i + 1 == chars.len() {
                proof {
                    assert(out@ + without_colors(rest) =~= out@);
                }
                return out;
            }
            proof {
                assert(rest.skip(2) =~= chars@.skip(i + 2));
            }
            i += 2;
        } else {
            let ghost before = out@;
            out.push(c);
            proof {
                assert(rest.skip(1) =~= chars@.skip(i + 1));
                assert(before + (seq![c] + without_colors(rest.skip(1))) =~= out@ + without_colors(
                    rest.skip(1),
                ));
            }
            i += 1;
        }
    }
    proof {
        assert(out@ + without_colors(chars@.skip(i as int)) =~= out@);
    }
    out
}

/// The pattern of a host and a port in a message of the day.
pub const REDIRECT_PATTERN: &'static str = "(?i)\\b([a-z0-9.-]+\\.[a-z]{2,}):(\\d{1,5})\\b";

/// The host and port that a match names, where its port is one.
pub open spec fn redirect_in(groups: Seq<Option<Seq<char>>>) -> Option<(Seq<char>, u16)> {
    if groups.len() < 3 {
        None
    } else {
        match (groups[1], groups[2]) {
            (Some(host), Some(digits)) => match parse_number(digits, u16::MAX as nat) {
                Some(port) => Some((host, port as u16)),
                None => None,
            },
            _ => None,
        }
    }
}

/// The first host and port among the matches whose port is one.
pub open spec fn first_redirect(found: Seq<Seq<Option<Seq<char>>>>) -> Option<(Seq<char>, u16)>
    decreases found.len(),
{
    if found.len() == 0 {
        None
    } else {
        match redirect_in(found[0]) {
            Some(redirect) => Some(redirect),
            None => first_redirect(found.skip(1)),
        }
    }
}

/// The host and port to which a text redirects, by the matches of the pattern.
pub open spec fn redirect_of(found: Option<Seq<Seq<Option<Seq<char>>>>>) -> Option<(Seq<char>, u16)> {
    match found {
        Some(list) => first_redirect(list),
        None => None,
    }
}

/// The view of an optional host and port.
pub open spec fn redirect_view(value: Option<(String, u16)>) -> Option<(Seq<char>, u16)> {
    match value {
        Some((host, port)) => Some((host@, port)),
        None => None,
    }
}

fn redirect_of_groups(groups: &Vec<Option<String>>) -> (r: Option<(String, u16)>)
    ensures
        redirect_view(r) == redirect_in(group_texts(groups@)),
{
    let ghost shown = group_texts(groups@);
    proof {
        assert(shown.len() == groups@.len());
    }
    if groups.len() < 3 {
        return None;
    }
    proof {
        assert(shown[1] == opt_text(groups@[1]));
        assert(shown[2] == opt_text(groups@[2]));
    }
    match (&groups[1], &groups[2]) {
        (Some(host), Some(digits)) => match text::parse_unsigned(digits.as_str(), u16::MAX as u64) {
            Some(port) => Some((host.clone(), port as u16)),
            None => None,
        },
        _ => None,
    }
}

/// The first host and port among matches whose port is one.
pub fn select_redirect(found: &Option<Vec<Vec<Option<String>>>>) -> (r: Option<(String, u16)>)
    ensures
        redirect_view(r) == redirect_of(
            match *found {
                Some(list) => Some(match_texts(list@)),
                None => None,
            },
        ),
{
    let list = match found {
        Some(list) => list,
        None => return None,
    };
    let ghost shown = match_texts(list@);
    let mut i: usize = 0;
    proof {
        assert(shown.skip(0) =~= shown);
    }
    while i < list.len()
        invariant
            i <= list@.len(),
            *found == Some(*list),
            shown == match_texts(list@),
            first_redirect(shown) == first_redirect(shown.skip(i as int)),
        decreases list@.len() - i,
    {
        proof {
            assert(shown.skip(i as int)[0] == group_texts(list@[i as int]@));
            assert(shown.skip(i as int).skip(1) =~= shown.skip(i + 1));
        }
        if let Some(redirect) = redirect_of_groups(&list[i]) {
            return Some(redirect);
        }
        i += 1;
    }
    None
}

/// The host and port to which a text redirects: the first match of the pattern
/// whose port is one.
pub fn extract_redirect(shown: &str) -> (r: Option<(String, u16)>)
    ensures
        redirect_view(r) == redirect_of(regex_matches(REDIRECT_PATTERN@, shown@)),
{
    select_redirect(&outside::find_matches(REDIRECT_PATTERN, shown))
}

/// The status that the lower-cased version and description speak of, if any.
pub open spec fn spoken_status(
    version: Seq<char>,
    description: Seq<char>,
) -> Option<ServerStatus<Seq<char>, Seq<Seq<char>>>> {
    let speaks = |word: Seq<char>| holds(version, word) || holds(description, word);
    if speaks("offline"@) {
        Some(ServerStatus::Offline)
    } else if speaks("starting"@) {
        Some(ServerStatus::Starting)
    } else if speaks("loading"@) {
        Some(ServerStatus::Loading)
    } else if speaks("queue"@) {
        Some(ServerStatus::Queued)
    } else if speaks("preparing"@) {
        Some(ServerStatus::Preparing)
    } else {
        None
    }
}

/// What an answer amounts to, given its redirect and its lower-cased version
/// and description: a redirect goes before every word, and an answer without
/// any of the words is that of a running server.
pub open spec fn answer_meaning(
    redirect: Option<(Seq<char>, u16)>,
    version: Seq<char>,
    description: Seq<char>,
    online_players: usize,
    max_players: usize,
    sample: Seq<Seq<char>>,
) -> PingResult<Seq<char>, Seq<Seq<char>>> {
    match (redirect, spoken_status(version, description)) {
        (Some((host, port)), _) => PingResult::Redirect { host, port },
        (None, Some(status)) => PingResult::Status(status),
        (None, None) => PingResult::Status(
            ServerStatus::Online {
                online: online_players as u32,
                max: max_players as u32,
                players: sample,
            },
        ),
    }
}

/// The names of an optional sample of players.
pub open spec fn sample_names(sample: Option<Vec<String>>) -> Seq<Seq<char>> {
    match sample {
        Some(names) => texts(names@),
        None => Seq::empty(),
    }
}

/// What an answer amounts to, given its redirect and its lower-cased version
/// and description.
pub fn classify_words(
    redirect: Option<(String, u16)>,
    version: &str,
    description: &str,
    online_players: usize,
    max_players: usize,
    sample: Option<Vec<String>>,
) -> (r: PingResult)
    ensures
        r@ == answer_meaning(
            redirect_view(redirect),
            version@,
            description@,
            online_players,
            max_players,
            sample_names(sample),
        ),
{
    if let Some((host, port)) = redirect {
        return PingResult::Redirect { host, port };
    }
    if text::contains(version, "offline") || text::contains(description, "offline") {
        return PingResult::Status(ServerStatus::Offline);
    }
    if text::contains(version, "starting") || text::contains(description, "starting") {
        return PingResult::Status(ServerStatus::Starting);
    }
    if text::contains(version, "loading") || text::contains(description, "loading") {
        return PingResult::Status(ServerStatus::Loading);
    }
    if text::contains(version, "queue") || text::contains(description, "queue") {
        return PingResult::Status(ServerStatus::Queued);
    }
    if text::contains(version, "preparing") || text::contains(description, "preparing") {
        return PingResult::Status(ServerStatus::Preparing);
    }
    let players = match sample {
        Some(names) => names,
        None => text::no_texts(),
    };
    PingResult::Status(
        ServerStatus::Online {
            online: online_players as u32,
            max: max_players as u32,
            players,
        },
    )
}

/// What an answer to a ping amounts to: its description counts without its colors, and
/// its words whatever their letters' case.
pub open spec fn ping_meaning(
    version: Seq<char>,
    description: Option<JsonTree>,
    online_players: usize,
    max_players: usize,
    sample: Seq<Seq<char>>,
) -> PingResult<Seq<char>, Seq<Seq<char>>> {
    let shown = without_colors(described(description));
    answer_meaning(
        redirect_of(regex_matches(REDIRECT_PATTERN@, shown)),
        unicode_lower(version),
        unicode_lower(shown),
        online_players,
        max_players,
        sample,
    )
}

/// What an answer to a ping amounts to.
pub fn classify_response(response: PingResponse) -> (r: PingResult)
    ensures
        r@ == ping_meaning(
            response.version@,
            opt_json(response.description),
            response.online_players,
            response.max_players,
            sample_names(response.sample),
        ),
{
    let flat = flatten_description(&response.description);
    let description = strip_minecraft_color_codes(flat.as_str());
    let lower_version = outside::unicode_lowered(response.version.as_str());
    let lower_description = outside::unicode_lowered(description.as_str());
    let redirect = extract_redirect(description.as_str());
    classify_words(
        redirect,
        lower_version.as_str(),
        lower_description.as_str(),
        response.online_players,
        response.max_players,
        response.sample,
    )
}

/// An answer that redirects is followed, whatever else it says.
pub proof fn redirect_goes_before_words(
    host: Seq<char>,
    port: u16,
    version: Seq<char>,
    description: Seq<char>,
    online_players: usize,
    max_players: usize,
    sample: Seq<Seq<char>>,
)
    ensures
        answer_meaning(
            Some((host, port)),
            version,
            description,
            online_players,
            max_players,
            sample,
        ) == (PingResult::<Seq<char>, Seq<Seq<char>>>::Redirect { host, port }),
{
}

} // verus!
