//! What answers to a ping mean, and which endpoints are asked: the rules that hold
//! of all of them.

use vstd::prelude::*;
use crate::json::{json_text, JsonTree};
use crate::outside::{regex_matches, unicode_lower};
use crate::minecraft::dns::SrvRecord;
use crate::minecraft::lookup::{
    endpoint, first_endpoints, first_search, nameserver, nameservers, search_on, search_step, wants_srv, Endpoint, SearchNext,
    StatusSearch,
};
use crate::minecraft::{
    answer_meaning, described, description_text, first_redirect, parts_text, ping_meaning, prefers_srv,
    status_text, without_colors,
    PingResult, ServerAddress, ServerStatus,
};
use crate::text::{begins, decimal, finishes, holds, join, lacks, lower, parse_number, trim, words};

verus! {

// ---------------------------------------------------------------------------
// Words
// ---------------------------------------------------------------------------

/// Whether the version or the description holds the word.
pub open spec fn mentions(version: Seq<char>, description: Seq<char>, word: Seq<char>) -> bool {
    holds(version, word) || holds(description, word)
}

/// The words of an answer without a redirect decide: offline goes before starting,
/// that before loading, that before a queue, that before preparing. Each gives its
/// own status, and no status is given without its word. An answer without any of
/// them is that of a running server, with its players.
pub proof fn words_decide(
    version: Seq<char>,
    description: Seq<char>,
    online_players: usize,
    max_players: usize,
    sample: Seq<Seq<char>>,
)
    ensures
        ({
            let meaning = answer_meaning(None, version, description, online_players, max_players, sample);
            let offline = mentions(version, description, "offline"@);
            let starting = mentions(version, description, "starting"@);
            let loading = mentions(version, description, "loading"@);
            let queue = mentions(version, description, "queue"@);
            let preparing = mentions(version, description, "preparing"@);
            &&& meaning matches PingResult::Status(status)
            &&& status is Offline <==> offline
            &&& status is Starting <==> starting && !offline
            &&& status is Loading <==> loading && !starting && !offline
            &&& status is Queued <==> queue && !loading && !starting && !offline
            &&& status is Preparing <==> preparing && !queue && !loading && !starting && !offline
            &&& status is Online <==> !preparing && !queue && !loading && !starting && !offline
            &&& status matches ServerStatus::Online { online, max, players } ==> online == online_players as u32 && max
                == max_players as u32 && players == sample
            &&& !(status is Unreachable)
        }),
{
}

// ---------------------------------------------------------------------------
// Texts
// ---------------------------------------------------------------------------

/// Color codes are taken out, each with the character behind it, and nothing else
/// is: a text without section signs stays, a code at its beginning goes, and what
/// stands before a code is kept before what follows it.
pub proof fn color_codes_are_taken_out(before: Seq<char>, code: char, behind: Seq<char>)
    requires
        lacks(before, '\u{a7}'),
    ensures
        without_colors(before) == before,
        without_colors(before + seq!['\u{a7}', code] + behind) == before + without_colors(behind),
        without_colors(before + seq!['\u{a7}']) == before,
    decreases before.len(),
{
    let sign = seq!['\u{a7}'];
    let mark = seq!['\u{a7}', code];
    if before.len() == 0 {
        assert(before + mark + behind =~= mark + behind);
        assert((mark + behind).skip(2) =~= behind);
        assert(before + without_colors(behind) =~= without_colors(behind));
        assert(before + sign =~= sign);
        assert(without_colors(sign) =~= before);
    } else {
        let rest = before.skip(1);
        assert forall|i: int| 0 <= i < rest.len() implies #[trigger] rest[i] != '\u{a7}' by {
            assert(rest[i] == before[i + 1]);
        }
        assert(before[0] != '\u{a7}');
        color_codes_are_taken_out(rest, code, behind);
        assert((before + mark + behind).skip(1) =~= rest + mark + behind);
        assert((before + sign).skip(1) =~= rest + sign);
        assert(seq![before[0]] + rest =~= before);
        assert(seq![before[0]] + (rest + without_colors(behind)) =~= before + without_colors(behind));
    }
}

/// No section sign is left.
pub proof fn no_color_code_is_left(value: Seq<char>)
    ensures
        lacks(without_colors(value), '\u{a7}'),
        without_colors(value).len() <= value.len(),
    decreases value.len(),
{
    if value.len() > 0 {
        if value[0] == '\u{a7}' {
            if value.len() > 1 {
                no_color_code_is_left(value.skip(2));
            }
        } else {
            no_color_code_is_left(value.skip(1));
        }
    }
}

/// A description is its own text, or the text of an object and behind it that of
/// its extra parts; where that is nothing, and for anything else, its JSON stands
/// for it. Nothing is the text of no description.
pub proof fn descriptions_are_flattened(tree: JsonTree)
    ensures
        tree matches JsonTree::Text(value) ==> description_text(tree) == value,
        tree is Object ==> {
            let own = match tree.text_member("text"@) {
                Some(value) => value,
                None => Seq::empty(),
            };
            let extra = match tree.member("extra"@) {
                Some(JsonTree::Array(parts)) => parts_text(parts),
                _ => Seq::empty(),
            };
            description_text(tree) == if (own + extra).len() > 0 {
                own + extra
            } else {
                json_text(tree)
            }
        },
        !(tree is Text) && !(tree is Object) ==> description_text(tree) == json_text(tree),
        described(None) == Seq::<char>::empty(),
        described(Some(tree)) == description_text(tree),
{
    reveal_strlit("");
    assert(""@ =~= Seq::<char>::empty());
}

/// The texts of parts stand one behind the other, in their order.
pub proof fn parts_are_put_in_order(first: Seq<JsonTree>, last: JsonTree)
    ensures
        parts_text(Seq::empty()) == Seq::<char>::empty(),
        parts_text(seq![last]) == description_text(last),
        parts_text(first.push(last)) == parts_text(first) + description_text(last),
{
    assert(first.push(last).drop_last() =~= first);
    let one = Seq::<JsonTree>::empty().push(last);
    assert(seq![last] =~= one);
    assert(one.drop_last() =~= Seq::<JsonTree>::empty());
    assert(parts_text(Seq::<JsonTree>::empty()) =~= Seq::<char>::empty());
    assert(parts_text(one) == parts_text(one.drop_last()) + description_text(one.last()));
    assert(parts_text(one) =~= description_text(last));
}

// ---------------------------------------------------------------------------
// Redirects
// ---------------------------------------------------------------------------

/// Whether a match names that host and that port: the port is a number that fits.
pub open spec fn names(groups: Seq<Option<Seq<char>>>, host: Seq<char>, port: u16) -> bool {
    &&& groups.len() >= 3
    &&& groups[1] == Some(host)
    &&& groups[2] matches Some(digits)
    &&& parse_number(digits, 65_535) == Some(port as nat)
}

/// The redirect is the first match that names a host and a port; there is none
/// where no match does.
pub proof fn first_good_match_redirects(found: Seq<Seq<Option<Seq<char>>>>)
    ensures
        first_redirect(found) matches Some((host, port)) ==> exists|i: int|
            0 <= i < found.len() && names(#[trigger] found[i], host, port) && forall|j: int, h: Seq<char>, p: u16|
                0 <= j < i ==> !#[trigger] names(found[j], h, p),
        first_redirect(found) is None ==> forall|j: int, h: Seq<char>, p: u16|
            0 <= j < found.len() ==> !#[trigger] names(found[j], h, p),
    decreases found.len(),
{
    if found.len() > 0 {
        let rest = found.skip(1);
        first_good_match_redirects(rest);
        assert forall|j: int, h: Seq<char>, p: u16|
            0 < j < found.len() && first_redirect(rest) is None implies !#[trigger] names(found[j], h, p) by {
            assert(!names(rest[j - 1], h, p));
        }
        match crate::minecraft::redirect_in(found[0]) {
            Some((host, port)) => {
                assert(names(found[0], host, port));
            },
            None => {
                assert forall|h: Seq<char>, p: u16| !#[trigger] names(found[0], h, p) by {}
                if let Some((host, port)) = first_redirect(rest) {
                    let i = choose|i: int|
                        0 <= i < rest.len() && names(#[trigger] rest[i], host, port) && forall|
                            j: int,
                            h: Seq<char>,
                            p: u16,
                        |
                            0 <= j < i ==> !#[trigger] names(rest[j], h, p);
                    assert(names(found[i + 1], host, port));
                    assert forall|j: int, h: Seq<char>, p: u16| 0 <= j < i + 1 implies !#[trigger] names(
                        found[j],
                        h,
                        p,
                    ) by {
                        if j > 0 {
                            assert(!names(rest[j - 1], h, p));
                        }
                    }
                }
            },
        }
    }
}

/// An answer to a ping is judged by its words, in lower case and without colors. One that
/// redirects is followed. Of the others, one that says offline is offline, and one that
/// does not is not.
pub proof fn pings_are_judged_by_their_words(
    version: Seq<char>,
    description: Option<JsonTree>,
    online_players: usize,
    max_players: usize,
    sample: Seq<Seq<char>>,
)
    ensures
        ({
            let meaning = ping_meaning(version, description, online_players, max_players, sample);
            let shown = without_colors(described(description));
            let matched = regex_matches("(?i)\\b([a-z0-9.-]+\\.[a-z]{2,}):(\\d{1,5})\\b"@, shown);
            let redirect = match matched {
                Some(found) => first_redirect(found),
                None => None,
            };
            let words = unicode_lower(shown);
            let release = unicode_lower(version);
            &&& redirect matches Some((host, port)) ==> meaning == (PingResult::<Seq<char>, Seq<Seq<char>>>::Redirect {
                host,
                port,
            })
            &&& redirect is None ==> meaning == answer_meaning(
                None,
                release,
                words,
                online_players,
                max_players,
                sample,
            )
            &&& redirect is None ==> (meaning == PingResult::<Seq<char>, Seq<Seq<char>>>::Status(ServerStatus::Offline)
                <==> holds(release, "offline"@) || holds(words, "offline"@))
        }),
{
    let shown = without_colors(described(description));
    words_decide(unicode_lower(version), unicode_lower(shown), online_players, max_players, sample);
}

/// The colors of a description are of no matter.
pub proof fn colors_are_of_no_matter(
    version: Seq<char>,
    before: Seq<char>,
    code: char,
    behind: Seq<char>,
    online_players: usize,
    max_players: usize,
    sample: Seq<Seq<char>>,
)
    requires
        lacks(before, '\u{a7}'),
        lacks(behind, '\u{a7}'),
    ensures
        ping_meaning(
            version,
            Some(JsonTree::Text(before + seq!['\u{a7}', code] + behind)),
            online_players,
            max_players,
            sample,
        ) == ping_meaning(version, Some(JsonTree::Text(before + behind)), online_players, max_players, sample),
{
    color_codes_are_taken_out(before, code, behind);
    color_codes_are_taken_out(behind, code, behind);
    color_codes_are_taken_out(before + behind, code, behind);
}

// ---------------------------------------------------------------------------
// Endpoints
// ---------------------------------------------------------------------------

/// DNS is asked for an address without a port, and for an Aternos host on the
/// default port; it goes before the address only for the latter.
pub proof fn dns_is_asked_where_it_may_help(address: ServerAddress<Seq<char>>)
    ensures
        prefers_srv(address) <==> address.explicit_port == Some(25_565u16) && finishes(
            lower(address.host),
            ".aternos.me"@,
        ),
        wants_srv(address) <==> address.explicit_port is None || prefers_srv(address),
{
}

/// The endpoints to begin with. A service record leads to its target, asked for by
/// the address's host first and by its own name then. An address that names its
/// port is asked there, after the record where DNS goes before it and without it
/// where not; one that names none is asked on the default port where there is no
/// record.
pub proof fn endpoints_to_begin_with(
    address: ServerAddress<Seq<char>>,
    record: Option<SrvRecord<Seq<char>>>,
)
    ensures
        ({
            let list = first_endpoints(address, record);
            let aternos = address.explicit_port == Some(25_565u16) && finishes(lower(address.host), ".aternos.me"@);
            let led = record is Some && (address.explicit_port is None || aternos);
            &&& led ==> list.len() >= 2 && list[0] == (Endpoint {
                connect_host: record->0.target,
                port: record->0.port,
                handshake_host: address.host,
            }) && list[1] == (Endpoint {
                connect_host: record->0.target,
                port: record->0.port,
                handshake_host: record->0.target,
            })
            &&& address.explicit_port matches Some(port) ==> list.last() == (Endpoint {
                connect_host: address.host,
                port,
                handshake_host: address.host,
            }) && list.len() == if led {
                3int
            } else {
                1
            }
            &&& address.explicit_port is None && led ==> list.len() == 2
            &&& address.explicit_port is None && !led ==> list == seq![
                Endpoint { connect_host: address.host, port: 25_565u16, handshake_host: address.host },
            ]
        }),
{
}

/// A search begins with its first endpoint.
pub proof fn searches_begin_at_the_first_endpoint(
    address: ServerAddress<Seq<char>>,
    lookup: Result<Option<SrvRecord<Seq<char>>>, Seq<char>>,
)
    ensures
        ({
            let list = first_endpoints(address, match lookup {
                Ok(record) => record,
                Err(_) => None,
            });
            let (search, next) = search_on(first_search(address, lookup));
            &&& next == (SearchNext::<Seq<char>, Seq<Seq<char>>>::Ask { endpoint: list[0] })
            &&& search.endpoints == list
            &&& search.index == 1
            &&& search.last_error == (match lookup {
                Ok(_) => None,
                Err(error) => Some(error),
            })
        }),
{
    let first = first_search(address, lookup);
    endpoints_to_begin_with(address, match lookup {
        Ok(record) => record,
        Err(_) => None,
    });
    assert(first.endpoints.len() > 0);
    assert(!first.endpoints.take(0).contains(first.endpoints[0]));
}

/// An answer decides how a search goes on. A status ends it with that status. A
/// redirect is put behind the endpoints that are known. An error is remembered. The
/// next endpoint that was not known before is asked; where there is none, the server
/// counts as out of reach, for the last error.
pub proof fn answers_decide_the_search(
    search: StatusSearch<Seq<char>, Seq<Endpoint<Seq<char>>>>,
    reply: Result<PingResult<Seq<char>, Seq<Seq<char>>>, Seq<char>>,
    at: int,
)
    requires
        search.index <= search.endpoints.len(),
        search.endpoints.len() + 1 < usize::MAX,
    ensures
        ({
            let (after, next) = search_step(search, reply);
            let list = match reply {
                Ok(PingResult::Redirect { host, port }) => search.endpoints.push(
                    Endpoint { connect_host: host, port, handshake_host: host },
                ),
                _ => search.endpoints,
            };
            let error = match reply {
                Err(error) => Some(error),
                Ok(_) => search.last_error,
            };
            match reply {
                Ok(PingResult::Status(status)) => next == (SearchNext::<Seq<char>, Seq<Seq<char>>>::Done { status }),
                _ => {
                    &&& after.endpoints == list
                    &&& after.last_error == error
                    &&& is_next(list, search.index as int, at) ==> next == (SearchNext::<
                        Seq<char>,
                        Seq<Seq<char>>,
                    >::Ask { endpoint: list[at] }) && after.index == at + 1
                    &&& all_known(list, search.index as int) ==> next == (SearchNext::<Seq<char>, Seq<Seq<char>>>::Done {
                        status: ServerStatus::Unreachable {
                            reason: if error is Some {
                                error->0
                            } else {
                                "Unreachable"@
                            },
                        },
                    })
                },
            }
        }),
{
    let list = match reply {
        Ok(PingResult::Redirect { host, port }) => search.endpoints.push(endpoint(host, port, host)),
        _ => search.endpoints,
    };
    lemma_next(list, search.index as int, at);
    match reply {
        Ok(PingResult::Status(_)) => {},
        Ok(PingResult::Redirect { host, port }) => {
            assert(search_step(search, reply) == search_on(StatusSearch { endpoints: list, ..search }));
        },
        Err(error) => {
            assert(search_step(search, reply) == search_on(StatusSearch { last_error: Some(error), ..search }));
        },
    }
}

/// Whether every endpoint from `from` on stands before.
pub open spec fn all_known(list: Seq<Endpoint<Seq<char>>>, from: int) -> bool {
    forall|i: int| from <= i < list.len() ==> list.take(i).contains(#[trigger] list[i])
}

/// Whether the endpoint at `at` is the first from `from` on that does not stand
/// before.
pub open spec fn is_next(list: Seq<Endpoint<Seq<char>>>, from: int, at: int) -> bool {
    &&& from <= at < list.len()
    &&& !list.take(at).contains(list[at])
    &&& forall|i: int| from <= i < at ==> list.take(i).contains(#[trigger] list[i])
}

proof fn lemma_next(list: Seq<Endpoint<Seq<char>>>, from: int, at: int)
    requires
        0 <= from <= list.len(),
    ensures
        is_next(list, from, at) ==> crate::minecraft::lookup::next_endpoint(list, from) == Some(at),
        all_known(list, from) ==> crate::minecraft::lookup::next_endpoint(list, from) is None,
    decreases list.len() - from,
{
    if from < list.len() && list.take(from).contains(list[from]) {
        lemma_next(list, from + 1, at);
    }
}

/// A status is shown by its word; one that could not be had with the reason; and that of a
/// running server with its players, by number and by name.
pub proof fn statuses_are_shown_by_their_words(
    reason: Seq<char>,
    online: u32,
    max: u32,
    players: Seq<Seq<char>>,
)
    ensures
        status_text(ServerStatus::Offline) == "Offline"@,
        status_text(ServerStatus::Unreachable { reason }) == "Offline ("@ + reason + ")"@,
        status_text(ServerStatus::Queued) == "In Queue"@,
        status_text(ServerStatus::Starting) == "Starting"@,
        status_text(ServerStatus::Preparing) == "Preparing"@,
        status_text(ServerStatus::Loading) == "Loading"@,
        status_text(ServerStatus::Online { online, max, players }) == "Online ("@ + decimal(online as nat) + "/"@ + decimal(
            max as nat,
        ) + " players)\nPlayers: "@ + (if players.len() > 0 {
            join(players, ", "@)
        } else {
            "None"@
        }),
{
}

/// The name servers are those on the lines that begin with that word, in their order, each
/// at the port of DNS; other lines name none.
pub proof fn name_servers_stand_behind_their_word(line: Seq<char>, before: Seq<Seq<char>>)
    ensures
        !begins(trim(line), "nameserver"@) ==> nameserver(line) is None,
        begins(trim(line), "nameserver"@) ==> {
            let rest = words(trim(line).skip(10));
            &&& rest.len() == 0 ==> nameserver(line) is None
            &&& rest.len() > 0 ==> nameserver(line) == Some(rest[0] + ":53"@)
        },
        nameservers(Seq::empty()) == Seq::<Seq<char>>::empty(),
        nameservers(before.push(line)) == (match nameserver(line) {
            Some(address) => nameservers(before).push(address),
            None => nameservers(before),
        }),
{
    reveal_strlit("nameserver");
    assert("nameserver"@.len() == 10);
    assert(before.push(line).drop_last() =~= before);
    if let Some(address) = nameserver(line) {
        assert(nameservers(before) + seq![address] =~= nameservers(before).push(address));
    }
}

} // verus!
