//! Finding out where the server stands: which endpoints are asked, in which
//! order, and when the asking ends.

use vstd::prelude::*;
use crate::minecraft::dns::{build_srv_query, labels_fit, labels_of, opt_record, srv_query, DnsError, SrvRecord};
use crate::minecraft::{
    prefers_srv, should_prefer_srv, PingResult, ServerAddress, ServerStatus,
};
use crate::outside;
use crate::text;
use crate::text::{begins, opt_text, split_on, texts, trim, words};

verus! {

// ---------------------------------------------------------------------------
// Name servers
// ---------------------------------------------------------------------------

/// The address of the name server on a line of the resolver's settings.
pub open spec fn nameserver(line: Seq<char>) -> Option<Seq<char>> {
    let bare = trim(line);
    if !begins(bare, "nameserver"@) {
        None
    } else {
        let names = words(bare.skip("nameserver"@.len() as int));
        if names.len() == 0 {
            None
        } else {
            Some(names[0] + ":53"@)
        }
    }
}

/// The addresses of the name servers on lines of the resolver's settings.
pub open spec fn nameservers(lines: Seq<Seq<char>>) -> Seq<Seq<char>>
    decreases lines.len(),
{
    if lines.len() == 0 {
        Seq::empty()
    } else {
        let before = nameservers(lines.drop_last());
        match nameserver(lines.last()) {
            Some(address) => before + seq![address],
            None => before,
        }
    }
}

fn nameserver_on(line: &str) -> (r: Option<String>)
    ensures
        opt_text(r) == nameserver(line@),
{
    let bare = text::trimmed(line);
    if !text::starts_with(bare.as_str(), "nameserver") {
        return None;
    }
    let chars = text::chars_of(bare.as_str());
    let prefix: usize = "nameserver".unicode_len();
    let rest = text::string_of_range(&chars, prefix, chars.len());
    proof {
        assert(rest@ =~= bare@.skip("nameserver"@.len() as int));
    }
    let names = text::split_words(rest.as_str());
    proof {
        assert(texts(names@).len() == names@.len());
    }
    if names.len() == 0 {
        return None;
    }
    proof {
        assert(texts(names@)[0] == names@[0]@);
    }
    Some(text::cat2(names[0].as_str(), ":53"))
}

/// The addresses of the name servers in the resolver's settings, in order. The
/// first of them that is a socket address is the one to ask.
pub fn system_resolver(contents: &str) -> (r: Vec<String>)
    ensures
        texts(r@) == nameservers(split_on(contents@, '\n')),
{
    let lines = text::split_at_mark(contents, '\n');
    let ghost all = texts(lines@);
    let mut out = text::no_texts();
    let mut i: usize = 0;
    proof {
        assert(all.take(0) =~= Seq::<Seq<char>>::empty());
    }
    while i < lines.len()
        invariant
            i <= lines@.len(),
            all == texts(lines@),
            texts(out@) == nameservers(all.take(i as int)),
        decreases lines@.len() - i,
    {
        proof {
            assert(all.take(i + 1).drop_last() =~= all.take(i as int));
            assert(all.take(i + 1).last() == lines@[i as int]@);
        }
        if let Some(address) = nameserver_on(lines[i].as_str()) {
            text::add_text(&mut out, address);
        }
        i += 1;
    }
    proof {
        assert(all.take(lines@.len() as int) =~= all);
    }
    out
}

/// The name under which a host's Minecraft service is recorded.
pub fn service_name(host: &str) -> (r: String)
    ensures
        r@ == "_minecraft._tcp."@ + host@,
{
    text::cat2("_minecraft._tcp.", host)
}

/// A query for a host's Minecraft service, under a number drawn at random.
#[verifier::ext_equal]
#[derive(Clone, Debug)]
pub struct ServiceQuery {
    pub query_id: u16,
    pub packet: Vec<u8>,
}

/// A query for a host's Minecraft service, under a number drawn at random. The
/// answer must bear that number.
pub fn lookup_minecraft_srv(host: &str) -> (r: Result<ServiceQuery, DnsError>)
    ensures
        match r {
            Ok(query) => srv_query(query.query_id, "_minecraft._tcp."@ + host@) == Ok::<
                Seq<u8>,
                DnsError<Seq<char>>,
            >(query.packet@),
            Err(error) => !labels_fit(labels_of("_minecraft._tcp."@ + host@)) && error@
                == (DnsError::LabelTooLong { name: "_minecraft._tcp."@ + host@ }),
        },
{
    let query_id: u16 = (outside::random_number() % 65_536) as u16;
    match build_srv_query(query_id, service_name(host).as_str()) {
        Ok(packet) => Ok(ServiceQuery { query_id, packet }),
        Err(error) => Err(error),
    }
}

// ---------------------------------------------------------------------------
// Endpoints
// ---------------------------------------------------------------------------

/// An endpoint to ask: where to connect, and the host to ask for.
#[verifier::ext_equal]
#[derive(Clone, Debug, PartialEq, Eq)]
pub struct Endpoint<T = String> {
    pub connect_host: T,
    pub port: u16,
    pub handshake_host: T,
}

impl View for Endpoint<String> {
    type V = Endpoint<Seq<char>>;

    open spec fn view(&self) -> Endpoint<Seq<char>> {
        Endpoint {
            connect_host: self.connect_host@,
            port: self.port,
            handshake_host: self.handshake_host@,
        }
    }
}

/// The views of endpoints.
pub open spec fn endpoint_views(endpoints: Seq<Endpoint>) -> Seq<Endpoint<Seq<char>>> {
    endpoints.map_values(|endpoint: Endpoint| endpoint@)
}

/// The endpoint at a host and port, asked for by the given name.
pub open spec fn endpoint(connect_host: Seq<char>, port: u16, handshake_host: Seq<char>) -> Endpoint<Seq<char>> {
    Endpoint { connect_host, port, handshake_host }
}

/// Whether the address is looked up in DNS.
pub open spec fn wants_srv(address: ServerAddress<Seq<char>>) -> bool {
    address.explicit_port is None || prefers_srv(address)
}

/// Whether the address is looked up in DNS.
pub fn should_lookup_srv(address: &ServerAddress) -> (r: bool)
    ensures
        r == wants_srv(address@),
{
    address.explicit_port.is_none() || should_prefer_srv(address)
}

/// The endpoints that a service record leads to: asked for by the server's own
/// name first, then by the target's.
pub open spec fn recorded(
    address: ServerAddress<Seq<char>>,
    record: Option<SrvRecord<Seq<char>>>,
) -> Seq<Endpoint<Seq<char>>> {
    match record {
        Some(record) => seq![
            endpoint(record.target, record.port, address.host),
            endpoint(record.target, record.port, record.target),
        ],
        None => Seq::empty(),
    }
}

/// The endpoint at an address's own port.
pub open spec fn direct(address: ServerAddress<Seq<char>>, port: u16) -> Seq<Endpoint<Seq<char>>> {
    seq![endpoint(address.host, port, address.host)]
}

/// The endpoints to begin with. Where DNS is preferred it goes before the
/// address's own port; where the address names a port only that is asked; else
/// DNS decides, and the default port stands in for it.
pub open spec fn first_endpoints(
    address: ServerAddress<Seq<char>>,
    record: Option<SrvRecord<Seq<char>>>,
) -> Seq<Endpoint<Seq<char>>> {
    match address.explicit_port {
        Some(port) => if prefers_srv(address) {
            recorded(address, record) + direct(address, port)
        } else {
            direct(address, port)
        },
        None => if record is Some {
            recorded(address, record)
        } else {
            direct(address, 25565)
        },
    }
}

/// The position of the next endpoint to ask, from `from` on: endpoints that
/// stand in the list before are passed over.
pub open spec fn next_endpoint(endpoints: Seq<Endpoint<Seq<char>>>, from: int) -> Option<int>
    decreases endpoints.len() - from,
{
    if from < 0 || from >= endpoints.len() {
        None
    } else if endpoints.take(from).contains(endpoints[from]) {
        next_endpoint(endpoints, from + 1)
    } else {
        Some(from)
    }
}

/// The search for the status: all endpoints found so far, how many of them have
/// been dealt with, and the last error.
#[verifier::ext_equal]
#[derive(Debug)]
pub struct StatusSearch<T = String, L = Vec<Endpoint>> {
    pub endpoints: L,
    pub index: usize,
    pub last_error: Option<T>,
}

impl View for StatusSearch<String, Vec<Endpoint>> {
    type V = StatusSearch<Seq<char>, Seq<Endpoint<Seq<char>>>>;

    open spec fn view(&self) -> StatusSearch<Seq<char>, Seq<Endpoint<Seq<char>>>> {
        StatusSearch {
            endpoints: endpoint_views(self.endpoints@),
            index: self.index,
            last_error: opt_text(self.last_error),
        }
    }
}

/// What a search asks for, or its end.
#[verifier::ext_equal]
#[derive(Debug)]
pub enum SearchNext<T = String, L = Vec<String>> {
    Ask { endpoint: Endpoint<T> },
    Done { status: ServerStatus<T, L> },
}

impl View for SearchNext<String, Vec<String>> {
    type V = SearchNext<Seq<char>, Seq<Seq<char>>>;

    open spec fn view(&self) -> SearchNext<Seq<char>, Seq<Seq<char>>> {
        match *self {
            SearchNext::Ask { endpoint } => SearchNext::Ask { endpoint: endpoint@ },
            SearchNext::Done { status } => SearchNext::Done { status: status@ },
        }
    }
}

/// A search and its next step.
pub type SearchStep = (
    StatusSearch<Seq<char>, Seq<Endpoint<Seq<char>>>>,
    SearchNext<Seq<char>, Seq<Seq<char>>>,
);

/// The search goes on to the next endpoint, or ends for want of one.
pub open spec fn search_on(search: StatusSearch<Seq<char>, Seq<Endpoint<Seq<char>>>>) -> SearchStep {
    match next_endpoint(search.endpoints, search.index as int) {
        Some(at) => (
            StatusSearch { index: (at + 1) as usize, ..search },
            SearchNext::Ask { endpoint: search.endpoints[at] },
        ),
        None => (
            StatusSearch { index: search.endpoints.len() as usize, ..search },
            SearchNext::Done {
                status: ServerStatus::Unreachable {
                    reason: match search.last_error {
                        Some(error) => error,
                        None => "Unreachable"@,
                    },
                },
            },
        ),
    }
}

/// A search that has asked nothing yet, with what DNS said of the address.
pub open spec fn first_search(
    address: ServerAddress<Seq<char>>,
    lookup: Result<Option<SrvRecord<Seq<char>>>, Seq<char>>,
) -> StatusSearch<Seq<char>, Seq<Endpoint<Seq<char>>>> {
    match lookup {
        Ok(record) => StatusSearch {
            endpoints: first_endpoints(address, record),
            index: 0,
            last_error: None,
        },
        Err(error) => StatusSearch {
            endpoints: first_endpoints(address, None),
            index: 0,
            last_error: Some(error),
        },
    }
}

/// What follows an answer: a status ends the search, a redirect adds an
/// endpoint, and an error is remembered.
pub open spec fn search_step(
    search: StatusSearch<Seq<char>, Seq<Endpoint<Seq<char>>>>,
    answer: Result<PingResult<Seq<char>, Seq<Seq<char>>>, Seq<char>>,
) -> SearchStep {
    match answer {
        Ok(PingResult::Status(status)) => (search, SearchNext::Done { status }),
        Ok(PingResult::Redirect { host, port }) => search_on(
            StatusSearch { endpoints: search.endpoints.push(endpoint(host, port, host)), ..search },
        ),
        Err(error) => search_on(StatusSearch { last_error: Some(error), ..search }),
    }
}

fn same_endpoint(a: &Endpoint, b: &Endpoint) -> (r: bool)
    ensures
        r == (a@ == b@),
{
    a.port == b.port && text::same(a.connect_host.as_str(), b.connect_host.as_str()) && text::same(
        a.handshake_host.as_str(),
        b.handshake_host.as_str(),
    )
}

fn stands_before(endpoints: &Vec<Endpoint>, at: usize) -> (r: bool)
    requires
        at < endpoints@.len(),
    ensures
        r == endpoint_views(endpoints@).take(at as int).contains(endpoint_views(endpoints@)[at as int]),
{
    let ghost all = endpoint_views(endpoints@);
    let mut i: usize = 0;
    while i < at
        invariant
            i <= at < endpoints@.len(),
            all == endpoint_views(endpoints@),
            forall|j: int| 0 <= j < i ==> #[trigger] all[j] != all[at as int],
        decreases at - i,
    {
        proof {
            assert(all[i as int] == endpoints@[i as int]@);
            assert(all[at as int] == endpoints@[at as int]@);
        }
        if same_endpoint(&endpoints[i], &endpoints[at]) {
            proof {
                assert(all.take(at as int)[i as int] == all[at as int]);
            }
            return true;
        }
        i += 1;
    }
    proof {
        if all.take(at as int).contains(all[at as int]) {
            let j = choose|j: int| 0 <= j < at && all.take(at as int)[j] == all[at as int];
            assert(all[j] == all[at as int]);
        }
    }
    false
}

fn push_endpoint(endpoints: &mut Vec<Endpoint>, connect_host: &str, port: u16, handshake_host: &str)
    ensures
        endpoint_views(final(endpoints)@) == endpoint_views(old(endpoints)@).push(
            endpoint(connect_host@, port, handshake_host@),
        ),
{
    let ghost before = endpoints@;
    let added = Endpoint {
        connect_host: connect_host.to_owned(),
        port,
        handshake_host: handshake_host.to_owned(),
    };
    endpoints.push(added);
    proof {
        assert(endpoint_views(endpoints@) =~= endpoint_views(before).push(added@));
    }
}

impl StatusSearch<String, Vec<Endpoint>> {
    /// A search for the status at an address, with what DNS said of it, and its
    /// first step.
    pub fn begin(address: &ServerAddress, lookup: Result<Option<SrvRecord>, String>) -> (r: (StatusSearch, SearchNext))
        ensures
            (r.0@, r.1@) == search_on(
                first_search(
                    address@,
                    match lookup {
                        Ok(record) => Ok(opt_record(record)),
                        Err(error) => Err(error@),
                    },
                ),
            ),
    {
        let (record, last_error) = match lookup {
            Ok(record) => (record, None),
            Err(error) => (None, Some(error)),
        };
        let mut endpoints: Vec<Endpoint> = Vec::new();
        let host = address.host.as_str();
        let by_dns = should_lookup_srv(address);
        proof {
            assert(endpoint_views(endpoints@) =~= Seq::empty());
        }
        let found = record.is_some();
        if by_dns {
            if let Some(record) = &record {
                push_endpoint(&mut endpoints, record.target.as_str(), record.port, host);
                push_endpoint(
                    &mut endpoints,
                    record.target.as_str(),
                    record.port,
                    record.target.as_str(),
                );
            }
            proof {
                assert(endpoint_views(endpoints@) =~= recorded(address@, opt_record(record)));
            }
        }
        match address.explicit_port {
            Some(port) => push_endpoint(&mut endpoints, host, port, host),
            None => {
                if !found {
                    push_endpoint(&mut endpoints, host, 25565, host);
                }
            },
        }
        proof {
            assert(endpoint_views(endpoints@) =~= first_endpoints(address@, opt_record(record)));
        }
        StatusSearch { endpoints, index: 0, last_error }.go_on()
    }

    fn go_on(self) -> (r: (StatusSearch, SearchNext))
        ensures
            (r.0@, r.1@) == search_on(self@),
    {
        let ghost all = endpoint_views(self.endpoints@);
        proof {
            assert(all.len() == self.endpoints@.len());
        }
        let mut search = self;
        let n: usize = search.endpoints.len();
        let mut at: usize = search.index;
        while at < n
            invariant
                n == search.endpoints@.len(),
                all == endpoint_views(search.endpoints@),
                all.len() == n,
                search.index == self.index,
                search.endpoints == self.endpoints,
                search.last_error == self.last_error,
                next_endpoint(all, self.index as int) == next_endpoint(all, at as int),
            decreases n - at,
        {
            if !stands_before(&search.endpoints, at) {
                proof {
                    assert(all[at as int] == search.endpoints@[at as int]@);
                }
                let endpoint = Endpoint {
                    connect_host: search.endpoints[at].connect_host.clone(),
                    port: search.endpoints[at].port,
                    handshake_host: search.endpoints[at].handshake_host.clone(),
                };
                search.index = at + 1;
                return (search, SearchNext::Ask { endpoint });
            }
            at += 1;
        }
        search.index = n;
        let reason = match &search.last_error {
            Some(error) => error.clone(),
            None => "Unreachable".to_owned(),
        };
        (search, SearchNext::Done { status: ServerStatus::Unreachable { reason } })
    }

    /// Takes the answer of the endpoint that was asked to the next step.
    pub fn get_status_for_addr(self, answer: Result<PingResult, String>) -> (r: (StatusSearch, SearchNext))
        ensures
            (r.0@, r.1@) == search_step(
                self@,
                match answer {
                    Ok(result) => Ok(result@),
                    Err(error) => Err(error@),
                },
            ),
    {
        match answer {
            Ok(PingResult::Status(status)) => (self, SearchNext::Done { status }),
            Ok(PingResult::Redirect { host, port }) => {
                let mut search = self;
                push_endpoint(&mut search.endpoints, host.as_str(), port, host.as_str());
                search.go_on()
            },
            Err(error) => {
                let mut search = self;
                search.last_error = Some(error);
                search.go_on()
            },
        }
    }
}

proof fn lemma_next_endpoint(endpoints: Seq<Endpoint<Seq<char>>>, from: int)
    requires
        0 <= from,
    ensures
        next_endpoint(endpoints, from) matches Some(at) ==> from <= at < endpoints.len()
            && !endpoints.take(at).contains(endpoints[at]),
    decreases endpoints.len() - from,
{
    if from < endpoints.len() && endpoints.take(from).contains(endpoints[from]) {
        lemma_next_endpoint(endpoints, from + 1);
    }
}

/// Whatever comes back, the endpoint that a search asks next is none of those
/// that it has dealt with.
pub proof fn asked_endpoints_are_new(
    search: StatusSearch<Seq<char>, Seq<Endpoint<Seq<char>>>>,
    answer: Result<PingResult<Seq<char>, Seq<Seq<char>>>, Seq<char>>,
    asked: Endpoint<Seq<char>>,
)
    requires
        search.index <= search.endpoints.len() < usize::MAX,
        search_step(search, answer).1 == (SearchNext::<Seq<char>, Seq<Seq<char>>>::Ask {
            endpoint: asked,
        }),
    ensures
        !search.endpoints.take(search.index as int).contains(asked),
        ({
            let next = search_step(search, answer).0;
            &&& search.index < next.index <= next.endpoints.len()
            &&& next.endpoints[next.index - 1] == asked
            &&& next.endpoints.take(search.endpoints.len() as int) == search.endpoints
        }),
{
    let grown = match answer {
        Ok(PingResult::Redirect { host, port }) => search.endpoints.push(endpoint(host, port, host)),
        _ => search.endpoints,
    };
    lemma_next_endpoint(grown, search.index as int);
    let at = next_endpoint(grown, search.index as int)->Some_0;
    assert(grown.take(search.endpoints.len() as int) =~= search.endpoints);
    if search.endpoints.take(search.index as int).contains(asked) {
        let j = choose|j: int|
            0 <= j < search.index && search.endpoints.take(search.index as int)[j] == asked;
        assert(grown.take(at)[j] == asked);
    }
}

/// The answers that a search gets.
pub type Answers = Seq<Result<PingResult<Seq<char>, Seq<Seq<char>>>, Seq<char>>>;

/// Where a search stands after these answers.
pub open spec fn search_after(
    address: ServerAddress<Seq<char>>,
    lookup: Result<Option<SrvRecord<Seq<char>>>, Seq<char>>,
    replies: Answers,
) -> SearchStep
    decreases replies.len(),
{
    if replies.len() == 0 {
        search_on(first_search(address, lookup))
    } else {
        search_step(search_after(address, lookup, replies.drop_last()).0, replies.last())
    }
}

/// Whether each of these answers came to an endpoint that the search asked.
pub open spec fn is_search(
    address: ServerAddress<Seq<char>>,
    lookup: Result<Option<SrvRecord<Seq<char>>>, Seq<char>>,
    replies: Answers,
) -> bool {
    forall|n: int|
        0 <= n < replies.len() ==> (#[trigger] search_after(address, lookup, replies.take(n))).1 is Ask
}

/// The endpoint that was asked last is the one before the search's position, and
/// it is not among the earlier ones.
spec fn asks_newly(step: SearchStep, limit: int) -> bool {
    &&& step.0.index <= step.0.endpoints.len() <= limit
    &&& step.1 matches SearchNext::Ask { endpoint } ==> {
        &&& step.0.index > 0
        &&& step.0.endpoints[step.0.index - 1] == endpoint
        &&& !step.0.endpoints.take(step.0.index - 1).contains(endpoint)
    }
}

/// What a search has found stays where it is, and the search moves on only.
spec fn goes_on(
    earlier: StatusSearch<Seq<char>, Seq<Endpoint<Seq<char>>>>,
    later: StatusSearch<Seq<char>, Seq<Endpoint<Seq<char>>>>,
) -> bool {
    &&& earlier.index <= later.index
    &&& earlier.endpoints.len() <= later.endpoints.len()
    &&& later.endpoints.take(earlier.endpoints.len() as int) == earlier.endpoints
}

proof fn lemma_search_on(search: StatusSearch<Seq<char>, Seq<Endpoint<Seq<char>>>>)
    requires
        search.index <= search.endpoints.len() < usize::MAX,
    ensures
        asks_newly(search_on(search), search.endpoints.len() as int),
        goes_on(search, search_on(search).0),
        search_on(search).1 is Ask ==> search.index < search_on(search).0.index,
{
    lemma_next_endpoint(search.endpoints, search.index as int);
    assert(search.endpoints.take(search.endpoints.len() as int) =~= search.endpoints);
}

proof fn lemma_search_run(
    address: ServerAddress<Seq<char>>,
    lookup: Result<Option<SrvRecord<Seq<char>>>, Seq<char>>,
    replies: Answers,
    n: int,
)
    requires
        0 <= n <= replies.len(),
        replies.len() + 3 < usize::MAX,
    ensures
        asks_newly(search_after(address, lookup, replies.take(n)), n + 3),
        n > 0 ==> {
            let before = search_after(address, lookup, replies.take(n - 1)).0;
            let (after, next) = search_after(address, lookup, replies.take(n));
            goes_on(before, after) && (next is Ask ==> before.index < after.index)
        },
    decreases n,
{
    if n == 0 {
        lemma_search_on(first_search(address, lookup));
    } else {
        lemma_search_run(address, lookup, replies, n - 1);
        assert(replies.take(n).drop_last() =~= replies.take(n - 1));
        let search = search_after(address, lookup, replies.take(n - 1)).0;
        assert(search.endpoints.take(search.endpoints.len() as int) =~= search.endpoints);
        match replies[n - 1] {
            Ok(PingResult::Status(_)) => {},
            Ok(PingResult::Redirect { host, port }) => {
                let grown = StatusSearch {
                    endpoints: search.endpoints.push(endpoint(host, port, host)),
                    ..search
                };
                lemma_search_on(grown);
                assert(grown.endpoints.take(search.endpoints.len() as int) =~= search.endpoints);
            },
            Err(error) => lemma_search_on(StatusSearch { last_error: Some(error), ..search }),
        }
    }
}

proof fn lemma_search_goes_on(
    address: ServerAddress<Seq<char>>,
    lookup: Result<Option<SrvRecord<Seq<char>>>, Seq<char>>,
    replies: Answers,
    i: int,
    j: int,
)
    requires
        0 <= i <= j <= replies.len(),
        replies.len() + 3 < usize::MAX,
    ensures
        goes_on(
            search_after(address, lookup, replies.take(i)).0,
            search_after(address, lookup, replies.take(j)).0,
        ),
    decreases j - i,
{
    let first = search_after(address, lookup, replies.take(i)).0;
    if i == j {
        assert(first.endpoints.take(first.endpoints.len() as int) =~= first.endpoints);
    } else {
        lemma_search_goes_on(address, lookup, replies, i, j - 1);
        lemma_search_run(address, lookup, replies, j);
        let before = search_after(address, lookup, replies.take(j - 1)).0;
        let after = search_after(address, lookup, replies.take(j)).0;
        assert(after.endpoints.take(first.endpoints.len() as int) =~= before.endpoints.take(
            first.endpoints.len() as int,
        ));
    }
}

/// No endpoint is asked twice in a search, whatever redirects come back: of two
/// positions in a run at which an endpoint is asked, the endpoints differ.
pub proof fn no_endpoint_is_asked_twice(
    address: ServerAddress<Seq<char>>,
    lookup: Result<Option<SrvRecord<Seq<char>>>, Seq<char>>,
    replies: Answers,
    i: int,
    j: int,
)
    requires
        is_search(address, lookup, replies),
        replies.len() + 3 < usize::MAX,
        0 <= i < j <= replies.len(),
        search_after(address, lookup, replies.take(i)).1 is Ask,
        search_after(address, lookup, replies.take(j)).1 is Ask,
    ensures
        search_after(address, lookup, replies.take(i)).1 != search_after(address, lookup, replies.take(j)).1,
{
    lemma_search_run(address, lookup, replies, i);
    lemma_search_run(address, lookup, replies, j);
    lemma_search_goes_on(address, lookup, replies, i, j - 1);
    lemma_search_goes_on(address, lookup, replies, i, j);
    let (first, asked) = search_after(address, lookup, replies.take(i));
    let later = search_after(address, lookup, replies.take(j)).0;
    let at = first.index - 1;
    assert(later.endpoints.take(first.endpoints.len() as int)[at] == first.endpoints[at]);
    assert(later.endpoints.take(later.index - 1)[at] == first.endpoints[at]);
}

} // verus!
