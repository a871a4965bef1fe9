use butler::json::Json;
use butler::minecraft::dns::{build_srv_query, parse_srv_response, read_dns_name, DnsError, SrvRecord};
use butler::minecraft::lookup::{
    lookup_minecraft_srv, service_name, should_lookup_srv, system_resolver, Endpoint, SearchNext, StatusSearch,
};
use butler::minecraft::{
    classify_response, extract_redirect, flatten_description, parse_address, should_prefer_srv,
    strip_minecraft_color_codes, AddressError, PingResponse, PingResult, ServerStatus,
};

#[test]
fn parses_explicit_port_without_stripping_it() {
    let parsed = parse_address("example.aternos.me:49123").unwrap();
    assert_eq!(parsed.host, "example.aternos.me");
    assert_eq!(parsed.explicit_port, Some(49123));
}

#[test]
fn parses_host_without_port() {
    let parsed = parse_address("example.aternos.me").unwrap();
    assert_eq!(parsed.host, "example.aternos.me");
    assert_eq!(parsed.explicit_port, None);
}

#[test]
fn parses_bracketed_ipv6_with_port() {
    let parsed = parse_address("[::1]:25565").unwrap();
    assert_eq!(parsed.host, "::1");
    assert_eq!(parsed.explicit_port, Some(25565));
}

#[test]
fn rejects_malformed_addresses() {
    assert!(parse_address("").is_err());
    assert!(parse_address(":25565").is_err());
    assert!(parse_address("example.com:notaport").is_err());
    assert!(parse_address("bad host.example:25565").is_err());
    assert!(parse_address("[::1").is_err());
}

#[test]
fn address_errors_say_what_is_wrong() {
    assert_eq!(parse_address("  ").unwrap_err(), AddressError::Empty);
    assert_eq!(parse_address("[::1").unwrap_err(), AddressError::MissingBracket);
    assert_eq!(parse_address("[::1]x").unwrap_err(), AddressError::TextAfterBracket);
    assert_eq!(parse_address(":25565").unwrap_err(), AddressError::EmptyHost);
    assert_eq!(parse_address("bad host.example").unwrap_err(), AddressError::WhitespaceInHost);
    assert!(matches!(
        parse_address("example.com:notaport").unwrap_err(),
        AddressError::InvalidPort { .. }
    ));
}

#[test]
fn strips_minecraft_color_codes() {
    assert_eq!(strip_minecraft_color_codes("§aOnline §cNow"), "Online Now");
}

#[test]
fn extracts_aternos_redirect_from_motd() {
    assert_eq!(
        extract_redirect("Connect to minecrafteruni.aternos.me:41801"),
        Some(("minecrafteruni.aternos.me".to_string(), 41801))
    );
}

#[test]
fn skips_invalid_redirect_ports() {
    assert_eq!(
        extract_redirect("bad.example:99999 then good.aternos.me:41801"),
        Some(("good.aternos.me".to_string(), 41801))
    );
}

#[test]
fn prefers_srv_for_aternos_default_port() {
    let parsed = parse_address("MinecrafterUni.aternos.me:25565").unwrap();
    assert!(should_prefer_srv(&parsed));
}

#[test]
fn does_not_prefer_srv_for_aternos_non_default_port() {
    let parsed = parse_address("MinecrafterUni.aternos.me:41801").unwrap();
    assert!(!should_prefer_srv(&parsed));
}

fn json(text: &str) -> Json {
    Json::parse(text.as_bytes()).unwrap()
}

#[test]
fn flattens_json_description_extra_parts() {
    let description = json(r#"{"text":"§aStarting ","extra":[{"text":"soon"},"!"]}"#);

    assert_eq!(
        strip_minecraft_color_codes(&flatten_description(&Some(description))),
        "Starting soon!"
    );
}

fn response(
    version: &str,
    description: &str,
    online_players: usize,
    max_players: usize,
    sample: Option<Vec<String>>,
) -> PingResponse {
    PingResponse {
        version: version.to_string(),
        description: Some(json(description)),
        online_players,
        max_players,
        sample,
    }
}

#[test]
fn classifies_mocked_transitional_response() {
    assert!(matches!(
        classify_response(response("Paper", "\"§6Preparing server\"", 0, 20, None)),
        PingResult::Status(ServerStatus::Preparing)
    ));
}

#[test]
fn classifies_mocked_online_response_with_players() {
    match classify_response(response(
        "Paper",
        "\"Welcome\"",
        1,
        20,
        Some(vec!["PlayerOne".to_string()]),
    )) {
        PingResult::Status(ServerStatus::Online { online, max, players }) => {
            assert_eq!(online, 1);
            assert_eq!(max, 20);
            assert_eq!(players, vec!["PlayerOne"]);
        }
        _ => panic!("expected online status"),
    }
}

#[test]
fn classifies_redirect_before_status_keywords() {
    match classify_response(response(
        "Offline",
        "\"Offline. Connect to good.aternos.me:41801\"",
        0,
        20,
        None,
    )) {
        PingResult::Redirect { host, port } => {
            assert_eq!(host, "good.aternos.me");
            assert_eq!(port, 41801);
        }
        _ => panic!("expected redirect"),
    }
}

#[test]
fn upper_case_words_are_understood() {
    assert!(matches!(
        classify_response(response("PAPER", "\"OFFLINE\"", 0, 20, None)),
        PingResult::Status(ServerStatus::Offline)
    ));
}

#[test]
fn statuses_are_shown() {
    assert_eq!(ServerStatus::Queued.to_string(), "In Queue");
    assert_eq!(
        ServerStatus::Unreachable { reason: "timeout".to_string() }.to_string(),
        "Offline (timeout)"
    );
    assert_eq!(
        ServerStatus::Online { online: 2, max: 20, players: vec!["a".to_string(), "b".to_string()] }
            .to_string(),
        "Online (2/20 players)\nPlayers: a, b"
    );
    assert_eq!(
        ServerStatus::Online { online: 0, max: 20, players: vec![] }.to_string(),
        "Online (0/20 players)\nPlayers: None"
    );
}

#[test]
fn parses_srv_response_and_prefers_higher_weight_for_same_priority() {
    let mut packet = dns_header(0x1234, 1, 2);
    push_dns_name(&mut packet, "_minecraft._tcp.example.com");
    packet.extend_from_slice(&33_u16.to_be_bytes());
    packet.extend_from_slice(&1_u16.to_be_bytes());
    push_srv_answer(&mut packet, 10, 1, 25565, "low.example.com");
    push_srv_answer(&mut packet, 10, 20, 25566, "high.example.com");

    let record = parse_srv_response(0x1234, &packet).unwrap().unwrap();
    assert_eq!(
        record,
        SrvRecord {
            priority: 10,
            weight: 20,
            port: 25566,
            target: "high.example.com".to_string(),
        }
    );
}

#[test]
fn rejects_dns_parser_edge_cases() {
    assert!(parse_srv_response(0x9999, &dns_header(0x1234, 0, 0)).is_err());
    assert!(read_dns_name(&[0x40, 0], 0).is_err());
    assert!(read_dns_name(&[0xC0, 0x00], 0).is_err());

    let mut truncated_question = dns_header(0x1234, 1, 0);
    push_dns_name(&mut truncated_question, "_minecraft._tcp.example.com");
    truncated_question.extend_from_slice(&33_u16.to_be_bytes());
    assert!(parse_srv_response(0x1234, &truncated_question).is_err());
}

#[test]
fn dns_errors_say_what_is_wrong() {
    assert_eq!(
        parse_srv_response(0x9999, &dns_header(0x1234, 0, 0)).unwrap_err(),
        DnsError::IdMismatch
    );
    assert_eq!(parse_srv_response(1, &[0, 1]).unwrap_err(), DnsError::ResponseTooShort);
    assert_eq!(read_dns_name(&[0x40, 0], 0).unwrap_err(), DnsError::ReservedBits);
    assert_eq!(read_dns_name(&[0xC0, 0x00], 0).unwrap_err(), DnsError::PointerLoop);
    assert_eq!(read_dns_name(&[0xC0], 0).unwrap_err(), DnsError::PointerTruncated);
    assert_eq!(read_dns_name(&[3, b'a'], 0).unwrap_err(), DnsError::LabelTruncated);
    assert_eq!(read_dns_name(&[], 0).unwrap_err(), DnsError::NameTruncated);
    let long = "a".repeat(64);
    assert!(matches!(build_srv_query(1, &long), Err(DnsError::LabelTooLong { .. })));
}

#[test]
fn queries_ask_for_their_name() {
    let query = build_srv_query(0x1234, "_minecraft._tcp.example.com").unwrap();
    assert_eq!(&query[0..2], &[0x12, 0x34]);
    let (name, _) = read_dns_name(&query, 12).unwrap();
    assert_eq!(name, "_minecraft._tcp.example.com");
}

#[test]
fn lower_priority_number_is_preferred() {
    let mut packet = dns_header(7, 1, 2);
    push_dns_name(&mut packet, "_minecraft._tcp.example.com");
    packet.extend_from_slice(&33_u16.to_be_bytes());
    packet.extend_from_slice(&1_u16.to_be_bytes());
    push_srv_answer(&mut packet, 20, 99, 1, "late.example.com");
    push_srv_answer(&mut packet, 10, 1, 2, "early.example.com");
    assert_eq!(parse_srv_response(7, &packet).unwrap().unwrap().target, "early.example.com");
    assert!(parse_srv_response(7, &dns_header(7, 0, 0)).unwrap().is_none());
}

#[test]
fn resolvers_are_read_from_the_configuration() {
    assert_eq!(
        system_resolver("# comment\nnameserver 1.1.1.1\nsearch lan\nnameserver 9.9.9.9\n"),
        vec!["1.1.1.1:53".to_string(), "9.9.9.9:53".to_string()]
    );
    assert_eq!(service_name("example.com"), "_minecraft._tcp.example.com");
}

#[test]
fn search_follows_redirects_and_stops_at_a_status() {
    let address = parse_address("example.aternos.me:25565").unwrap();
    assert!(should_lookup_srv(&address));
    let record = SrvRecord {
        priority: 0,
        weight: 0,
        port: 41801,
        target: "node.aternos.host".to_string(),
    };
    let (search, next) = StatusSearch::begin(&address, Ok(Some(record)));
    let first = match next {
        SearchNext::Ask { endpoint } => endpoint,
        SearchNext::Done { .. } => panic!("expected a question"),
    };
    assert_eq!(
        first,
        Endpoint {
            connect_host: "node.aternos.host".to_string(),
            port: 41801,
            handshake_host: "example.aternos.me".to_string(),
        }
    );
    let (search, next) = search.get_status_for_addr(Ok(PingResult::Redirect {
        host: "other.aternos.me".to_string(),
        port: 5,
    }));
    match next {
        SearchNext::Ask { .. } => {}
        SearchNext::Done { .. } => panic!("expected another question"),
    }
    let (_, next) = search.get_status_for_addr(Ok(PingResult::Status(ServerStatus::Loading)));
    match next {
        SearchNext::Done { status } => assert_eq!(status, ServerStatus::Loading),
        SearchNext::Ask { .. } => panic!("expected a status"),
    }
}

#[test]
fn search_without_an_answer_ends_unreachable() {
    let address = parse_address("example.com").unwrap();
    let (mut search, mut next) = StatusSearch::begin(&address, Ok(None));
    let mut asked = 0;
    let status = loop {
        match next {
            SearchNext::Done { status } => break status,
            SearchNext::Ask { .. } => {
                asked += 1;
                assert!(asked < 10);
                let (after, then) = search.get_status_for_addr(Err("refused".to_string()));
                search = after;
                next = then;
            }
        }
    };
    assert!(asked >= 1);
    assert!(status.is_offline_like());
}

fn dns_header(query_id: u16, question_count: u16, answer_count: u16) -> Vec<u8> {
    let mut packet = Vec::new();
    packet.extend_from_slice(&query_id.to_be_bytes());
    packet.extend_from_slice(&0x8180_u16.to_be_bytes());
    packet.extend_from_slice(&question_count.to_be_bytes());
    packet.extend_from_slice(&answer_count.to_be_bytes());
    packet.extend_from_slice(&0_u16.to_be_bytes());
    packet.extend_from_slice(&0_u16.to_be_bytes());
    packet
}

fn push_dns_name(packet: &mut Vec<u8>, name: &str) {
    if name == "." {
        packet.push(0);
        return;
    }

    for label in name.split('.') {
        packet.push(label.len() as u8);
        packet.extend_from_slice(label.as_bytes());
    }
    packet.push(0);
}

fn push_srv_answer(packet: &mut Vec<u8>, priority: u16, weight: u16, port: u16, target: &str) {
    packet.extend_from_slice(&[0xC0, 0x0C]);
    packet.extend_from_slice(&33_u16.to_be_bytes());
    packet.extend_from_slice(&1_u16.to_be_bytes());
    packet.extend_from_slice(&0_u32.to_be_bytes());

    let mut rdata = Vec::new();
    rdata.extend_from_slice(&priority.to_be_bytes());
    rdata.extend_from_slice(&weight.to_be_bytes());
    rdata.extend_from_slice(&port.to_be_bytes());
    push_dns_name(&mut rdata, target);

    packet.extend_from_slice(&(rdata.len() as u16).to_be_bytes());
    packet.extend_from_slice(&rdata);
}

#[test]
fn service_queries_bear_their_number() {
    let query = lookup_minecraft_srv("example.com").unwrap();
    assert_eq!(
        query.packet,
        build_srv_query(query.query_id, "_minecraft._tcp.example.com").unwrap()
    );
    assert!(lookup_minecraft_srv(&"a".repeat(64)).is_err());
}

#[test]
fn names_of_queries_are_read_back_whole() {
    let label = "a".repeat(63);
    for name in ["x", "example.com", "_minecraft._tcp.m\u{fc}ller.example", label.as_str()] {
        for id in [0, 0xffff] {
            let packet = build_srv_query(id, name).unwrap();
            let end = packet.len() - 4;
            assert_eq!(read_dns_name(&packet, 12).unwrap(), (name.to_string(), end));
        }
    }
}

#[test]
fn whitespace_around_an_address_is_ignored() {
    let address = parse_address(" \tplay.example.com:25566\n").unwrap();
    assert_eq!(address, parse_address("play.example.com:25566").unwrap());
    assert_eq!(address.original, "play.example.com:25566");
    assert_eq!(address.host, "play.example.com");
    assert_eq!(address.explicit_port, Some(25566));
    assert_eq!(
        parse_address(" host:x "),
        Err(AddressError::InvalidPort { address: " host:x ".to_string() })
    );
    assert_eq!(parse_address("a b"), Err(AddressError::WhitespaceInHost));
    assert_eq!(parse_address(":25565"), Err(AddressError::EmptyHost));
}

#[test]
fn several_colons_are_a_bare_host() {
    let address = parse_address("2001:db8::1").unwrap();
    assert_eq!(address.host, "2001:db8::1");
    assert_eq!(address.explicit_port, None);
}

#[test]
fn endpoints_are_asked_once_whatever_redirects_say() {
    let address = parse_address("example.com:25565").unwrap();
    let (mut search, mut next) = StatusSearch::begin(&address, Ok(None));
    let redirects = ["example.com", "other.example.com", "example.com", "other.example.com"];
    let mut asked = Vec::new();
    let mut redirect = redirects.iter();
    loop {
        match next {
            SearchNext::Done { .. } => break,
            SearchNext::Ask { endpoint } => {
                assert!(!asked.contains(&endpoint));
                asked.push(endpoint);
                let answer = match redirect.next() {
                    Some(host) => {
                        Ok(PingResult::Redirect { host: host.to_string(), port: 25565 })
                    }
                    None => Err("refused".to_string()),
                };
                let (after, then) = search.get_status_for_addr(answer);
                search = after;
                next = then;
            }
        }
    }
    assert_eq!(asked.len(), 1);
}

#[test]
fn redirects_to_new_endpoints_are_followed_once() {
    let address = parse_address("example.com:25565").unwrap();
    let (search, _) = StatusSearch::begin(&address, Ok(None));
    let redirect = |host: &str| PingResult::Redirect { host: host.to_string(), port: 7 };
    let (search, next) = search.get_status_for_addr(Ok(redirect("a.example")));
    assert!(matches!(next, SearchNext::Ask { .. }));
    let (search, next) = search.get_status_for_addr(Ok(redirect("b.example")));
    match next {
        SearchNext::Ask { endpoint } => assert_eq!(endpoint.connect_host, "b.example"),
        SearchNext::Done { .. } => panic!("expected another question"),
    }
    let (_, next) = search.get_status_for_addr(Ok(redirect("a.example")));
    assert!(matches!(next, SearchNext::Done { .. }));
}
