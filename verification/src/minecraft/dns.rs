//! The DNS messages by which a Minecraft server's real address is found.

use vstd::prelude::*;
use vstd::utf8::encode_utf8;
use crate::outside;
use crate::outside::{encoded_text_is_read_back, lossy_text};
use crate::text;
use crate::text::{
    join, joined_parts_are_found_again, joined_pieces_are_the_whole, lacks, split_on, texts,
};

verus! {

/// The address that a service record gives for a server.
#[verifier::ext_equal]
#[derive(Clone, Debug, PartialEq, Eq)]
pub struct SrvRecord<T = String> {
    pub priority: u16,
    pub weight: u16,
    pub port: u16,
    pub target: T,
}

impl View for SrvRecord<String> {
    type V = SrvRecord<Seq<char>>;

    open spec fn view(&self) -> SrvRecord<Seq<char>> {
        SrvRecord {
            priority: self.priority,
            weight: self.weight,
            port: self.port,
            target: self.target@,
        }
    }
}

/// The view of an optional record.
pub open spec fn opt_record(value: Option<SrvRecord>) -> Option<SrvRecord<Seq<char>>> {
    match value {
        Some(record) => Some(record@),
        None => None,
    }
}

/// What is wrong with a message.
#[verifier::ext_equal]
#[derive(Clone, Debug, PartialEq, Eq)]
pub enum DnsError<T = String> {
    LabelTooLong { name: T },
    ResponseTooShort,
    IdMismatch,
    QuestionTruncated,
    RecordTruncated,
    Truncated,
    NameTruncated,
    PointerTruncated,
    PointerLoop,
    ReservedBits,
    LabelTruncated,
}

impl View for DnsError<String> {
    type V = DnsError<Seq<char>>;

    open spec fn view(&self) -> DnsError<Seq<char>> {
        match *self {
            DnsError::LabelTooLong { name } => DnsError::LabelTooLong { name: name@ },
            DnsError::ResponseTooShort => DnsError::ResponseTooShort,
            DnsError::IdMismatch => DnsError::IdMismatch,
            DnsError::QuestionTruncated => DnsError::QuestionTruncated,
            DnsError::RecordTruncated => DnsError::RecordTruncated,
            DnsError::Truncated => DnsError::Truncated,
            DnsError::NameTruncated => DnsError::NameTruncated,
            DnsError::PointerTruncated => DnsError::PointerTruncated,
            DnsError::PointerLoop => DnsError::PointerLoop,
            DnsError::ReservedBits => DnsError::ReservedBits,
            DnsError::LabelTruncated => DnsError::LabelTruncated,
        }
    }
}

impl DnsError<String> {
    /// The error in words.
    pub fn to_string(&self) -> (r: String)
        ensures
            r@ == match self@ {
                DnsError::LabelTooLong { name } => "DNS label is too long in "@ + name,
                DnsError::ResponseTooShort => "DNS response too short"@,
                DnsError::IdMismatch => "DNS response ID did not match request"@,
                DnsError::QuestionTruncated => "DNS question is truncated"@,
                DnsError::RecordTruncated => "DNS response record is truncated"@,
                DnsError::Truncated => "DNS response is truncated"@,
                DnsError::NameTruncated => "DNS name is truncated"@,
                DnsError::PointerTruncated => "DNS compression pointer is truncated"@,
                DnsError::PointerLoop => "DNS compression pointer loop detected"@,
                DnsError::ReservedBits => "DNS label uses reserved length bits"@,
                DnsError::LabelTruncated => "DNS label is truncated"@,
            },
    {
        match self {
            DnsError::LabelTooLong { name } => text::cat2("DNS label is too long in ", name.as_str()),
            DnsError::ResponseTooShort => "DNS response too short".to_owned(),
            DnsError::IdMismatch => "DNS response ID did not match request".to_owned(),
            DnsError::QuestionTruncated => "DNS question is truncated".to_owned(),
            DnsError::RecordTruncated => "DNS response record is truncated".to_owned(),
            DnsError::Truncated => "DNS response is truncated".to_owned(),
            DnsError::NameTruncated => "DNS name is truncated".to_owned(),
            DnsError::PointerTruncated => "DNS compression pointer is truncated".to_owned(),
            DnsError::PointerLoop => "DNS compression pointer loop detected".to_owned(),
            DnsError::ReservedBits => "DNS label uses reserved length bits".to_owned(),
            DnsError::LabelTruncated => "DNS label is truncated".to_owned(),
        }
    }
}

// ---------------------------------------------------------------------------
// Numbers
// ---------------------------------------------------------------------------

/// A number in two bytes, the greater first.
pub open spec fn be16(n: u16) -> Seq<u8> {
    seq![(n / 256) as u8, (n % 256) as u8]
}

fn push_u16(packet: &mut Vec<u8>, n: u16)
    ensures
        final(packet)@ == old(packet)@ + be16(n),
{
    let ghost before = packet@;
    packet.push((n / 256) as u8);
    packet.push((n % 256) as u8);
    proof {
        assert(packet@ =~= before + be16(n));
    }
}

/// The number in the two bytes at `offset`.
pub open spec fn u16_at(packet: Seq<u8>, offset: int) -> Result<u16, DnsError<Seq<char>>> {
    if offset + 2 > packet.len() {
        Err(DnsError::Truncated)
    } else {
        Ok((packet[offset] * 256 + packet[offset + 1]) as u16)
    }
}

/// The number in the two bytes `delta` behind `base`.
fn read_u16(packet: &[u8], base: usize, delta: usize) -> (r: Result<u16, DnsError>)
    requires
        delta <= 8,
    ensures
        (match r {
            Ok(n) => Ok::<u16, DnsError<Seq<char>>>(n),
            Err(error) => Err(error@),
        }) == u16_at(packet@, base + delta),
{
    let n: usize = packet.len();
    if n < delta + 2 || base > n - delta - 2 {
        return Err(DnsError::Truncated);
    }
    Ok(packet[base + delta] as u16 * 256 + packet[base + delta + 1] as u16)
}

// ---------------------------------------------------------------------------
// Query
// ---------------------------------------------------------------------------

/// `name` without the dots at its end.
pub open spec fn without_final_dots(name: Seq<char>) -> Seq<char>
    decreases name.len(),
{
    if name.len() > 0 && name.last() == '.' {
        without_final_dots(name.drop_last())
    } else {
        name
    }
}

fn strip_final_dots(name: &str) -> (r: String)
    ensures
        r@ == without_final_dots(name@),
{
    let chars = text::chars_of(name);
    let mut to: usize = chars.len();
    proof {
        assert(chars@.take(to as int) =~= chars@);
    }
    while to > 0 && chars[to - 1] == '.'
        invariant
            to <= chars@.len(),
            without_final_dots(chars@) == without_final_dots(chars@.take(to as int)),
        decreases to,
    {
        proof {
            assert(chars@.take(to as int).drop_last() =~= chars@.take(to - 1));
        }
        to -= 1;
    }
    let r = text::string_of_range(&chars, 0, to);
    proof {
        assert(r@ =~= chars@.take(to as int));
    }
    r
}

/// The labels of a name.
pub open spec fn labels_of(name: Seq<char>) -> Seq<Seq<char>> {
    split_on(without_final_dots(name), '.')
}

/// Whether each label fits its length byte.
pub open spec fn labels_fit(labels: Seq<Seq<char>>) -> bool {
    forall|i: int| 0 <= i < labels.len() ==> encode_utf8(#[trigger] labels[i]).len() <= 63
}

/// The labels, each behind its length.
pub open spec fn encode_labels(labels: Seq<Seq<char>>) -> Seq<u8>
    decreases labels.len(),
{
    if labels.len() == 0 {
        Seq::empty()
    } else {
        encode_labels(labels.drop_last()).push(encode_utf8(labels.last()).len() as u8)
            + encode_utf8(labels.last())
    }
}

/// The header of a query with one question.
pub open spec fn query_header(query_id: u16) -> Seq<u8> {
    be16(query_id) + be16(0x0100) + be16(1) + be16(0) + be16(0) + be16(0)
}

/// The query for the service records of a name.
pub open spec fn srv_query(query_id: u16, name: Seq<char>) -> Result<Seq<u8>, DnsError<Seq<char>>> {
    if labels_fit(labels_of(name)) {
        Ok(query_header(query_id) + encode_labels(labels_of(name)) + seq![0u8] + be16(33) + be16(1))
    } else {
        Err(DnsError::LabelTooLong { name })
    }
}

/// The query for the service records of a name.
pub fn build_srv_query(query_id: u16, name: &str) -> (r: Result<Vec<u8>, DnsError>)
    ensures
        (match r {
            Ok(packet) => Ok::<Seq<u8>, DnsError<Seq<char>>>(packet@),
            Err(error) => Err(error@),
        }) == srv_query(query_id, name@),
{
    let mut packet: Vec<u8> = Vec::new();
    proof {
        assert(packet@ =~= Seq::<u8>::empty());
    }
    push_u16(&mut packet, query_id);
    push_u16(&mut packet, 0x0100);
    push_u16(&mut packet, 1);
    push_u16(&mut packet, 0);
    push_u16(&mut packet, 0);
    push_u16(&mut packet, 0);
    let ghost header = query_header(query_id);
    proof {
        assert(packet@ =~= header);
    }
    let labels = text::split_at_mark(strip_final_dots(name).as_str(), '.');
    let ghost all = labels_of(name@);
    let mut i: usize = 0;
    proof {
        assert(all.take(0) =~= Seq::<Seq<char>>::empty());
        assert(packet@ =~= header + encode_labels(all.take(0)));
    }
    while i < labels.len()
        invariant
            i <= labels@.len(),
            all == labels_of(name@),
            texts(labels@) == all,
            header == query_header(query_id),
            packet@ == header + encode_labels(all.take(i as int)),
            forall|j: int| 0 <= j < i ==> encode_utf8(#[trigger] all[j]).len() <= 63,
        decreases labels@.len() - i,
    {
        let bytes = labels[i].as_str().as_bytes();
        proof {
            assert(all[i as int] == labels@[i as int]@);
            assert(bytes@ == encode_utf8(all[i as int]));
        }
        if bytes.len() > 63 {
            assert(!labels_fit(all));
            return Err(DnsError::LabelTooLong { name: name.to_owned() });
        }
        let ghost before = packet@;
        packet.push(bytes.len() as u8);
        packet.extend_from_slice(bytes);
        proof {
            assert(all.take(i + 1).drop_last() =~= all.take(i as int));
            assert(all.take(i + 1).last() == all[i as int]);
            assert(packet@ =~= header + encode_labels(all.take(i + 1)));
        }
        i += 1;
    }
    proof {
        assert(all.take(labels@.len() as int) =~= all);
        assert(labels_fit(all));
    }
    packet.push(0);
    push_u16(&mut packet, 33);
    push_u16(&mut packet, 1);
    proof {
        assert(packet@ =~= header + encode_labels(all) + seq![0u8] + be16(33) + be16(1));
    }
    Ok(packet)
}

// ---------------------------------------------------------------------------
// Names
// ---------------------------------------------------------------------------

/// How many compression pointers a name may follow.
pub const MAX_POINTERS: u64 = 8;

/// The labels of the name at `offset`, as bytes, and where what follows the
/// name begins. `jumps` counts the compression pointers that led here.
pub open spec fn name_at(
    packet: Seq<u8>,
    offset: int,
    jumps: nat,
) -> Result<(Seq<Seq<u8>>, int), DnsError<Seq<char>>>
    decreases (if jumps <= MAX_POINTERS { MAX_POINTERS - jumps + 1 } else { 0 }), packet.len() - offset,
{
    if offset < 0 || offset >= packet.len() {
        Err(DnsError::NameTruncated)
    } else {
        let length = packet[offset];
        if length >= 192 {
            if offset + 1 >= packet.len() {
                Err(DnsError::PointerTruncated)
            } else if jumps + 1 > MAX_POINTERS {
                Err(DnsError::PointerLoop)
            } else {
                let target = (length - 192) * 256 + packet[offset + 1];
                match name_at(packet, target, jumps + 1) {
                    Ok((labels, _)) => Ok((labels, offset + 2)),
                    Err(error) => Err(error),
                }
            }
        } else if length >= 64 {
            Err(DnsError::ReservedBits)
        } else if length == 0 {
            Ok((Seq::empty(), offset + 1))
        } else if offset + 1 + length > packet.len() {
            Err(DnsError::LabelTruncated)
        } else {
            match name_at(packet, offset + 1 + length, jumps) {
                Ok((labels, next)) => Ok(
                    (seq![packet.subrange(offset + 1, offset + 1 + length)] + labels, next),
                ),
                Err(error) => Err(error),
            }
        }
    }
}

/// A name in words: its labels with dots between them.
pub open spec fn name_text(labels: Seq<Seq<u8>>) -> Seq<char> {
    join(labels.map_values(|label: Seq<u8>| lossy_text(label)), "."@)
}

/// The name that is complete once the labels read so far are put before the
/// rest. After a jump what follows the name is known already.
spec fn completed(
    read: Seq<Seq<u8>>,
    after_jump: Option<int>,
    rest: Result<(Seq<Seq<u8>>, int), DnsError<Seq<char>>>,
) -> Result<(Seq<Seq<u8>>, int), DnsError<Seq<char>>> {
    match rest {
        Ok((labels, next)) => Ok(
            (
                read + labels,
                match after_jump {
                    Some(at) => at,
                    None => next,
                },
            ),
        ),
        Err(error) => Err(error),
    }
}

/// The characters of labels.
pub open spec fn label_texts(labels: Seq<Seq<u8>>) -> Seq<Seq<char>> {
    labels.map_values(|label: Seq<u8>| lossy_text(label))
}

/// The view of a name and of where it ends, or of what is wrong with it.
pub open spec fn name_view(result: Result<(String, usize), DnsError>) -> Result<(Seq<char>, int), DnsError<Seq<char>>> {
    match result {
        Ok((name, next)) => Ok((name@, next as int)),
        Err(error) => Err(error@),
    }
}

/// The name at `offset` in words, and where what follows it begins.
pub open spec fn named(packet: Seq<u8>, offset: int) -> Result<(Seq<char>, int), DnsError<Seq<char>>> {
    match name_at(packet, offset, 0) {
        Ok((labels, next)) => Ok((name_text(labels), next)),
        Err(error) => Err(error),
    }
}

/// Reads the name at `offset`.
pub fn read_dns_name(packet: &[u8], offset: usize) -> (r: Result<(String, usize), DnsError>)
    ensures
        name_view(r) == named(packet@, offset as int),
        r matches Ok((_, next)) ==> next <= packet@.len(),
{
    let ghost start = offset as int;
    let n: usize = packet.len();
    let mut labels = text::no_texts();
    let ghost mut read: Seq<Seq<u8>> = Seq::empty();
    let mut after_jump: Option<usize> = None;
    let mut jumps: u64 = 0;
    let mut at: usize = offset;
    proof {
        assert(label_texts(read) =~= Seq::<Seq<char>>::empty());
        let whole = name_at(packet@, start, 0);
        assert(completed(read, None, whole) == whole) by {
            if let Ok((rest, next)) = whole {
                assert(read + rest =~= rest);
            }
        }
    }
    loop
        invariant
            n == packet@.len(),
            start == offset,
            jumps <= MAX_POINTERS,
            texts(labels@) == label_texts(read),
            after_jump matches Some(next) ==> next <= n,
            name_at(packet@, start, 0) == completed(
                read,
                match after_jump {
                    Some(next) => Some(next as int),
                    None => None,
                },
                name_at(packet@, at as int, jumps as nat),
            ),
        decreases MAX_POINTERS - jumps, (if at <= n { n - at } else { 0 }),
    {
        if at >= n {
            return Err(DnsError::NameTruncated);
        }
        let length: u8 = packet[at];
        if length >= 192 {
            if n - at < 2 {
                return Err(DnsError::PointerTruncated);
            }
            if jumps >= MAX_POINTERS {
                return Err(DnsError::PointerLoop);
            }
            let target: usize = (length as usize - 192) * 256 + packet[at + 1] as usize;
            if after_jump.is_none() {
                after_jump = Some(at + 2);
            }
            at = target;
            jumps += 1;
        } else if length >= 64 {
            return Err(DnsError::ReservedBits);
        } else if length == 0 {
            let next: usize = match after_jump {
                Some(next) => next,
                None => at + 1,
            };
            proof {
                assert(read + Seq::<Seq<u8>>::empty() =~= read);
                assert(name_at(packet@, at as int, jumps as nat) == Ok::<
                    (Seq<Seq<u8>>, int),
                    DnsError<Seq<char>>,
                >((Seq::<Seq<u8>>::empty(), at + 1)));
            }
            return Ok((text::joined(&labels, "."), next));
        } else {
            let size: usize = length as usize;
            if n - at - 1 < size {
                return Err(DnsError::LabelTruncated);
            }
            let bytes = vstd::slice::slice_subrange(packet, at + 1, at + 1 + size);
            let label = outside::text_from_utf8_lossy(bytes);
            text::add_text(&mut labels, label);
            proof {
                let piece = packet@.subrange(at + 1, at + 1 + size);
                assert(bytes@ == piece);
                let before = read;
                read = read.push(piece);
                assert(label_texts(read) =~= label_texts(before) + seq![lossy_text(piece)]);
                let rest = name_at(packet@, at + 1 + size, jumps as nat);
                if let Ok((more, next)) = rest {
                    assert(before + (seq![piece] + more) =~= read + more);
                }
            }
            at = at + 1 + size;
        }
    }
}

// ---------------------------------------------------------------------------
// Response
// ---------------------------------------------------------------------------

/// Where the answers begin, behind `count` questions that begin at `offset`.
pub open spec fn after_questions(packet: Seq<u8>, offset: int, count: nat) -> Result<int, DnsError<Seq<char>>>
    decreases count,
{
    if count == 0 {
        Ok(offset)
    } else {
        match name_at(packet, offset, 0) {
            Err(error) => Err(error),
            Ok((_, next)) => if next + 4 > packet.len() {
                Err(DnsError::QuestionTruncated)
            } else {
                after_questions(packet, next + 4, (count - 1) as nat)
            },
        }
    }
}

/// The fixed part of a record whose name has ended at `offset`: its type, its
/// class and the length of its data.
pub open spec fn record_head(packet: Seq<u8>, offset: int) -> Result<(u16, u16, u16), DnsError<Seq<char>>> {
    match (u16_at(packet, offset), u16_at(packet, offset + 2), u16_at(packet, offset + 8)) {
        (Ok(kind), Ok(class), Ok(length)) => if offset + 10 + length > packet.len() {
            Err(DnsError::RecordTruncated)
        } else {
            Ok((kind, class, length))
        },
        _ => Err(DnsError::Truncated),
    }
}

/// The service record in the data at `offset`.
pub open spec fn service_record(packet: Seq<u8>, offset: int) -> Result<SrvRecord<Seq<char>>, DnsError<Seq<char>>> {
    match named(packet, offset + 6) {
        Err(error) => Err(error),
        Ok((target, _)) => Ok(
            SrvRecord {
                priority: u16_at(packet, offset)->Ok_0,
                weight: u16_at(packet, offset + 2)->Ok_0,
                port: u16_at(packet, offset + 4)->Ok_0,
                target: without_final_dots(target),
            },
        ),
    }
}

/// Whether a record of that type, class and length is a service record.
pub open spec fn is_service(kind: u16, class: u16, length: u16) -> bool {
    kind == 33 && class == 1 && length >= 7
}

/// The service records among `count` answers that begin at `offset`.
pub open spec fn service_records(
    packet: Seq<u8>,
    offset: int,
    count: nat,
) -> Result<Seq<SrvRecord<Seq<char>>>, DnsError<Seq<char>>>
    decreases count,
{
    if count == 0 {
        Ok(Seq::empty())
    } else {
        match name_at(packet, offset, 0) {
            Err(error) => Err(error),
            Ok((_, next)) => match record_head(packet, next) {
                Err(error) => Err(error),
                Ok((kind, class, length)) => {
                    let rest = service_records(packet, next + 10 + length, (count - 1) as nat);
                    if is_service(kind, class, length) {
                        match (service_record(packet, next + 10), rest) {
                            (Err(error), _) => Err(error),
                            (Ok(_), Err(error)) => Err(error),
                            (Ok(record), Ok(records)) => Ok(seq![record] + records),
                        }
                    } else {
                        rest
                    }
                },
            },
        }
    }
}

/// Whether the first record is asked before the second: for its lower priority
/// number, then for its greater weight.
pub open spec fn goes_before(a: SrvRecord<Seq<char>>, b: SrvRecord<Seq<char>>) -> bool {
    a.priority < b.priority || (a.priority == b.priority && a.weight > b.weight)
}

/// Whether the record at `at` is the one to ask: nothing goes before it, and it
/// is the first such.
pub open spec fn is_chosen(records: Seq<SrvRecord<Seq<char>>>, at: int) -> bool {
    &&& 0 <= at < records.len()
    &&& forall|j: int| 0 <= j < records.len() ==> !goes_before(#[trigger] records[j], records[at])
    &&& forall|j: int| 0 <= j < at ==> goes_before(records[at], #[trigger] records[j])
}

/// Whether a record is the one to ask among `records`.
pub open spec fn is_choice(records: Seq<SrvRecord<Seq<char>>>, record: SrvRecord<Seq<char>>) -> bool {
    exists|at: int| (#[trigger] is_chosen(records, at)) && records[at] == record
}

/// What a response to the query says: its service records, or what is wrong
/// with it.
pub open spec fn response_records(
    query_id: u16,
    packet: Seq<u8>,
) -> Result<Seq<SrvRecord<Seq<char>>>, DnsError<Seq<char>>> {
    if packet.len() < 12 {
        Err(DnsError::ResponseTooShort)
    } else if u16_at(packet, 0)->Ok_0 != query_id {
        Err(DnsError::IdMismatch)
    } else {
        match after_questions(packet, 12, u16_at(packet, 4)->Ok_0 as nat) {
            Err(error) => Err(error),
            Ok(offset) => service_records(packet, offset, u16_at(packet, 6)->Ok_0 as nat),
        }
    }
}

/// The records behind the ones that were read, or what is wrong with them.
spec fn with_read(
    read: Seq<SrvRecord<Seq<char>>>,
    rest: Result<Seq<SrvRecord<Seq<char>>>, DnsError<Seq<char>>>,
) -> Result<Seq<SrvRecord<Seq<char>>>, DnsError<Seq<char>>> {
    match rest {
        Ok(records) => Ok(read + records),
        Err(error) => Err(error),
    }
}

/// The views of records.
pub open spec fn record_views(records: Seq<SrvRecord>) -> Seq<SrvRecord<Seq<char>>> {
    records.map_values(|record: SrvRecord| record@)
}

fn skip_questions(packet: &[u8], count: u16) -> (r: Result<usize, DnsError>)
    requires
        packet@.len() >= 12,
    ensures
        (match r {
            Ok(offset) => Ok::<int, DnsError<Seq<char>>>(offset as int),
            Err(error) => Err(error@),
        }) == after_questions(packet@, 12, count as nat),
        r matches Ok(offset) ==> offset <= packet@.len(),
{
    let mut offset: usize = 12;
    let mut left: u16 = count;
    while left > 0
        invariant
            offset <= packet@.len(),
            after_questions(packet@, 12, count as nat) == after_questions(
                packet@,
                offset as int,
                left as nat,
            ),
        decreases left,
    {
        let next: usize = match read_dns_name(packet, offset) {
            Ok((_, next)) => next,
            Err(error) => return Err(error),
        };
        if packet.len() - next < 4 {
            return Err(DnsError::QuestionTruncated);
        }
        offset = next + 4;
        left -= 1;
    }
    Ok(offset)
}

fn read_head(packet: &[u8], offset: usize) -> (r: Result<(u16, u16, u16), DnsError>)
    requires
        offset <= packet@.len(),
    ensures
        (match r {
            Ok(head) => Ok::<(u16, u16, u16), DnsError<Seq<char>>>(head),
            Err(error) => Err(error@),
        }) == record_head(packet@, offset as int),
{
    let kind: u16 = match read_u16(packet, offset, 0) {
        Ok(n) => n,
        Err(error) => return Err(error),
    };
    let class: u16 = match read_u16(packet, offset, 2) {
        Ok(n) => n,
        Err(error) => return Err(error),
    };
    let length: u16 = match read_u16(packet, offset, 8) {
        Ok(n) => n,
        Err(error) => return Err(error),
    };
    if packet.len() - offset - 10 < length as usize {
        return Err(DnsError::RecordTruncated);
    }
    Ok((kind, class, length))
}

fn read_service(packet: &[u8], offset: usize) -> (r: Result<SrvRecord, DnsError>)
    requires
        offset + 7 <= packet@.len(),
    ensures
        (match r {
            Ok(record) => Ok::<SrvRecord<Seq<char>>, DnsError<Seq<char>>>(record@),
            Err(error) => Err(error@),
        }) == service_record(packet@, offset as int),
{
    let priority: u16 = packet[offset] as u16 * 256 + packet[offset + 1] as u16;
    let weight: u16 = packet[offset + 2] as u16 * 256 + packet[offset + 3] as u16;
    let port: u16 = packet[offset + 4] as u16 * 256 + packet[offset + 5] as u16;
    match read_dns_name(packet, offset + 6) {
        Ok((target, _)) => Ok(
            SrvRecord { priority, weight, port, target: strip_final_dots(target.as_str()) },
        ),
        Err(error) => Err(error),
    }
}

fn read_answers(packet: &[u8], start: usize, count: u16) -> (r: Result<Vec<SrvRecord>, DnsError>)
    requires
        start <= packet@.len(),
    ensures
        (match r {
            Ok(records) => Ok::<Seq<SrvRecord<Seq<char>>>, DnsError<Seq<char>>>(
                record_views(records@),
            ),
            Err(error) => Err(error@),
        }) == service_records(packet@, start as int, count as nat),
{
    let n: usize = packet.len();
    let mut records: Vec<SrvRecord> = Vec::new();
    let mut offset: usize = start;
    let mut left: u16 = count;
    proof {
        let whole = service_records(packet@, start as int, count as nat);
        assert(record_views(records@) =~= Seq::empty());
        if let Ok(all) = whole {
            assert(record_views(records@) + all =~= all);
        }
    }
    while left > 0
        invariant
            n == packet@.len(),
            offset <= n,
            service_records(packet@, start as int, count as nat) == with_read(
                record_views(records@),
                service_records(packet@, offset as int, left as nat),
            ),
        decreases left,
    {
        let ghost read = record_views(records@);
        let next: usize = match read_dns_name(packet, offset) {
            Ok((_, next)) => next,
            Err(error) => return Err(error),
        };
        let (kind, class, length) = match read_head(packet, next) {
            Ok(head) => head,
            Err(error) => return Err(error),
        };
        let data: usize = next + 10;
        let ghost rest = service_records(packet@, data + length, (left - 1) as nat);
        if kind == 33 && class == 1 && length >= 7 {
            match read_service(packet, data) {
                Ok(record) => {
                    let ghost before = records@;
                    records.push(record);
                    proof {
                        assert(record_views(records@) =~= read.push(record@));
                        if let Ok(more) = rest {
                            assert(read + (seq![record@] + more) =~= record_views(records@) + more);
                        }
                    }
                },
                Err(error) => return Err(error),
            }
        }
        offset = data + length as usize;
        left -= 1;
    }
    proof {
        assert(record_views(records@) + Seq::<SrvRecord<Seq<char>>>::empty() =~= record_views(
            records@,
        ));
    }
    Ok(records)
}

/// The record that a response gives: the chosen one of its service records, if
/// it has any.
pub fn parse_srv_response(query_id: u16, packet: &[u8]) -> (r: Result<Option<SrvRecord>, DnsError>)
    ensures
        match response_records(query_id, packet@) {
            Err(error) => r matches Err(found) && found@ == error,
            Ok(records) => r matches Ok(chosen) && match chosen {
                Some(record) => is_choice(records, record@),
                None => records.len() == 0,
            },
        },
{
    if packet.len() < 12 {
        return Err(DnsError::ResponseTooShort);
    }
    let id: u16 = packet[0] as u16 * 256 + packet[1] as u16;
    if id != query_id {
        return Err(DnsError::IdMismatch);
    }
    let question_count: u16 = packet[4] as u16 * 256 + packet[5] as u16;
    let answer_count: u16 = packet[6] as u16 * 256 + packet[7] as u16;
    let offset: usize = match skip_questions(packet, question_count) {
        Ok(offset) => offset,
        Err(error) => return Err(error),
    };
    let records = match read_answers(packet, offset, answer_count) {
        Ok(records) => records,
        Err(error) => return Err(error),
    };
    let ghost all = record_views(records@);
    proof {
        assert(all.len() == records@.len());
    }
    if records.len() == 0 {
        return Ok(None);
    }
    let mut best: usize = 0;
    let mut i: usize = 1;
    proof {
        assert(all[0] == records@[0]@);
    }
    while i < records.len()
        invariant
            all == record_views(records@),
            all.len() == records@.len(),
            best < i <= records@.len(),
            forall|j: int| 0 <= j < i ==> !goes_before(#[trigger] all[j], all[best as int]),
            forall|j: int| 0 <= j < best ==> goes_before(all[best as int], #[trigger] all[j]),
        decreases records@.len() - i,
    {
        proof {
            assert(all[i as int] == records@[i as int]@);
            assert(all[best as int] == records@[best as int]@);
        }
        if records[i].priority < records[best].priority || (records[i].priority
            == records[best].priority && records[i].weight > records[best].weight) {
            best = i;
        }
        i += 1;
    }
    let chosen = SrvRecord {
        priority: records[best].priority,
        weight: records[best].weight,
        port: records[best].port,
        target: records[best].target.clone(),
    };
    proof {
        assert(all[best as int] == records@[best as int]@);
        assert(is_chosen(all, best as int));
        assert(response_records(query_id, packet@) == Ok::<_, DnsError<Seq<char>>>(all));
        assert(all[best as int] == chosen@);
        assert(is_choice(all, chosen@));
    }
    Ok(Some(chosen))
}

// ---------------------------------------------------------------------------
// What holds of names and choices
// ---------------------------------------------------------------------------

/// At most one record of a response is the chosen one, and where there are
/// records one is.
pub proof fn exactly_one_record_is_chosen(records: Seq<SrvRecord<Seq<char>>>)
    ensures
        forall|i: int, j: int|
            #[trigger] is_chosen(records, i) && #[trigger] is_chosen(records, j) ==> i == j,
        records.len() > 0 ==> exists|i: int| #[trigger] is_chosen(records, i),
    decreases records.len(),
{
    assert forall|i: int, j: int|
        #[trigger] is_chosen(records, i) && #[trigger] is_chosen(records, j) implies i == j by {
        if i < j {
            assert(goes_before(records[j], records[i]));
        } else if j < i {
            assert(goes_before(records[i], records[j]));
        }
    }
    if records.len() > 0 {
        let before = records.drop_last();
        exactly_one_record_is_chosen(before);
        if before.len() == 0 {
            assert(is_chosen(records, 0));
        } else {
            let b = choose|i: int| #[trigger] is_chosen(before, i);
            let last = records.len() - 1;
            assert(forall|j: int| 0 <= j < last ==> records[j] == before[j]);
            if goes_before(records[last], records[b]) {
                assert forall|j: int| 0 <= j < records.len() implies !goes_before(
                    #[trigger] records[j],
                    records[last],
                ) by {
                    if j < last {
                        assert(!goes_before(before[j], before[b]));
                    }
                }
                assert forall|j: int| 0 <= j < last implies goes_before(
                    records[last],
                    #[trigger] records[j],
                ) by {
                    assert(!goes_before(before[j], before[b]));
                }
                assert(is_chosen(records, last));
            } else {
                assert forall|j: int| 0 <= j < records.len() implies !goes_before(
                    #[trigger] records[j],
                    records[b],
                ) by {
                    if j < last {
                        assert(!goes_before(before[j], before[b]));
                    }
                }
                assert forall|j: int| 0 <= j < b implies goes_before(
                    records[b],
                    #[trigger] records[j],
                ) by {
                    assert(goes_before(before[b], before[j]));
                }
                assert(is_chosen(records, b));
            }
        }
    }
}

proof fn lemma_encoded_labels_at(packet: Seq<u8>, labels: Seq<Seq<char>>, start: int, n: int)
    requires
        labels_fit(labels),
        forall|i: int| 0 <= i < labels.len() ==> encode_utf8(#[trigger] labels[i]).len() > 0,
        0 <= start,
        0 <= n <= labels.len(),
        start + encode_labels(labels).len() < packet.len(),
        packet.subrange(start, start + encode_labels(labels).len()) == encode_labels(labels),
        packet[start + encode_labels(labels).len()] == 0,
    ensures
        encode_labels(labels.take(n)).len() <= encode_labels(labels).len(),
        name_at(packet, start + encode_labels(labels.take(n)).len(), 0) == Ok::<
            (Seq<Seq<u8>>, int),
            DnsError<Seq<char>>,
        >(
            (
                labels.skip(n).map_values(|label: Seq<char>| encode_utf8(label)),
                start + encode_labels(labels).len() + 1,
            ),
        ),
    decreases labels.len() - n,
{
    let whole = encode_labels(labels);
    if n == labels.len() {
        assert(labels.take(n) =~= labels);
        assert(labels.skip(n).map_values(|label: Seq<char>| encode_utf8(label)) =~= Seq::<
            Seq<u8>,
        >::empty());
    } else {
        lemma_encoded_labels_at(packet, labels, start, n + 1);
        let bytes = encode_utf8(labels[n]);
        let here = encode_labels(labels.take(n));
        let next = encode_labels(labels.take(n + 1));
        assert(labels.take(n + 1).drop_last() =~= labels.take(n));
        assert(labels.take(n + 1).last() == labels[n]);
        assert(next == here.push(bytes.len() as u8) + bytes);
        lemma_prefix(labels, n + 1);
        assert(whole.subrange(0, next.len() as int) == next);
        let at = start + here.len();
        assert(packet.subrange(start, start + whole.len())[here.len() as int] == whole[here.len() as int]);
        assert(whole.subrange(0, next.len() as int)[here.len() as int] == next[here.len() as int]);
        assert(packet[at] == bytes.len() as u8);
        assert(packet.subrange(at + 1, at + 1 + bytes.len()) =~= bytes) by {
            assert forall|k: int| 0 <= k < bytes.len() implies packet[at + 1 + k] == bytes[k] by {
                let p = here.len() + 1 + k;
                assert(packet.subrange(start, start + whole.len())[p] == whole[p]);
                assert(whole.subrange(0, next.len() as int)[p] == next[p]);
                assert(next[p] == bytes[k]);
            }
        }
        let rest = labels.skip(n + 1).map_values(|label: Seq<char>| encode_utf8(label));
        assert(seq![bytes] + rest =~= labels.skip(n).map_values(
            |label: Seq<char>| encode_utf8(label),
        ));
    }
}

proof fn lemma_prefix(labels: Seq<Seq<char>>, n: int)
    requires
        0 <= n <= labels.len(),
    ensures
        encode_labels(labels.take(n)).len() <= encode_labels(labels).len(),
        encode_labels(labels).subrange(0, encode_labels(labels.take(n)).len() as int)
            == encode_labels(labels.take(n)),
    decreases labels.len() - n,
{
    let here = encode_labels(labels.take(n));
    if n == labels.len() {
        assert(labels.take(n) =~= labels);
        assert(here.subrange(0, here.len() as int) =~= here);
    } else {
        lemma_prefix(labels, n + 1);
        assert(labels.take(n + 1).drop_last() =~= labels.take(n));
        let next = encode_labels(labels.take(n + 1));
        let whole = encode_labels(labels);
        assert(next.subrange(0, here.len() as int) =~= here);
        assert(whole.subrange(0, here.len() as int) =~= whole.subrange(
            0,
            next.len() as int,
        ).subrange(0, here.len() as int));
    }
}

/// The question of a query is the name that it was built for: reading the name
/// behind the header gives the bytes of its labels and its text back, without
/// the dots at its end, and leaves the type and the class, which end the packet.
/// A name with an empty label is left out, for an empty label ends a name.
pub proof fn query_asks_for_its_name(query_id: u16, name: Seq<char>)
    requires
        labels_fit(labels_of(name)),
        forall|i: int| 0 <= i < labels_of(name).len() ==> encode_utf8(#[trigger] labels_of(name)[i]).len() > 0,
    ensures
        srv_query(query_id, name) matches Ok(packet) && (name_at(packet, 12, 0) matches Ok((labels, next))
            && labels == labels_of(name).map_values(|label: Seq<char>| encode_utf8(label))
            && next == packet.len() - 4
            && u16_at(packet, next) == Ok::<u16, DnsError<Seq<char>>>(33)
            && u16_at(packet, next + 2) == Ok::<u16, DnsError<Seq<char>>>(1)),
        srv_query(query_id, name) matches Ok(packet) && named(packet, 12) == Ok::<
            (Seq<char>, int),
            DnsError<Seq<char>>,
        >((without_final_dots(name), packet.len() - 4)),
{
    let labels = labels_of(name);
    let body = encode_labels(labels);
    let packet = query_header(query_id) + body + seq![0u8] + be16(33) + be16(1);
    assert(query_header(query_id).len() == 12);
    let end: int = 12 + body.len() as int;
    assert(packet.subrange(12, end) =~= body);
    assert(packet[end] == 0);
    lemma_encoded_labels_at(packet, labels, 12, 0);
    assert(labels.take(0) =~= Seq::<Seq<char>>::empty());
    assert(labels.skip(0) =~= labels);
    let next = end + 1;
    assert(packet[next] == 0 && packet[next + 1] == 33);
    assert(packet[next + 2] == 0 && packet[next + 3] == 1);
    let encoded = labels.map_values(|label: Seq<char>| encode_utf8(label));
    let decoded = encoded.map_values(|label: Seq<u8>| lossy_text(label));
    assert forall|i: int| 0 <= i < labels.len() implies #[trigger] decoded[i] == labels[i] by {
        encoded_text_is_read_back(labels[i]);
    }
    assert(decoded =~= labels);
    reveal_strlit(".");
    assert("."@ =~= seq!['.']);
    joined_pieces_are_the_whole(without_final_dots(name), '.');
}

/// A name of labels that fit, none of them empty or with a dot inside, is read
/// back from its query as it was, up to the four bytes at the end of the packet.
pub proof fn names_are_read_back(query_id: u16, labels: Seq<Seq<char>>)
    requires
        labels.len() > 0,
        forall|i: int|
            0 <= i < labels.len() ==> 1 <= encode_utf8(#[trigger] labels[i]).len() <= 63 && lacks(
                labels[i],
                '.',
            ),
    ensures
        srv_query(query_id, join(labels, "."@)) matches Ok(packet) && named(packet, 12) == Ok::<
            (Seq<char>, int),
            DnsError<Seq<char>>,
        >((join(labels, "."@), packet.len() - 4)),
{
    let name = join(labels, "."@);
    reveal_strlit(".");
    assert("."@ =~= seq!['.']);
    joined_parts_are_found_again(labels, '.');
    let last = labels.last();
    assert(last == labels[labels.len() - 1]);
    assert(last.len() > 0) by {
        if last.len() == 0 {
            assert(last =~= Seq::<char>::empty());
            assert(encode_utf8(last).len() == 0);
        }
    }
    assert(name.len() > 0 && name.last() == last.last());
    assert(without_final_dots(name) == name);
    query_asks_for_its_name(query_id, name);
}

// ---------------------------------------------------------------------------
// What holds of answers
// ---------------------------------------------------------------------------

/// A service record as a name server writes it down: the name that it belongs to, how
/// long it holds, and where the service is.
#[verifier::ext_equal]
pub struct WrittenRecord {
    pub owner: Seq<Seq<char>>,
    pub time_to_live: Seq<u8>,
    pub priority: u16,
    pub weight: u16,
    pub port: u16,
    pub target: Seq<Seq<char>>,
}

/// Whether each label can be written down and is not empty.
pub open spec fn can_be_written(labels: Seq<Seq<char>>) -> bool {
    forall|i: int| 0 <= i < labels.len() ==> 1 <= encode_utf8(#[trigger] labels[i]).len() <= 63 && lacks(labels[i], '.')
}

impl WrittenRecord {
    /// Whether the record can be written down.
    pub open spec fn is_valid(self) -> bool {
        &&& can_be_written(self.owner)
        &&& can_be_written(self.target)
        &&& self.target.len() > 0
        &&& self.time_to_live.len() == 4
        &&& 7 + encode_labels(self.target).len() <= u16::MAX
    }

    /// The data of the record.
    pub open spec fn data(self) -> Seq<u8> {
        be16(self.priority) + be16(self.weight) + be16(self.port) + encode_labels(self.target) + seq![0u8]
    }

    /// The record in bytes.
    pub open spec fn bytes(self) -> Seq<u8> {
        encode_labels(self.owner) + seq![0u8] + be16(33) + be16(1) + self.time_to_live + be16(self.data().len() as u16)
            + self.data()
    }

    /// What the record says.
    pub open spec fn meaning(self) -> SrvRecord<Seq<char>> {
        SrvRecord {
            priority: self.priority,
            weight: self.weight,
            port: self.port,
            target: join(self.target, "."@),
        }
    }
}

/// Records in bytes, one behind the other.
pub open spec fn written(records: Seq<WrittenRecord>) -> Seq<u8>
    decreases records.len(),
{
    if records.len() == 0 {
        Seq::empty()
    } else {
        records[0].bytes() + written(records.skip(1))
    }
}

/// Whether `bytes` stand in the packet at `offset`.
pub open spec fn stand_at(packet: Seq<u8>, offset: int, bytes: Seq<u8>) -> bool {
    &&& 0 <= offset
    &&& offset + bytes.len() <= packet.len()
    &&& packet.subrange(offset, offset + bytes.len()) == bytes
}

proof fn lemma_part_stands(packet: Seq<u8>, offset: int, before: Seq<u8>, part: Seq<u8>, after: Seq<u8>)
    requires
        stand_at(packet, offset, before + part + after),
    ensures
        stand_at(packet, offset + before.len(), part),
{
    let whole = before + part + after;
    assert forall|i: int| 0 <= i < part.len() implies packet[offset + before.len() + i] == part[i] by {
        assert(packet.subrange(offset, offset + whole.len())[before.len() + i] == whole[before.len() + i]);
    }
    assert(packet.subrange(offset + before.len(), offset + before.len() + part.len()) =~= part);
}

proof fn lemma_number_stands(packet: Seq<u8>, offset: int, n: u16)
    requires
        stand_at(packet, offset, be16(n)),
    ensures
        u16_at(packet, offset) == Ok::<u16, DnsError<Seq<char>>>(n),
{
    assert(packet.subrange(offset, offset + 2)[0] == be16(n)[0]);
    assert(packet.subrange(offset, offset + 2)[1] == be16(n)[1]);
}

proof fn lemma_name_stands(packet: Seq<u8>, offset: int, labels: Seq<Seq<char>>)
    requires
        can_be_written(labels),
        stand_at(packet, offset, encode_labels(labels) + seq![0u8]),
    ensures
        name_at(packet, offset, 0) matches Ok((read, next)) && next == offset + encode_labels(labels).len() + 1,
        named(packet, offset) == Ok::<(Seq<char>, int), DnsError<Seq<char>>>(
            (join(labels, "."@), offset + encode_labels(labels).len() + 1),
        ),
{
    let body = encode_labels(labels);
    let none = Seq::<u8>::empty();
    assert(none + body + seq![0u8] =~= body + seq![0u8]);
    lemma_part_stands(packet, offset, none, body, seq![0u8]);
    assert(packet.subrange(offset, offset + body.len() + 1)[body.len() as int] == (body + seq![0u8])[body.len() as int]);
    lemma_encoded_labels_at(packet, labels, offset, 0);
    assert(labels.take(0) =~= Seq::<Seq<char>>::empty());
    assert(labels.skip(0) =~= labels);
    let encoded = labels.map_values(|label: Seq<char>| encode_utf8(label));
    let decoded = encoded.map_values(|label: Seq<u8>| lossy_text(label));
    assert forall|i: int| 0 <= i < labels.len() implies #[trigger] decoded[i] == labels[i] by {
        encoded_text_is_read_back(labels[i]);
    }
    assert(decoded =~= labels);
}

proof fn lemma_no_final_dots(labels: Seq<Seq<char>>)
    requires
        can_be_written(labels),
        labels.len() > 0,
    ensures
        without_final_dots(join(labels, "."@)) == join(labels, "."@),
{
    let last = labels.last();
    assert(last == labels[labels.len() - 1]);
    if last.len() == 0 {
        assert(last =~= Seq::<char>::empty());
        assert(encode_utf8(last).len() == 0);
    }
    assert(join(labels, "."@).last() == last.last());
}

proof fn lemma_record_is_read(packet: Seq<u8>, offset: int, record: WrittenRecord)
    requires
        record.is_valid(),
        stand_at(packet, offset, record.bytes()),
    ensures
        ({
            let next = offset + encode_labels(record.owner).len() + 1;
            let length = record.data().len();
            &&& name_at(packet, offset, 0) matches Ok((read, end))
            &&& end == next
            &&& record_head(packet, next) == Ok::<(u16, u16, u16), DnsError<Seq<char>>>((33, 1, length as u16))
            &&& service_record(packet, next + 10) == Ok::<SrvRecord<Seq<char>>, DnsError<Seq<char>>>(record.meaning())
            &&& next + 10 + length == offset + record.bytes().len()
            &&& is_service(33, 1, length as u16)
            &&& length <= u16::MAX
        }),
{
    let owner = encode_labels(record.owner) + seq![0u8];
    let kind = be16(33);
    let class = be16(1);
    let live = record.time_to_live;
    let data = record.data();
    let length = be16(data.len() as u16);
    let target = encode_labels(record.target) + seq![0u8];
    let none = Seq::<u8>::empty();
    let whole = record.bytes();
    let next = offset + owner.len();
    assert(whole =~= none + owner + (kind + class + live + length + data));
    lemma_part_stands(packet, offset, none, owner, kind + class + live + length + data);
    assert(whole =~= owner + kind + (class + live + length + data));
    lemma_part_stands(packet, offset, owner, kind, class + live + length + data);
    assert(whole =~= (owner + kind) + class + (live + length + data));
    lemma_part_stands(packet, offset, owner + kind, class, live + length + data);
    assert(whole =~= (owner + kind + class + live) + length + data);
    lemma_part_stands(packet, offset, owner + kind + class + live, length, data);
    let head = owner + kind + class + live + length;
    assert(head.len() == owner.len() + 10);
    assert(whole =~= head + be16(record.priority) + (be16(record.weight) + be16(record.port) + target));
    lemma_part_stands(packet, offset, head, be16(record.priority), be16(record.weight) + be16(record.port) + target);
    assert(whole =~= (head + be16(record.priority)) + be16(record.weight) + (be16(record.port) + target));
    lemma_part_stands(packet, offset, head + be16(record.priority), be16(record.weight), be16(record.port) + target);
    assert(whole =~= (head + be16(record.priority) + be16(record.weight)) + be16(record.port) + target);
    lemma_part_stands(packet, offset, head + be16(record.priority) + be16(record.weight), be16(record.port), target);
    assert(whole =~= (head + be16(record.priority) + be16(record.weight) + be16(record.port)) + target + none);
    lemma_part_stands(
        packet,
        offset,
        head + be16(record.priority) + be16(record.weight) + be16(record.port),
        target,
        none,
    );
    lemma_name_stands(packet, offset, record.owner);
    lemma_number_stands(packet, next, 33);
    lemma_number_stands(packet, next + 2, 1);
    lemma_number_stands(packet, next + 8, data.len() as u16);
    lemma_number_stands(packet, next + 10, record.priority);
    lemma_number_stands(packet, next + 12, record.weight);
    lemma_number_stands(packet, next + 14, record.port);
    lemma_name_stands(packet, next + 16, record.target);
    lemma_no_final_dots(record.target);
}

/// Service records that stand in a response are read as they were written, in their
/// order.
pub proof fn service_records_are_read_back(packet: Seq<u8>, offset: int, records: Seq<WrittenRecord>)
    requires
        forall|i: int| 0 <= i < records.len() ==> (#[trigger] records[i]).is_valid(),
        stand_at(packet, offset, written(records)),
    ensures
        service_records(packet, offset, records.len()) == Ok::<Seq<SrvRecord<Seq<char>>>, DnsError<Seq<char>>>(
            records.map_values(|record: WrittenRecord| record.meaning()),
        ),
    decreases records.len(),
{
    let meanings = records.map_values(|record: WrittenRecord| record.meaning());
    if records.len() == 0 {
        assert(meanings =~= Seq::<SrvRecord<Seq<char>>>::empty());
    } else {
        let first = records[0];
        let rest = records.skip(1);
        let none = Seq::<u8>::empty();
        assert(written(records) =~= none + first.bytes() + written(rest));
        lemma_part_stands(packet, offset, none, first.bytes(), written(rest));
        assert(written(records) =~= first.bytes() + written(rest) + none);
        lemma_part_stands(packet, offset, first.bytes(), written(rest), none);
        lemma_record_is_read(packet, offset, first);
        assert forall|i: int| 0 <= i < rest.len() implies (#[trigger] rest[i]).is_valid() by {
            assert(rest[i] == records[i + 1]);
        }
        service_records_are_read_back(packet, offset + first.bytes().len(), rest);
        let others = rest.map_values(|record: WrittenRecord| record.meaning());
        assert(seq![first.meaning()] + others =~= meanings);
    }
}

/// A response in bytes: its number, its flags, one question, and its answers.
pub open spec fn response_bytes(
    query_id: u16,
    flags: Seq<u8>,
    sections: Seq<u8>,
    question: Seq<Seq<char>>,
    records: Seq<WrittenRecord>,
    extra: Seq<u8>,
) -> Seq<u8> {
    be16(query_id) + flags + be16(1) + be16(records.len() as u16) + sections + encode_labels(question) + seq![0u8]
        + be16(33) + be16(1) + written(records) + extra
}

#[verifier::spinoff_prover]
#[verifier::rlimit(60)]
proof fn lemma_response_parts(
    query_id: u16,
    flags: Seq<u8>,
    sections: Seq<u8>,
    question: Seq<Seq<char>>,
    records: Seq<WrittenRecord>,
    extra: Seq<u8>,
)
    requires
        flags.len() == 2,
        sections.len() == 4,
    ensures
        ({
            let packet = response_bytes(query_id, flags, sections, question, records, extra);
            let name = encode_labels(question) + seq![0u8];
            &&& stand_at(packet, 0, be16(query_id))
            &&& stand_at(packet, 4, be16(1))
            &&& stand_at(packet, 6, be16(records.len() as u16))
            &&& stand_at(packet, 12, name)
            &&& stand_at(packet, 12 + name.len() as int + 4, written(records))
            &&& packet.len() >= 12 + name.len() + 4
        }),
{
    let packet = response_bytes(query_id, flags, sections, question, records, extra);
    let none = Seq::<u8>::empty();
    let id = be16(query_id);
    let count = be16(records.len() as u16);
    let name = encode_labels(question) + seq![0u8];
    let answers = written(records);
    let tail = be16(33) + be16(1);
    assert(packet.subrange(0, packet.len() as int) =~= packet);
    assert(stand_at(packet, 0, packet));
    assert(packet =~= none + id + (flags + be16(1) + count + sections + name + tail + answers + extra));
    lemma_part_stands(packet, 0, none, id, flags + be16(1) + count + sections + name + tail + answers + extra);
    assert(packet =~= (id + flags) + be16(1) + (count + sections + name + tail + answers + extra));
    lemma_part_stands(packet, 0, id + flags, be16(1), count + sections + name + tail + answers + extra);
    assert(packet =~= (id + flags + be16(1)) + count + (sections + name + tail + answers + extra));
    lemma_part_stands(packet, 0, id + flags + be16(1), count, sections + name + tail + answers + extra);
    let head = id + flags + be16(1) + count + sections;
    assert(head.len() == 12);
    assert(packet =~= head + name + (tail + answers + extra));
    lemma_part_stands(packet, 0, head, name, tail + answers + extra);
    assert(packet =~= (head + name + tail) + answers + extra);
    lemma_part_stands(packet, 0, head + name + tail, answers, extra);
}

/// A response to the query gives the service records that it was made of, whatever its
/// flags are and whatever stands behind them. One of another number gives none.
#[verifier::spinoff_prover]
pub proof fn responses_are_read_back(
    query_id: u16,
    other_id: u16,
    flags: Seq<u8>,
    sections: Seq<u8>,
    question: Seq<Seq<char>>,
    records: Seq<WrittenRecord>,
    extra: Seq<u8>,
)
    requires
        flags.len() == 2,
        sections.len() == 4,
        can_be_written(question),
        records.len() <= u16::MAX,
        forall|i: int| 0 <= i < records.len() ==> (#[trigger] records[i]).is_valid(),
    ensures
        ({
            let packet = response_bytes(query_id, flags, sections, question, records, extra);
            &&& response_records(query_id, packet) == Ok::<Seq<SrvRecord<Seq<char>>>, DnsError<Seq<char>>>(
                records.map_values(|record: WrittenRecord| record.meaning()),
            )
            &&& other_id != query_id ==> response_records(other_id, packet) == Err::<
                Seq<SrvRecord<Seq<char>>>,
                DnsError<Seq<char>>,
            >(DnsError::IdMismatch)
        }),
{
    let packet = response_bytes(query_id, flags, sections, question, records, extra);
    let name = encode_labels(question) + seq![0u8];
    lemma_response_parts(query_id, flags, sections, question, records, extra);
    lemma_number_stands(packet, 0, query_id);
    lemma_number_stands(packet, 4, 1);
    lemma_number_stands(packet, 6, records.len() as u16);
    lemma_name_stands(packet, 12, question);
    let after = 12 + name.len() as int + 4;
    assert(after_questions(packet, after, 0) == Ok::<int, DnsError<Seq<char>>>(after));
    assert(after_questions(packet, 12, 1) == Ok::<int, DnsError<Seq<char>>>(after));
    service_records_are_read_back(packet, after, records);
}

/// The record to ask is one of those that were read, of the least priority, and of the
/// greatest weight among those of its priority; of equals it is the first.
pub proof fn best_record_is_chosen(records: Seq<SrvRecord<Seq<char>>>, at: int)
    requires
        is_chosen(records, at),
    ensures
        is_choice(records, records[at]),
        forall|j: int|
            0 <= j < records.len() ==> records[at].priority <= (#[trigger] records[j]).priority && (
            records[at].priority == records[j].priority ==> records[at].weight >= records[j].weight),
        forall|j: int|
            0 <= j < at ==> !((#[trigger] records[j]).priority == records[at].priority && records[j].weight
                == records[at].weight),
{
    assert forall|j: int| 0 <= j < records.len() implies records[at].priority <= (#[trigger] records[j]).priority && (
    records[at].priority == records[j].priority ==> records[at].weight >= records[j].weight) by {
        assert(!goes_before(records[j], records[at]));
    }
    assert forall|j: int| 0 <= j < at implies !((#[trigger] records[j]).priority == records[at].priority
        && records[j].weight == records[at].weight) by {
        assert(goes_before(records[at], records[j]));
    }
}

/// A name may point to another place of the packet, where its rest is read; what follows
/// it stands behind the pointer. A name that points on and on is refused.
pub proof fn pointers_are_followed(packet: Seq<u8>, offset: int, target: int)
    requires
        0 <= offset,
        offset + 1 < packet.len(),
        0 <= target < 16_384,
        packet[offset] == 192 + target / 256,
        packet[offset + 1] == target % 256,
    ensures
        match name_at(packet, target, 1) {
            Ok((labels, _)) => name_at(packet, offset, 0) == Ok::<(Seq<Seq<u8>>, int), DnsError<Seq<char>>>(
                (labels, offset + 2),
            ),
            Err(error) => name_at(packet, offset, 0) == Err::<(Seq<Seq<u8>>, int), DnsError<Seq<char>>>(error),
        },
        name_at(packet, offset, 8) == Err::<(Seq<Seq<u8>>, int), DnsError<Seq<char>>>(
            DnsError::PointerLoop,
        ),
{
    assert((target / 256) * 256 + target % 256 == target) by (nonlinear_arith);
}

/// Only records of the service type and of the Internet class, with room for a target,
/// count; any other record is passed over by its length.
pub proof fn other_records_are_passed_over(packet: Seq<u8>, offset: int, count: nat, next: int, head: (u16, u16, u16))
    requires
        count > 0,
        name_at(packet, offset, 0) matches Ok((labels, end)) && end == next,
        record_head(packet, next) == Ok::<(u16, u16, u16), DnsError<Seq<char>>>(head),
    ensures
        head.0 != 33 || head.1 != 1 || head.2 < 7 ==> service_records(packet, offset, count) == service_records(
            packet,
            next + 10 + head.2,
            (count - 1) as nat,
        ),
        is_service(head.0, head.1, head.2) <==> head.0 == 33 && head.1 == 1 && head.2 >= 7,
{
}

/// A name breaks off where the packet does: where it is not ended, where a label or a
/// pointer is cut, and where a length is none.
pub proof fn broken_names_are_refused(packet: Seq<u8>, offset: int, jumps: nat)
    requires
        0 <= offset,
    ensures
        offset >= packet.len() ==> name_at(packet, offset, jumps) == Err::<(Seq<Seq<u8>>, int), DnsError<Seq<char>>>(
            DnsError::NameTruncated,
        ),
        offset < packet.len() ==> {
            let length = packet[offset];
            &&& length == 0 ==> name_at(packet, offset, jumps) == Ok::<(Seq<Seq<u8>>, int), DnsError<Seq<char>>>(
                (Seq::empty(), offset + 1),
            )
            &&& 64 <= length < 192 ==> name_at(packet, offset, jumps) == Err::<(Seq<Seq<u8>>, int), DnsError<Seq<char>>>(
                DnsError::ReservedBits,
            )
            &&& 0 < length < 64 && offset + 1 + length > packet.len() ==> name_at(packet, offset, jumps) == Err::<
                (Seq<Seq<u8>>, int),
                DnsError<Seq<char>>,
            >(DnsError::LabelTruncated)
            &&& length >= 192 && offset + 1 >= packet.len() ==> name_at(packet, offset, jumps) == Err::<
                (Seq<Seq<u8>>, int),
                DnsError<Seq<char>>,
            >(DnsError::PointerTruncated)
        },
{
}

/// A response that is too short for its header, or of another number, is refused.
pub proof fn other_responses_are_refused(query_id: u16, packet: Seq<u8>)
    ensures
        packet.len() < 12 ==> response_records(query_id, packet) == Err::<
            Seq<SrvRecord<Seq<char>>>,
            DnsError<Seq<char>>,
        >(DnsError::ResponseTooShort),
        packet.len() >= 12 && packet[0] * 256 + packet[1] != query_id ==> response_records(query_id, packet) == Err::<
            Seq<SrvRecord<Seq<char>>>,
            DnsError<Seq<char>>,
        >(DnsError::IdMismatch),
{
}

} // verus!
