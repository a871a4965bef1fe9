//! The file of persisted events: whether it may stay as it is.

use vstd::prelude::*;
use vstd::utf8::encode_utf8;
use crate::json::{json_document, opt_json, Json, JsonTree};
use crate::run_history::{redacted_context, RunContext};
use crate::text;
use crate::text::{decimal, opt_text, trim};

verus! {

/// The name of the event file.
pub const EVENT_FILE: &'static str = "events.jsonl";

/// What became of an event file; the text names the file it was moved to.
#[verifier::ext_equal]
#[derive(Clone, Debug, PartialEq, Eq)]
pub enum EventFileMaintenance<T = String> {
    RotatedUnredacted(T),
    QuarantinedCorrupt(T),
}

impl View for EventFileMaintenance<String> {
    type V = EventFileMaintenance<Seq<char>>;

    open spec fn view(&self) -> EventFileMaintenance<Seq<char>> {
        match *self {
            EventFileMaintenance::RotatedUnredacted(path) => EventFileMaintenance::RotatedUnredacted(
                path@,
            ),
            EventFileMaintenance::QuarantinedCorrupt(path) => EventFileMaintenance::QuarantinedCorrupt(
                path@,
            ),
        }
    }
}

/// What an event file holds.
#[derive(Clone, Copy, Debug, PartialEq, Eq, Structural)]
pub enum EventFileInspection {
    Redacted,
    Unredacted,
    Corrupt,
}

/// Whether a member is there and not null.
pub open spec fn is_told(member: Option<JsonTree>) -> bool {
    member is Some && member != Some(JsonTree::Null)
}

/// Whether the context of an event names the user or the place; nothing where
/// the document is no event.
pub open spec fn appears_unredacted(event: JsonTree) -> Option<bool> {
    match event.member("context"@) {
        None => None,
        Some(context) => match (
            context.text_member("guild_name"@),
            context.text_member("channel_id"@),
            context.text_member("user_id"@),
            context.text_member("user_name"@),
        ) {
            (Some(guild_name), Some(channel_id), Some(user_id), Some(user_name)) => Some(
                is_told(context.member("guild_id"@)) || guild_name != "redacted"@ || channel_id
                    != "redacted"@ || is_told(context.member("channel_name"@)) || user_id
                    != "redacted"@ || user_name != "redacted"@,
            ),
            _ => None,
        },
    }
}

fn told(member: &Option<Json>) -> (r: bool)
    ensures
        r == is_told(opt_json(*member)),
{
    match member {
        Some(value) => !value.is_null(),
        None => false,
    }
}

fn is_redacted(value: &str) -> (r: bool)
    ensures
        r == (value@ == "redacted"@),
{
    text::same(value, "redacted")
}

/// Whether the context of an event names the user or the place; nothing where
/// the document is no event.
pub fn event_json_appears_unredacted(event: &Json) -> (r: Option<bool>)
    ensures
        r == appears_unredacted(event@),
{
    match event.get("context") {
        None => None,
        Some(context) => match (
            context.text_of("guild_name"),
            context.text_of("channel_id"),
            context.text_of("user_id"),
            context.text_of("user_name"),
        ) {
            (Some(guild_name), Some(channel_id), Some(user_id), Some(user_name)) => Some(
                told(&context.get("guild_id")) || !is_redacted(guild_name.as_str()) || !is_redacted(
                    channel_id.as_str(),
                ) || told(&context.get("channel_name")) || !is_redacted(user_id.as_str())
                    || !is_redacted(user_name.as_str()),
            ),
            _ => None,
        },
    }
}

/// What one line of an event file is.
#[derive(Clone, Copy, Debug, PartialEq, Eq, Structural)]
pub enum LineKind {
    /// Blank, or an event without user and place.
    Harmless,
    /// Not an event.
    Damaged,
    /// An event that names the user or the place.
    Unredacted,
    /// Not text, or not to be read.
    Unreadable,
}

/// What a document on a line amounts to.
pub open spec fn document_kind(document: Option<JsonTree>) -> LineKind {
    match document {
        None => LineKind::Damaged,
        Some(event) => match appears_unredacted(event) {
            Some(true) => LineKind::Unredacted,
            Some(false) => LineKind::Harmless,
            None => LineKind::Damaged,
        },
    }
}

/// What one line of an event file is.
pub open spec fn line_kind(line: Option<Seq<char>>) -> LineKind {
    match line {
        None => LineKind::Unreadable,
        Some(line) => if trim(line).len() == 0 {
            LineKind::Harmless
        } else {
            document_kind(json_document(encode_utf8(line)))
        },
    }
}

/// What a document on a line amounts to.
pub fn classify_document(document: &Option<Json>) -> (r: LineKind)
    ensures
        r == document_kind(opt_json(*document)),
{
    match document {
        None => LineKind::Damaged,
        Some(event) => match event_json_appears_unredacted(event) {
            Some(true) => LineKind::Unredacted,
            Some(false) => LineKind::Harmless,
            None => LineKind::Damaged,
        },
    }
}

/// What one line of an event file is.
pub fn classify_line(line: &Option<String>) -> (r: LineKind)
    ensures
        r == line_kind(opt_text(*line)),
{
    match line {
        None => LineKind::Unreadable,
        Some(line) => {
            let bare = text::trimmed(line.as_str());
            if bare.as_str().is_empty() {
                return LineKind::Harmless;
            }
            classify_document(&Json::parse(line.as_str().as_bytes()))
        },
    }
}

/// The views of the lines of a file.
pub open spec fn line_texts(lines: Seq<Option<String>>) -> Seq<Option<Seq<char>>> {
    lines.map_values(|line: Option<String>| opt_text(line))
}

/// Whether a line decides about its file whatever follows it.
pub open spec fn is_decisive(kind: LineKind) -> bool {
    kind == LineKind::Unredacted || kind == LineKind::Unreadable
}

/// What a file with these lines is: the first decisive line decides; without
/// one, a single damaged line makes the file corrupt.
pub open spec fn inspection(kinds: Seq<LineKind>, damaged: bool) -> EventFileInspection
    decreases kinds.len(),
{
    if kinds.len() == 0 {
        if damaged {
            EventFileInspection::Corrupt
        } else {
            EventFileInspection::Redacted
        }
    } else if kinds[0] == LineKind::Unredacted {
        EventFileInspection::Unredacted
    } else if kinds[0] == LineKind::Unreadable {
        EventFileInspection::Corrupt
    } else {
        inspection(kinds.skip(1), damaged || kinds[0] == LineKind::Damaged)
    }
}

/// The kinds of the lines of a file.
pub open spec fn kinds(lines: Seq<Option<Seq<char>>>) -> Seq<LineKind> {
    lines.map_values(|line: Option<Seq<char>>| line_kind(line))
}

/// What a file is, given its lines; nothing in place of the lines of a file
/// that could not be opened, nor in place of a line that could not be read.
pub open spec fn file_inspection(lines: Option<Seq<Option<Seq<char>>>>) -> EventFileInspection {
    match lines {
        None => EventFileInspection::Corrupt,
        Some(lines) => inspection(kinds(lines), false),
    }
}

/// The view of the lines of a file that may not have been opened.
pub open spec fn opt_lines(lines: Option<Vec<Option<String>>>) -> Option<Seq<Option<Seq<char>>>> {
    match lines {
        Some(lines) => Some(line_texts(lines@)),
        None => None,
    }
}

/// What an event file holds.
pub fn inspect_event_file(lines: &Option<Vec<Option<String>>>) -> (r: EventFileInspection)
    ensures
        r == file_inspection(opt_lines(*lines)),
{
    match lines {
        Some(lines) => inspect_lines(lines),
        None => EventFileInspection::Corrupt,
    }
}

fn inspect_lines(lines: &Vec<Option<String>>) -> (r: EventFileInspection)
    ensures
        r == inspection(kinds(line_texts(lines@)), false),
{
    let ghost all = kinds(line_texts(lines@));
    let mut damaged = false;
    let mut i: usize = 0;
    proof {
        assert(all.skip(0) =~= all);
    }
    while i < lines.len()
        invariant
            i <= lines@.len(),
            all == kinds(line_texts(lines@)),
            inspection(all, false) == inspection(all.skip(i as int), damaged),
        decreases lines@.len() - i,
    {
        let kind = classify_line(&lines[i]);
        proof {
            assert(all.skip(i as int)[0] == kind);
            assert(all.skip(i as int).skip(1) =~= all.skip(i + 1));
        }
        match kind {
            LineKind::Unredacted => {
                return EventFileInspection::Unredacted;
            },
            LineKind::Unreadable => {
                return EventFileInspection::Corrupt;
            },
            LineKind::Damaged => {
                damaged = true;
            },
            LineKind::Harmless => {},
        }
        i += 1;
    }
    if damaged {
        EventFileInspection::Corrupt
    } else {
        EventFileInspection::Redacted
    }
}

/// The name of a backup; it bears the time where the plain name is taken.
pub open spec fn backup_name(what: Seq<char>, taken: bool, now_ms: nat) -> Seq<char> {
    if taken {
        "events."@ + what + ".backup."@ + decimal(now_ms) + ".jsonl"@
    } else {
        "events."@ + what + ".backup.jsonl"@
    }
}

/// The name of a backup; it bears the time where the plain name is taken.
pub fn backup_event_path(what: &str, taken: bool, now_ms: u128) -> (r: String)
    ensures
        r@ == backup_name(what@, taken, now_ms as nat),
{
    if taken {
        text::cat5(
            "events.",
            what,
            ".backup.",
            text::decimal_u128(now_ms).as_str(),
            ".jsonl",
        )
    } else {
        text::cat3("events.", what, ".backup.jsonl")
    }
}

/// What is known of an event file before it is maintained.
pub struct EventFile {
    /// Its lines, each as far as it could be read; nothing where the file could
    /// not be opened.
    pub lines: Option<Vec<Option<String>>>,
    /// Whether the plain name of the backup of an unredacted file is taken.
    pub unredacted_backup_taken: bool,
    /// Whether the plain name of the backup of a corrupt file is taken.
    pub corrupt_backup_taken: bool,
}

/// The view of an optional maintenance.
pub open spec fn opt_maintenance(value: Option<EventFileMaintenance>) -> Option<EventFileMaintenance<Seq<char>>> {
    match value {
        Some(maintenance) => Some(maintenance@),
        None => None,
    }
}

/// How an event file is moved out of the way, where it must be.
pub open spec fn maintenance_of(file: EventFile, now_ms: nat) -> Option<EventFileMaintenance<Seq<char>>> {
    match file_inspection(opt_lines(file.lines)) {
        EventFileInspection::Redacted => None,
        EventFileInspection::Unredacted => Some(
            EventFileMaintenance::RotatedUnredacted(
                backup_name("unredacted"@, file.unredacted_backup_taken, now_ms),
            ),
        ),
        EventFileInspection::Corrupt => Some(
            EventFileMaintenance::QuarantinedCorrupt(
                backup_name("corrupt"@, file.corrupt_backup_taken, now_ms),
            ),
        ),
    }
}

/// How the event file is moved out of the way, where there is one that must be.
pub fn maintain_event_file_if_needed(file: &Option<EventFile>, now_ms: u128) -> (r: Option<EventFileMaintenance>)
    ensures
        opt_maintenance(r) == match *file {
            Some(file) => maintenance_of(file, now_ms as nat),
            None => None,
        },
{
    match file {
        None => None,
        Some(file) => match inspect_event_file(&file.lines) {
            EventFileInspection::Redacted => None,
            EventFileInspection::Unredacted => Some(
                EventFileMaintenance::RotatedUnredacted(
                    backup_event_path("unredacted", file.unredacted_backup_taken, now_ms),
                ),
            ),
            EventFileInspection::Corrupt => Some(
                EventFileMaintenance::QuarantinedCorrupt(
                    backup_event_path("corrupt", file.corrupt_backup_taken, now_ms),
                ),
            ),
        },
    }
}

// ---------------------------------------------------------------------------
// Laws
// ---------------------------------------------------------------------------

/// The document of an optional text: the text, or null.
pub open spec fn text_or_null(value: Option<Seq<char>>) -> JsonTree {
    match value {
        Some(value) => JsonTree::Text(value),
        None => JsonTree::Null,
    }
}

/// Whether a document is the record of an event with that context: an object
/// whose member `context` has the fields of the context.
pub open spec fn records(event: JsonTree, context: RunContext<Seq<char>>) -> bool {
    match event.member("context"@) {
        None => false,
        Some(tree) => {
            &&& tree.member("guild_id"@) == Some(text_or_null(context.guild_id))
            &&& tree.text_member("guild_name"@) == Some(context.guild_name)
            &&& tree.text_member("channel_id"@) == Some(context.channel_id)
            &&& tree.member("channel_name"@) == Some(text_or_null(context.channel_name))
            &&& tree.text_member("user_id"@) == Some(context.user_id)
            &&& tree.text_member("user_name"@) == Some(context.user_name)
        },
    }
}

/// A record is taken for unredacted exactly where its context differs from its
/// redaction; so the record of a redacted event never is.
pub proof fn redacted_records_pass(event: JsonTree, context: RunContext<Seq<char>>)
    requires
        records(event, context),
    ensures
        appears_unredacted(event) == Some(context != redacted_context(context)),
        context == redacted_context(context) ==> document_kind(Some(event)) == LineKind::Harmless,
{
    let hidden = redacted_context(context);
    assert(context.guild_id == hidden.guild_id && context.guild_name == hidden.guild_name
        && context.channel_id == hidden.channel_id && context.channel_name == hidden.channel_name
        && context.user_id == hidden.user_id && context.user_name == hidden.user_name ==> context
        =~= hidden);
}

/// A file stays where it is only if none of its lines names a user or a place,
/// and none is damaged or unreadable.
pub proof fn kept_files_are_harmless(kinds: Seq<LineKind>, damaged: bool)
    ensures
        inspection(kinds, damaged) == EventFileInspection::Redacted <==> !damaged && forall|i: int|
            0 <= i < kinds.len() ==> #[trigger] kinds[i] == LineKind::Harmless,
    decreases kinds.len(),
{
    if kinds.len() > 0 {
        let rest = kinds.skip(1);
        kept_files_are_harmless(rest, damaged || kinds[0] == LineKind::Damaged);
        assert(forall|i: int| 0 <= i < rest.len() ==> #[trigger] rest[i] == kinds[i + 1]);
        if forall|i: int| 0 <= i < rest.len() ==> #[trigger] rest[i] == LineKind::Harmless {
            assert forall|i: int| 0 <= i < kinds.len() && kinds[0] == LineKind::Harmless implies
                #[trigger] kinds[i] == LineKind::Harmless by {
                if i > 0 {
                    assert(rest[i - 1] == kinds[i]);
                }
            }
        }
    }
}

/// An unredacted event behind lines that are not decisive has the file rotated,
/// however many those are.
pub proof fn late_unredacted_events_are_found(kinds: Seq<LineKind>, at: int, damaged: bool)
    requires
        0 <= at < kinds.len(),
        kinds[at] == LineKind::Unredacted,
        forall|i: int| 0 <= i < at ==> !is_decisive(#[trigger] kinds[i]),
    ensures
        inspection(kinds, damaged) == EventFileInspection::Unredacted,
    decreases kinds.len(),
{
    if at > 0 {
        assert(!is_decisive(kinds[0]));
        let rest = kinds.skip(1);
        assert forall|i: int| 0 <= i < at - 1 implies !is_decisive(#[trigger] rest[i]) by {
            assert(rest[i] == kinds[i + 1]);
        }
        late_unredacted_events_are_found(rest, at - 1, damaged || kinds[0] == LineKind::Damaged);
    }
}

/// The first line that is unredacted or unreadable decides on a file, and where there is
/// none, a damaged line does.
pub proof fn first_decisive_line_decides(kinds: Seq<LineKind>, at: int)
    ensures
        0 <= at < kinds.len() && (forall|i: int| 0 <= i < at ==> !is_decisive(#[trigger] kinds[i])) ==> {
            &&& kinds[at] == LineKind::Unredacted ==> inspection(kinds, false) == EventFileInspection::Unredacted
            &&& kinds[at] == LineKind::Unreadable ==> inspection(kinds, false) == EventFileInspection::Corrupt
        },
        (forall|i: int| 0 <= i < kinds.len() ==> !is_decisive(#[trigger] kinds[i])) ==> inspection(kinds, false) == (
        if exists|i: int| 0 <= i < kinds.len() && #[trigger] kinds[i] == LineKind::Damaged {
            EventFileInspection::Corrupt
        } else {
            EventFileInspection::Redacted
        }),
{
    lemma_decisive(kinds, at, false);
}

proof fn lemma_decisive(kinds: Seq<LineKind>, at: int, damaged: bool)
    ensures
        0 <= at < kinds.len() && (forall|i: int| 0 <= i < at ==> !is_decisive(#[trigger] kinds[i])) ==> {
            &&& kinds[at] == LineKind::Unredacted ==> inspection(kinds, damaged) == EventFileInspection::Unredacted
            &&& kinds[at] == LineKind::Unreadable ==> inspection(kinds, damaged) == EventFileInspection::Corrupt
        },
        (forall|i: int| 0 <= i < kinds.len() ==> !is_decisive(#[trigger] kinds[i])) ==> inspection(kinds, damaged) == (
        if damaged || exists|i: int| 0 <= i < kinds.len() && #[trigger] kinds[i] == LineKind::Damaged {
            EventFileInspection::Corrupt
        } else {
            EventFileInspection::Redacted
        }),
    decreases kinds.len(),
{
    if kinds.len() > 0 {
        let rest = kinds.skip(1);
        assert forall|i: int| 0 <= i < rest.len() implies #[trigger] rest[i] == kinds[i + 1] by {}
        lemma_decisive(rest, at - 1, damaged || kinds[0] == LineKind::Damaged);
        if exists|i: int| 0 <= i < kinds.len() && #[trigger] kinds[i] == LineKind::Damaged {
            let i = choose|i: int| 0 <= i < kinds.len() && #[trigger] kinds[i] == LineKind::Damaged;
            if i > 0 {
                assert(rest[i - 1] == LineKind::Damaged);
            }
        }
        if exists|i: int| 0 <= i < rest.len() && #[trigger] rest[i] == LineKind::Damaged {
            let i = choose|i: int| 0 <= i < rest.len() && #[trigger] rest[i] == LineKind::Damaged;
            assert(kinds[i + 1] == LineKind::Damaged);
        }
        if 0 < at < kinds.len() && (forall|i: int| 0 <= i < at ==> !is_decisive(#[trigger] kinds[i])) {
            assert(!is_decisive(kinds[0]));
            assert forall|i: int| 0 <= i < at - 1 implies !is_decisive(#[trigger] rest[i]) by {
                assert(rest[i] == kinds[i + 1]);
            }
        }
        if forall|i: int| 0 <= i < kinds.len() ==> !is_decisive(#[trigger] kinds[i]) {
            assert(!is_decisive(kinds[0]));
            assert forall|i: int| 0 <= i < rest.len() implies !is_decisive(#[trigger] rest[i]) by {
                assert(rest[i] == kinds[i + 1]);
            }
        }
    }
}

/// Lines are told apart by what can be read of them: a line that cannot be read, a blank
/// one, one that is no record, and a record with or without the identities in it.
pub proof fn lines_are_told_apart(line: Seq<char>)
    ensures
        line_kind(None) == LineKind::Unreadable,
        trim(line).len() == 0 ==> line_kind(Some(line)) == LineKind::Harmless,
        trim(line).len() > 0 ==> line_kind(Some(line)) == (match json_document(encode_utf8(line)) {
            Some(event) => if appears_unredacted(event) == Some(true) {
                LineKind::Unredacted
            } else if appears_unredacted(event) == Some(false) {
                LineKind::Harmless
            } else {
                LineKind::Damaged
            },
            None => LineKind::Damaged,
        }),
{
}

/// A file that needs no change stays; one with identities in it is rotated away, and one
/// that is damaged is put aside, each under a name of its own.
pub proof fn files_are_put_aside_by_what_they_hold(file: EventFile, now_ms: nat)
    ensures
        ({
            let seen = file_inspection(opt_lines(file.lines));
            let done = maintenance_of(file, now_ms);
            &&& seen is Redacted <==> done is None
            &&& seen is Unredacted <==> (done matches Some(EventFileMaintenance::RotatedUnredacted(_)))
            &&& seen is Corrupt <==> (done matches Some(EventFileMaintenance::QuarantinedCorrupt(_)))
            &&& file.lines is None ==> seen is Corrupt
            &&& done matches Some(EventFileMaintenance::RotatedUnredacted(name)) ==> name == if file.unredacted_backup_taken {
                "events.unredacted.backup."@ + decimal(now_ms) + ".jsonl"@
            } else {
                "events.unredacted.backup.jsonl"@
            }
            &&& done matches Some(EventFileMaintenance::QuarantinedCorrupt(name)) ==> name == if file.corrupt_backup_taken {
                "events.corrupt.backup."@ + decimal(now_ms) + ".jsonl"@
            } else {
                "events.corrupt.backup.jsonl"@
            }
        }),
{
    lemma_backup_names(now_ms);
}

proof fn lemma_backup_names(now_ms: nat)
    ensures
        backup_name("unredacted"@, true, now_ms) == "events.unredacted.backup."@ + decimal(now_ms) + ".jsonl"@,
        backup_name("unredacted"@, false, now_ms) == "events.unredacted.backup.jsonl"@,
        backup_name("corrupt"@, true, now_ms) == "events.corrupt.backup."@ + decimal(now_ms) + ".jsonl"@,
        backup_name("corrupt"@, false, now_ms) == "events.corrupt.backup.jsonl"@,
{
    reveal_strlit("events.");
    reveal_strlit("unredacted");
    reveal_strlit("corrupt");
    reveal_strlit(".backup.");
    reveal_strlit(".backup.jsonl");
    reveal_strlit("events.unredacted.backup.");
    reveal_strlit("events.unredacted.backup.jsonl");
    reveal_strlit("events.corrupt.backup.");
    reveal_strlit("events.corrupt.backup.jsonl");
    assert("events."@ + "unredacted"@ + ".backup."@ =~= "events.unredacted.backup."@);
    assert("events."@ + "corrupt"@ + ".backup."@ =~= "events.corrupt.backup."@);
    assert("events."@ + "unredacted"@ + ".backup.jsonl"@ =~= "events.unredacted.backup.jsonl"@);
    assert("events."@ + "corrupt"@ + ".backup.jsonl"@ =~= "events.corrupt.backup.jsonl"@);
}

} // verus!
