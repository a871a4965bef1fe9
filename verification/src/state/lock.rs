//! The lock files that keep a second bot, and a second start, out.

use vstd::prelude::*;
use crate::outside;
use crate::text;
use crate::text::{decimal, first_index, parse_number};

verus! {

// ---------------------------------------------------------------------------
// Ownership
// ---------------------------------------------------------------------------

/// A hexadecimal digit.
pub open spec fn hex_digit(n: nat) -> char {
    if n < 10 {
        (48 + n) as char
    } else {
        (87 + n) as char
    }
}

/// The last `width` hexadecimal digits of a number.
pub open spec fn hex_digits(n: nat, width: nat) -> Seq<char>
    decreases width,
{
    if width == 0 {
        Seq::empty()
    } else {
        hex_digits(n / 16, (width - 1) as nat).push(hex_digit(n % 16))
    }
}

fn hex_char(n: u64) -> (r: char)
    requires
        n < 16,
    ensures
        r == hex_digit(n as nat),
{
    let code: u8 = if n < 10 {
        48u8 + n as u8
    } else {
        87u8 + n as u8
    };
    code as char
}

fn push_hex(out: &mut String, n: u64, width: usize)
    ensures
        final(out)@ == old(out)@ + hex_digits(n as nat, width as nat),
    decreases width,
{
    if width > 0 {
        push_hex(out, n / 16, width - 1);
        out.push(hex_char(n % 16));
        proof {
            assert(out@ =~= old(out)@ + hex_digits(n as nat, width as nat));
        }
    } else {
        proof {
            assert(out@ =~= old(out)@ + hex_digits(n as nat, width as nat));
        }
    }
}

/// What a lock file says of its owner: the process, and a number that tells
/// locks of one process apart.
pub open spec fn owner_text(process_id: nat, nonce: nat) -> Seq<char> {
    decimal(process_id) + "\n"@ + hex_digits(nonce, 16) + "\n"@
}

/// What a lock file says of its owner.
pub fn lock_owner(process_id: u32, nonce: u64) -> (r: String)
    ensures
        r@ == owner_text(process_id as nat, nonce as nat),
{
    let mut owner = text::cat2(text::decimal_u64(process_id as u64).as_str(), "\n");
    push_hex(&mut owner, nonce, 16);
    owner.push_str("\n");
    owner
}

/// Whether a text is what a lock file of that process may say.
pub open spec fn is_owner_text(owner: Seq<char>, process_id: nat) -> bool {
    exists|nonce: u64| owner == #[trigger] owner_text(process_id, nonce as nat)
}

/// What a new lock file of that process says.
pub fn runtime_lock_owner(process_id: u32) -> (r: String)
    ensures
        is_owner_text(r@, process_id as nat),
{
    let nonce: u64 = outside::random_number();
    lock_owner(process_id, nonce)
}

/// The name of the file in which a lock is prepared.
pub open spec fn draft_name(file_name: Seq<char>, process_id: nat, nonce: nat) -> Seq<char> {
    "."@ + file_name + "."@ + decimal(process_id) + "."@ + decimal(nonce) + ".tmp"@
}

/// The name of the file in which a lock is prepared.
pub fn lock_draft_name(file_name: &str, process_id: u32, nonce: u64) -> (r: String)
    ensures
        r@ == draft_name(file_name@, process_id as nat, nonce as nat),
{
    let mut name = text::cat5(
        ".",
        file_name,
        ".",
        text::decimal_u64(process_id as u64).as_str(),
        ".",
    );
    name.push_str(text::decimal_u64(nonce).as_str());
    name.push_str(".tmp");
    name
}

/// Whether a text is the name of a file in which that process may prepare that
/// lock.
pub open spec fn is_draft_name(name: Seq<char>, file_name: Seq<char>, process_id: nat) -> bool {
    exists|nonce: u64| name == #[trigger] draft_name(file_name, process_id, nonce as nat)
}

/// The name of a new file in which a lock is prepared.
pub fn new_lock_draft_name(file_name: &str, process_id: u32) -> (r: String)
    ensures
        is_draft_name(r@, file_name@, process_id as nat),
{
    let nonce: u64 = outside::random_number();
    lock_draft_name(file_name, process_id, nonce)
}

/// The name of the lock under which a stale lock is inspected.
pub fn reclaim_name(file_name: &str) -> (r: String)
    ensures
        r@ == file_name@ + ".reclaim"@,
{
    text::cat2(file_name, ".reclaim")
}

/// Whether a lock file is still the one that was made: only then is it removed.
pub fn owns_lock(contents: Option<&str>, owner: &str) -> (r: bool)
    ensures
        r == (contents matches Some(contents) && contents@ == owner@),
{
    match contents {
        Some(contents) => text::same(contents, owner),
        None => false,
    }
}

/// The first line of a text; nothing where the text is empty.
pub open spec fn first_line(contents: Seq<char>) -> Option<Seq<char>> {
    let end = first_index(contents, '\n');
    if contents.len() == 0 {
        None
    } else if end < contents.len() && end > 0 && contents[end - 1] == '\r' {
        Some(contents.take(end - 1))
    } else {
        Some(contents.take(end))
    }
}

/// The process that a lock file names: a positive number on its first line.
pub open spec fn owner_pid(contents: Seq<char>) -> Option<nat> {
    match first_line(contents) {
        Some(line) => match parse_number(line, i32::MAX as nat) {
            Some(pid) => if pid > 0 {
                Some(pid)
            } else {
                None
            },
            None => None,
        },
        None => None,
    }
}

/// The process that a lock file names.
pub fn lock_owner_pid(contents: &str) -> (r: Option<u32>)
    ensures
        match r {
            Some(pid) => owner_pid(contents@) == Some(pid as nat),
            None => owner_pid(contents@) is None,
        },
{
    let chars = text::chars_of(contents);
    if chars.len() == 0 {
        return None;
    }
    let found: usize = text::find_char(&chars, '\n');
    let end: usize = if found < chars.len() && found > 0 && chars[found - 1] == '\r' {
        found - 1
    } else {
        found
    };
    let line = text::string_of_range(&chars, 0, end);
    proof {
        assert(line@ =~= contents@.take(end as int));
    }
    match text::parse_unsigned(line.as_str(), i32::MAX as u64) {
        Some(pid) => if pid > 0 {
            Some(pid as u32)
        } else {
            None
        },
        None => None,
    }
}

/// Whether a process lives, given whether it could be signalled and, where not,
/// whether the reason was that there is none. Where in doubt, it lives.
pub fn process_is_alive(signalled: bool, no_such_process: bool) -> (r: bool)
    ensures
        r == (signalled || !no_such_process),
{
    signalled || !no_such_process
}

// ---------------------------------------------------------------------------
// Acquiring
// ---------------------------------------------------------------------------

/// What acquiring a lock asks for next.
#[verifier::ext_equal]
#[derive(Clone, Debug)]
pub enum LockAction<T = String> {
    /// Make the lock file, unless there is one.
    Publish,
    /// Make the file under which a stale lock is inspected, unless there is one.
    PublishReclaim,
    Inspect,
    Read,
    AskAlive { pid: u32 },
    Remove,
    /// The lock is held; the reclaim file, where it was made, goes.
    Held,
    /// The lock is not held; the reclaim file, where it was made, goes.
    Fail { message: T },
}

impl View for LockAction<String> {
    type V = LockAction<Seq<char>>;

    open spec fn view(&self) -> LockAction<Seq<char>> {
        match *self {
            LockAction::Publish => LockAction::Publish,
            LockAction::PublishReclaim => LockAction::PublishReclaim,
            LockAction::Inspect => LockAction::Inspect,
            LockAction::Read => LockAction::Read,
            LockAction::AskAlive { pid } => LockAction::AskAlive { pid },
            LockAction::Remove => LockAction::Remove,
            LockAction::Held => LockAction::Held,
            LockAction::Fail { message } => LockAction::Fail { message: message@ },
        }
    }
}

/// What came of a step.
#[verifier::ext_equal]
#[derive(Clone, Debug)]
pub enum LockEvent<T = String> {
    Published,
    AlreadyExists,
    NotPublished,
    Missing,
    RegularFile,
    OtherFile,
    NotInspected,
    Contents { contents: T },
    NotRead,
    Alive,
    Dead,
    Removed,
    NotRemoved,
}

impl View for LockEvent<String> {
    type V = LockEvent<Seq<char>>;

    open spec fn view(&self) -> LockEvent<Seq<char>> {
        match *self {
            LockEvent::Published => LockEvent::Published,
            LockEvent::AlreadyExists => LockEvent::AlreadyExists,
            LockEvent::NotPublished => LockEvent::NotPublished,
            LockEvent::Missing => LockEvent::Missing,
            LockEvent::RegularFile => LockEvent::RegularFile,
            LockEvent::OtherFile => LockEvent::OtherFile,
            LockEvent::NotInspected => LockEvent::NotInspected,
            LockEvent::Contents { contents } => LockEvent::Contents { contents: contents@ },
            LockEvent::NotRead => LockEvent::NotRead,
            LockEvent::Alive => LockEvent::Alive,
            LockEvent::Dead => LockEvent::Dead,
            LockEvent::Removed => LockEvent::Removed,
            LockEvent::NotRemoved => LockEvent::NotRemoved,
        }
    }
}

/// Which outcome acquiring a lock waits for.
#[derive(Clone, Copy, Debug, PartialEq, Eq, Structural)]
pub enum LockFlow {
    Publishing,
    Serializing,
    Inspecting,
    Reading,
    Asking,
    Removing,
    Recovering,
    Over,
}

/// Which outcomes a flow waits for.
pub open spec fn lock_awaits(flow: LockFlow, event: LockEvent<Seq<char>>) -> bool {
    match flow {
        LockFlow::Publishing | LockFlow::Serializing | LockFlow::Recovering => event is Published || event
            is AlreadyExists || event is NotPublished,
        LockFlow::Inspecting => event is Missing || event is RegularFile || event is OtherFile || event
            is NotInspected,
        LockFlow::Reading => event is Contents || event is NotRead,
        LockFlow::Asking => event is Alive || event is Dead,
        LockFlow::Removing => event is Removed || event is NotRemoved,
        LockFlow::Over => false,
    }
}

/// A flow that ends without the lock.
pub open spec fn lock_fails(before: Seq<char>, purpose: Seq<char>, after: Seq<char>) -> (LockFlow, LockAction<Seq<char>>) {
    (LockFlow::Over, LockAction::Fail { message: before + purpose + after })
}

/// The next step of acquiring the lock for `purpose`.
pub open spec fn lock_step(
    flow: LockFlow,
    event: LockEvent<Seq<char>>,
    purpose: Seq<char>,
) -> (LockFlow, LockAction<Seq<char>>) {
    match (flow, event) {
        (LockFlow::Publishing, LockEvent::Published) => (LockFlow::Over, LockAction::Held),
        (LockFlow::Publishing, LockEvent::AlreadyExists) => (
            LockFlow::Serializing,
            LockAction::PublishReclaim,
        ),
        (LockFlow::Publishing, _) => lock_fails("could not create "@, purpose, " lock"@),
        (LockFlow::Serializing, LockEvent::Published) => (LockFlow::Inspecting, LockAction::Inspect),
        (LockFlow::Serializing, _) => lock_fails(
            "could not serialize stale "@,
            purpose,
            " lock inspection"@,
        ),
        (LockFlow::Inspecting, LockEvent::Missing) => (LockFlow::Recovering, LockAction::Publish),
        (LockFlow::Inspecting, LockEvent::RegularFile) => (LockFlow::Reading, LockAction::Read),
        (LockFlow::Inspecting, LockEvent::OtherFile) => lock_fails(
            "existing "@,
            purpose,
            " lock is not a safe regular file"@,
        ),
        (LockFlow::Inspecting, _) => lock_fails("could not inspect existing "@, purpose, " lock"@),
        (LockFlow::Reading, LockEvent::Contents { contents }) => match owner_pid(contents) {
            Some(pid) => (LockFlow::Asking, LockAction::AskAlive { pid: pid as u32 }),
            None => lock_fails("existing "@, purpose, " lock has invalid ownership"@),
        },
        (LockFlow::Reading, _) => lock_fails("could not read existing "@, purpose, " lock"@),
        (LockFlow::Asking, LockEvent::Dead) => (LockFlow::Removing, LockAction::Remove),
        (LockFlow::Asking, _) => lock_fails(""@, purpose, " lock is held by another process"@),
        (LockFlow::Removing, LockEvent::Removed) => (LockFlow::Recovering, LockAction::Publish),
        (LockFlow::Removing, _) => lock_fails("could not remove stale "@, purpose, " lock"@),
        (LockFlow::Recovering, LockEvent::Published) => (LockFlow::Over, LockAction::Held),
        (LockFlow::Recovering, _) => lock_fails(
            "could not acquire "@,
            purpose,
            " lock after recovery"@,
        ),
        _ => arbitrary(),
    }
}

fn fail(before: &str, purpose: &str, after: &str) -> (r: (LockFlow, LockAction))
    ensures
        (r.0, r.1@) == lock_fails(before@, purpose@, after@),
{
    (LockFlow::Over, LockAction::Fail { message: text::cat3(before, purpose, after) })
}

impl LockFlow {
    /// The first step.
    pub fn begin() -> (r: (LockFlow, LockAction))
        ensures
            (r.0, r.1@) == (LockFlow::Publishing, LockAction::<Seq<char>>::Publish),
    {
        (LockFlow::Publishing, LockAction::Publish)
    }

    /// Takes the outcome that the flow waits for to its next action.
    pub fn acquire_runtime_lock(self, event: LockEvent, purpose: &str) -> (r: (LockFlow, LockAction))
        requires
            lock_awaits(self, event@),
        ensures
            (r.0, r.1@) == lock_step(self, event@, purpose@),
    {
        match (self, event) {
            (LockFlow::Publishing, LockEvent::Published) => (LockFlow::Over, LockAction::Held),
            (LockFlow::Publishing, LockEvent::AlreadyExists) => (
                LockFlow::Serializing,
                LockAction::PublishReclaim,
            ),
            (LockFlow::Publishing, _) => fail("could not create ", purpose, " lock"),
            (LockFlow::Serializing, LockEvent::Published) => (
                LockFlow::Inspecting,
                LockAction::Inspect,
            ),
            (LockFlow::Serializing, _) => fail(
                "could not serialize stale ",
                purpose,
                " lock inspection",
            ),
            (LockFlow::Inspecting, LockEvent::Missing) => (LockFlow::Recovering, LockAction::Publish),
            (LockFlow::Inspecting, LockEvent::RegularFile) => (LockFlow::Reading, LockAction::Read),
            (LockFlow::Inspecting, LockEvent::OtherFile) => fail(
                "existing ",
                purpose,
                " lock is not a safe regular file",
            ),
            (LockFlow::Inspecting, _) => fail("could not inspect existing ", purpose, " lock"),
            (LockFlow::Reading, LockEvent::Contents { contents }) => match lock_owner_pid(
                contents.as_str(),
            ) {
                Some(pid) => (LockFlow::Asking, LockAction::AskAlive { pid }),
                None => fail("existing ", purpose, " lock has invalid ownership"),
            },
            (LockFlow::Reading, _) => fail("could not read existing ", purpose, " lock"),
            (LockFlow::Asking, LockEvent::Dead) => (LockFlow::Removing, LockAction::Remove),
            (LockFlow::Asking, _) => fail("", purpose, " lock is held by another process"),
            (LockFlow::Removing, LockEvent::Removed) => (LockFlow::Recovering, LockAction::Publish),
            (LockFlow::Removing, _) => fail("could not remove stale ", purpose, " lock"),
            (LockFlow::Recovering, LockEvent::Published) => (LockFlow::Over, LockAction::Held),
            (LockFlow::Recovering, _) => fail("could not acquire ", purpose, " lock after recovery"),
            _ => vstd::pervasive::unreached(),
        }
    }
}

// ---------------------------------------------------------------------------
// Laws
// ---------------------------------------------------------------------------

/// A lock is held only once its file was made by this very attempt.
pub proof fn held_locks_were_published(flow: LockFlow, event: LockEvent<Seq<char>>, purpose: Seq<char>)
    requires
        lock_awaits(flow, event),
    ensures
        lock_step(flow, event, purpose).1 is Held ==> event is Published && (flow
            == LockFlow::Publishing || flow == LockFlow::Recovering),
{
}

/// The lock file of another is removed only after the process that it names, a
/// positive number, was found dead; and it is read only under the reclaim file.
pub proof fn only_dead_owners_lose_their_lock(
    flow: LockFlow,
    event: LockEvent<Seq<char>>,
    purpose: Seq<char>,
)
    requires
        lock_awaits(flow, event),
    ensures
        lock_step(flow, event, purpose).1 is Remove ==> flow == LockFlow::Asking && event is Dead,
        lock_step(flow, event, purpose).0 == LockFlow::Asking ==> flow == LockFlow::Reading && (event
            matches LockEvent::Contents { contents } && owner_pid(contents) is Some),
        lock_step(flow, event, purpose).0 == LockFlow::Reading ==> flow == LockFlow::Inspecting && event
            is RegularFile,
        lock_step(flow, event, purpose).0 == LockFlow::Inspecting ==> flow == LockFlow::Serializing
            && event is Published,
{
}

/// What a process writes into its lock is read back as that process.
pub proof fn owners_are_read_back(process_id: nat, nonce: nat)
    requires
        0 < process_id <= i32::MAX,
    ensures
        owner_pid(owner_text(process_id, nonce)) == Some(process_id),
{
    let owner = owner_text(process_id, nonce);
    let name = decimal(process_id);
    reveal_strlit("\n");
    text::parse_reads_back_decimal(process_id, i32::MAX as nat);
    text::lemma_decimal_digits(process_id);
    let tail = "\n"@ + hex_digits(nonce, 16) + "\n"@;
    assert(owner =~= name + tail);
    assert(tail[0] == '\n');
    text::lemma_first_index(owner, '\n', name.len() as int);
    assert(owner.take(name.len() as int) =~= name);
}

} // verus!
