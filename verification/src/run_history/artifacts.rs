//! The directories with what runs left behind: which of them are the bot's, and
//! which of those are kept.

use vstd::prelude::*;
use crate::text;
use crate::text::decimal;

verus! {

/// The file that marks a directory as one of a run.
pub const RUN_DIR_MARKER: &'static str = ".butler-run";

/// What the marker file holds.
pub const RUN_DIR_MARKER_TEXT: &'static str = "butler-run\n";

/// The files by which the directory of a run is known that has no marker.
pub fn legacy_run_artifact_files() -> (r: Vec<String>)
    ensures
        text::texts(r@) == seq![
            "dashboard_after_start.png"@,
            "dashboard_after_start.html"@,
            "failure.png"@,
            "failure.html"@,
        ],
{
    let mut files = text::no_texts();
    text::add_text(&mut files, "dashboard_after_start.png".to_owned());
    text::add_text(&mut files, "dashboard_after_start.html".to_owned());
    text::add_text(&mut files, "failure.png".to_owned());
    text::add_text(&mut files, "failure.html".to_owned());
    proof {
        assert(text::texts(files@) =~= seq![
            "dashboard_after_start.png"@,
            "dashboard_after_start.html"@,
            "failure.png"@,
            "failure.html"@,
        ]);
    }
    files
}

/// An entry of the artifact directory.
pub struct ArtifactEntry {
    pub is_dir: bool,
    pub is_symlink: bool,
    /// Whether it holds the marker file.
    pub has_marker: bool,
    /// Whether it holds one of the files by which an unmarked one is known.
    pub has_legacy_file: bool,
    /// Its name, where that is text.
    pub name: Option<String>,
    /// The bytes of its name.
    pub name_bytes: Vec<u8>,
    /// When it was changed last, in nanoseconds since the epoch.
    pub modified_ns: i128,
}

/// Whether a character is a lower-case ASCII letter or a digit.
pub open spec fn is_run_id_char(c: char) -> bool {
    ('a' <= c && c <= 'z') || ('0' <= c && c <= '9')
}

/// Whether a name has the shape of a run ID.
pub open spec fn is_run_id(name: Seq<char>) -> bool {
    name.len() == 6 && forall|i: int| 0 <= i < name.len() ==> is_run_id_char(#[trigger] name[i])
}

/// Whether a name has the shape of a run ID.
pub fn has_run_id_shape(name: &str) -> (r: bool)
    ensures
        r == is_run_id(name@),
{
    let chars = text::chars_of(name);
    if chars.len() != 6 {
        return false;
    }
    let mut i: usize = 0;
    while i < chars.len()
        invariant
            i <= chars@.len(),
            chars@ == name@,
            forall|j: int| 0 <= j < i ==> is_run_id_char(#[trigger] name@[j]),
        decreases chars@.len() - i,
    {
        let c: char = chars[i];
        if !(('a' <= c && c <= 'z') || ('0' <= c && c <= '9')) {
            assert(!is_run_id_char(name@[i as int]));
            return false;
        }
        i += 1;
    }
    true
}

/// Whether an entry is a directory that a run left behind.
pub open spec fn is_run_dir(entry: ArtifactEntry) -> bool {
    &&& entry.is_dir
    &&& !entry.is_symlink
    &&& (entry.has_marker || (entry.has_legacy_file && (entry.name matches Some(name) && is_run_id(
        name@,
    ))))
}

/// Whether an entry is a directory that a run left behind.
pub fn is_butler_run_artifact_dir(entry: &ArtifactEntry) -> (r: bool)
    ensures
        r == is_run_dir(*entry),
{
    if !entry.is_dir || entry.is_symlink {
        return false;
    }
    if entry.has_marker {
        return true;
    }
    match &entry.name {
        Some(name) => has_run_id_shape(name.as_str()) && entry.has_legacy_file,
        None => false,
    }
}

// ---------------------------------------------------------------------------
// Order
// ---------------------------------------------------------------------------

/// Whether the bytes `a` come before the bytes `b` in lexical order.
pub open spec fn bytes_before(a: Seq<u8>, b: Seq<u8>) -> bool
    decreases a.len(),
{
    if b.len() == 0 {
        false
    } else if a.len() == 0 {
        true
    } else if a[0] != b[0] {
        a[0] < b[0]
    } else {
        bytes_before(a.skip(1), b.skip(1))
    }
}

/// Lexical order is a strict order in which any two different names compare.
proof fn lemma_bytes_order(a: Seq<u8>, b: Seq<u8>)
    ensures
        !(bytes_before(a, b) && bytes_before(b, a)),
        bytes_before(a, b) || bytes_before(b, a) || a == b,
        !bytes_before(a, a),
    decreases a.len(),
{
    if a.len() > 0 {
        lemma_bytes_order(a.skip(1), a.skip(1));
        if b.len() > 0 {
            lemma_bytes_order(a.skip(1), b.skip(1));
            if a[0] == b[0] && a.skip(1) == b.skip(1) {
                assert(a =~= seq![a[0]] + a.skip(1));
                assert(b =~= seq![b[0]] + b.skip(1));
            }
        }
    } else if b.len() == 0 {
        assert(a =~= b);
    }
}

proof fn lemma_bytes_transitive(a: Seq<u8>, b: Seq<u8>, c: Seq<u8>)
    requires
        bytes_before(a, b),
        bytes_before(b, c),
    ensures
        bytes_before(a, c),
    decreases a.len(),
{
    if a.len() > 0 && b.len() > 0 && c.len() > 0 && a[0] == b[0] && b[0] == c[0] {
        lemma_bytes_transitive(a.skip(1), b.skip(1), c.skip(1));
    }
}

fn is_bytes_before(a: &Vec<u8>, b: &Vec<u8>) -> (r: bool)
    ensures
        r == bytes_before(a@, b@),
{
    let mut i: usize = 0;
    proof {
        assert(a@.skip(0) =~= a@);
        assert(b@.skip(0) =~= b@);
    }
    while i < a.len() && i < b.len()
        invariant
            i <= a@.len(),
            i <= b@.len(),
            bytes_before(a@, b@) == bytes_before(a@.skip(i as int), b@.skip(i as int)),
        decreases a@.len() - i,
    {
        proof {
            assert(a@.skip(i as int).skip(1) =~= a@.skip(i + 1));
            assert(b@.skip(i as int).skip(1) =~= b@.skip(i + 1));
        }
        if a[i] != b[i] {
            return a[i] < b[i];
        }
        i += 1;
    }
    i < b.len()
}

/// A directory by the time of its last change and the bytes of its name.
pub type DatedName = (i128, Seq<u8>);

/// Whether the directory at `i` is kept rather than that at `j`: the newer one,
/// of two equally old ones the one with the later name, and the earlier in the
/// list where even the names agree.
pub open spec fn goes_before(dirs: Seq<DatedName>, i: int, j: int) -> bool {
    if dirs[i].0 != dirs[j].0 {
        dirs[i].0 > dirs[j].0
    } else if dirs[i].1 != dirs[j].1 {
        bytes_before(dirs[j].1, dirs[i].1)
    } else {
        i < j
    }
}

proof fn lemma_goes_before(dirs: Seq<DatedName>, i: int, j: int, k: int)
    ensures
        i != j ==> goes_before(dirs, i, j) != goes_before(dirs, j, i),
        goes_before(dirs, i, j) && goes_before(dirs, j, k) ==> goes_before(dirs, i, k),
{
    lemma_bytes_order(dirs[i].1, dirs[j].1);
    lemma_bytes_order(dirs[j].1, dirs[k].1);
    lemma_bytes_order(dirs[i].1, dirs[k].1);
    if bytes_before(dirs[k].1, dirs[j].1) && bytes_before(dirs[j].1, dirs[i].1) {
        lemma_bytes_transitive(dirs[k].1, dirs[j].1, dirs[i].1);
    }
}

/// Whether the indices stand in the order in which directories are kept.
pub open spec fn in_order(dirs: Seq<DatedName>, order: Seq<usize>) -> bool {
    forall|a: int, b: int|
        0 <= a < b < order.len() ==> goes_before(dirs, (#[trigger] order[a]) as int, (#[trigger] order[b]) as int)
}

/// The views of dated names.
pub open spec fn dated(dirs: Seq<(i128, Vec<u8>)>) -> Seq<DatedName> {
    dirs.map_values(|dir: (i128, Vec<u8>)| (dir.0, dir.1@))
}

fn is_before(dirs: &Vec<(i128, Vec<u8>)>, i: usize, j: usize) -> (r: bool)
    requires
        i < dirs@.len(),
        j < dirs@.len(),
    ensures
        r == goes_before(dated(dirs@), i as int, j as int),
{
    proof {
        lemma_bytes_order(dirs@[i as int].1@, dirs@[j as int].1@);
    }
    if dirs[i].0 != dirs[j].0 {
        return dirs[i].0 > dirs[j].0;
    }
    if is_bytes_before(&dirs[j].1, &dirs[i].1) {
        return true;
    }
    if is_bytes_before(&dirs[i].1, &dirs[j].1) {
        return false;
    }
    i < j
}

/// Whether the index is among those of the list.
pub open spec fn ranks(order: Seq<usize>, i: int) -> bool {
    exists|a: int| 0 <= a < order.len() && #[trigger] order[a] == i
}

/// Every index below `count` once, in the order in which directories are kept.
pub open spec fn is_ranking(dirs: Seq<DatedName>, order: Seq<usize>, count: int) -> bool {
    &&& order.len() == count
    &&& in_order(dirs, order)
    &&& forall|a: int| 0 <= a < order.len() ==> (#[trigger] order[a]) < count
    &&& forall|i: int| 0 <= i < count ==> #[trigger] ranks(order, i)
}

fn insert_ranked(dirs: &Vec<(i128, Vec<u8>)>, order: &mut Vec<usize>, new: usize)
    requires
        new < dirs@.len(),
        is_ranking(dated(dirs@), old(order)@, new as int),
    ensures
        is_ranking(dated(dirs@), final(order)@, new + 1),
{
    let ghost names = dated(dirs@);
    let ghost before = order@;
    let mut at: usize = 0;
    while at < order.len() && is_before(dirs, order[at], new)
        invariant
            new < dirs@.len(),
            names == dated(dirs@),
            order@ == before,
            is_ranking(names, before, new as int),
            at <= before.len(),
            forall|a: int| 0 <= a < at ==> goes_before(names, (#[trigger] before[a]) as int, new as int),
        decreases before.len() - at,
    {
        at += 1;
    }
    order.insert(at, new);
    proof {
        let after = before.insert(at as int, new);
        assert(order@ == after);
        assert(after.len() == new + 1);
        assert forall|a: int| 0 <= a < after.len() implies (#[trigger] after[a]) < new + 1 by {
            if a < at {
                assert(after[a] == before[a]);
            } else if a > at {
                assert(after[a] == before[a - 1]);
            }
        }
        assert forall|a: int, b: int| 0 <= a < b < after.len() implies goes_before(
            names,
            (#[trigger] after[a]) as int,
            (#[trigger] after[b]) as int,
        ) by {
            if a < at && b < at {
                assert(after[a] == before[a] && after[b] == before[b]);
            } else if a < at && b == at {
                assert(after[a] == before[a]);
            } else if a < at {
                assert(after[a] == before[a] && after[b] == before[b - 1]);
            } else if a == at {
                assert(after[b] == before[b - 1]);
                let held = before[at as int] as int;
                lemma_goes_before(names, new as int, held, before[b - 1] as int);
                if b - 1 > at {
                    assert(goes_before(names, before[at as int] as int, before[b - 1] as int));
                }
            } else {
                assert(after[a] == before[a - 1] && after[b] == before[b - 1]);
            }
        }
        assert forall|i: int| 0 <= i < new + 1 implies #[trigger] ranks(after, i) by {
            if i == new {
                assert(after[at as int] == i);
            } else {
                assert(ranks(before, i));
                let a = choose|a: int| 0 <= a < before.len() && #[trigger] before[a] == i;
                if a < at {
                    assert(after[a] == i);
                } else {
                    assert(after[a + 1] == i);
                }
            }
        }
    }
}

/// Which of the directories are removed, given how many are kept: a list of
/// their indices, in the order in which they would be kept, that begins where
/// the kept ones end.
pub open spec fn is_pruning(dirs: Seq<DatedName>, keep_newest: nat, removed: Seq<usize>) -> bool {
    &&& removed.len() == if dirs.len() <= keep_newest { 0 } else { dirs.len() - keep_newest }
    &&& in_order(dirs, removed)
    &&& forall|a: int| 0 <= a < removed.len() ==> (#[trigger] removed[a]) < dirs.len()
    &&& forall|i: int, a: int|
        0 <= i < dirs.len() && 0 <= a < removed.len() && !removed.contains(i as usize)
            ==> #[trigger] goes_before(dirs, i, removed[a] as int)
}

/// Which of the directories are removed, given how many are kept.
pub fn prune_run_artifact_dir_paths(dirs: &Vec<(i128, Vec<u8>)>, keep_newest: usize) -> (r: Vec<usize>)
    ensures
        is_pruning(dated(dirs@), keep_newest as nat, r@),
{
    let ghost names = dated(dirs@);
    let mut order: Vec<usize> = Vec::new();
    let mut i: usize = 0;
    while i < dirs.len()
        invariant
            i <= dirs@.len(),
            names == dated(dirs@),
            is_ranking(names, order@, i as int),
        decreases dirs@.len() - i,
    {
        insert_ranked(dirs, &mut order, i);
        i += 1;
    }
    let mut removed: Vec<usize> = Vec::new();
    let mut at: usize = keep_newest;
    while at < order.len()
        invariant
            keep_newest <= at,
            order@.len() < keep_newest ==> removed@.len() == 0 && at == keep_newest,
            order@.len() >= keep_newest ==> at <= order@.len() && removed@ == order@.subrange(
                keep_newest as int,
                at as int,
            ),
        decreases order@.len() - at,
    {
        removed.push(order[at]);
        proof {
            assert(removed@ =~= order@.subrange(keep_newest as int, at + 1));
        }
        at += 1;
    }
    proof {
        let keep = keep_newest as int;
        if order@.len() > keep {
            assert(removed@ == order@.subrange(keep, order@.len() as int));
            assert forall|i: int, a: int|
                0 <= i < names.len() && 0 <= a < removed@.len() && !removed@.contains(
                    i as usize,
                ) implies #[trigger] goes_before(names, i, removed@[a] as int) by {
                assert(ranks(order@, i));
                let p = choose|p: int| 0 <= p < order@.len() && #[trigger] order@[p] == i;
                if p >= keep {
                    assert(removed@[p - keep] == i as usize);
                    assert(false);
                }
                assert(removed@[a] == order@[keep + a]);
            }
            assert(in_order(names, removed@)) by {
                assert forall|a: int, b: int| 0 <= a < b < removed@.len() implies goes_before(
                    names,
                    (#[trigger] removed@[a]) as int,
                    (#[trigger] removed@[b]) as int,
                ) by {
                    assert(removed@[a] == order@[keep + a] && removed@[b] == order@[keep + b]);
                }
            }
            assert forall|a: int| 0 <= a < removed@.len() implies (#[trigger] removed@[a])
                < names.len() by {
                assert(removed@[a] == order@[keep + a]);
            }
        }
    }
    removed
}

/// The positions of the entries that runs left behind.
pub open spec fn run_dirs(entries: Seq<ArtifactEntry>) -> Seq<int>
    decreases entries.len(),
{
    if entries.len() == 0 {
        Seq::empty()
    } else {
        let before = run_dirs(entries.drop_last());
        if is_run_dir(entries.last()) {
            before.push(entries.len() - 1)
        } else {
            before
        }
    }
}

/// The dated names of the entries at those positions.
pub open spec fn dated_at(entries: Seq<ArtifactEntry>, positions: Seq<int>) -> Seq<DatedName> {
    positions.map_values(|at: int| (entries[at].modified_ns, entries[at].name_bytes@))
}

/// Which entries are removed: those among the directories of runs that are
/// pruned, in the same order.
pub open spec fn prunes(entries: Seq<ArtifactEntry>, keep_newest: nat, removed: Seq<usize>) -> bool {
    let positions = run_dirs(entries);
    exists|pruned: Seq<usize>|
        {
            &&& #[trigger] is_pruning(dated_at(entries, positions), keep_newest, pruned)
            &&& removed.len() == pruned.len()
            &&& forall|a: int|
                0 <= a < removed.len() ==> (#[trigger] removed[a]) == positions[pruned[a] as int]
        }
}

proof fn lemma_run_dirs(entries: Seq<ArtifactEntry>)
    ensures
        forall|a: int|
            0 <= a < run_dirs(entries).len() ==> 0 <= (#[trigger] run_dirs(entries)[a])
                < entries.len() && is_run_dir(entries[run_dirs(entries)[a]]),
        run_dirs(entries).len() <= entries.len(),
    decreases entries.len(),
{
    if entries.len() > 0 {
        lemma_run_dirs(entries.drop_last());
        let before = run_dirs(entries.drop_last());
        assert forall|a: int| 0 <= a < run_dirs(entries).len() implies 0 <= (#[trigger] run_dirs(
            entries,
        )[a]) < entries.len() && is_run_dir(entries[run_dirs(entries)[a]]) by {
            if a < before.len() {
                assert(run_dirs(entries)[a] == before[a]);
                assert(entries.drop_last()[before[a]] == entries[before[a]]);
            }
        }
    }
}

/// The positions of the entries of the artifact directory that are removed so
/// that only the newest directories of runs stay.
pub fn prune_run_artifact_dirs(entries: &Vec<ArtifactEntry>, keep_newest: usize) -> (r: Vec<usize>)
    ensures
        prunes(entries@, keep_newest as nat, r@),
{
    let mut positions: Vec<usize> = Vec::new();
    let mut dirs: Vec<(i128, Vec<u8>)> = Vec::new();
    let mut i: usize = 0;
    proof {
        assert(entries@.take(0) =~= Seq::<ArtifactEntry>::empty());
    }
    while i < entries.len()
        invariant
            i <= entries@.len(),
            positions@.map_values(|at: usize| at as int) =~= run_dirs(entries@.take(i as int)),
            positions@.len() == dirs@.len(),
            forall|a: int| 0 <= a < positions@.len() ==> (#[trigger] positions@[a]) < i,
            forall|a: int|
                0 <= a < positions@.len() ==> (#[trigger] dirs@[a]).0
                    == entries@[positions@[a] as int].modified_ns && dirs@[a].1@
                    == entries@[positions@[a] as int].name_bytes@,
        decreases entries@.len() - i,
    {
        proof {
            assert(entries@.take(i + 1).drop_last() =~= entries@.take(i as int));
        }
        if is_butler_run_artifact_dir(&entries[i]) {
            let ghost held = positions@;
            positions.push(i);
            dirs.push((entries[i].modified_ns, copy_bytes(&entries[i].name_bytes)));
            proof {
                assert(positions@.map_values(|at: usize| at as int) =~= held.map_values(
                    |at: usize| at as int,
                ).push(i as int));
            }
        }
        i += 1;
    }
    let pruned = prune_run_artifact_dir_paths(&dirs, keep_newest);
    proof {
        assert(entries@.take(entries@.len() as int) =~= entries@);
        assert(dated(dirs@) =~= dated_at(entries@, run_dirs(entries@))) by {
            assert forall|a: int| 0 <= a < dirs@.len() implies #[trigger] dated(dirs@)[a]
                == dated_at(entries@, run_dirs(entries@))[a] by {
                assert(run_dirs(entries@)[a] == positions@[a]);
            }
        }
    }
    let mut removed: Vec<usize> = Vec::new();
    let mut a: usize = 0;
    while a < pruned.len()
        invariant
            a <= pruned@.len(),
            removed@.len() == a,
            positions@.map_values(|at: usize| at as int) =~= run_dirs(entries@),
            is_pruning(dated_at(entries@, run_dirs(entries@)), keep_newest as nat, pruned@),
            forall|b: int|
                0 <= b < a ==> (#[trigger] removed@[b]) == run_dirs(entries@)[pruned@[b] as int],
        decreases pruned@.len() - a,
    {
        assert(pruned@[a as int] < positions@.len());
        removed.push(positions[pruned[a]]);
        proof {
            assert(run_dirs(entries@)[pruned@[a as int] as int] == positions@[pruned@[a as int] as int]);
        }
        a += 1;
    }
    removed
}

fn copy_bytes(bytes: &Vec<u8>) -> (r: Vec<u8>)
    ensures
        r@ == bytes@,
{
    let mut out: Vec<u8> = Vec::new();
    let mut i: usize = 0;
    while i < bytes.len()
        invariant
            i <= bytes@.len(),
            out@ =~= bytes@.take(i as int),
        decreases bytes@.len() - i,
    {
        out.push(bytes[i]);
        i += 1;
    }
    proof {
        assert(bytes@.take(bytes@.len() as int) =~= bytes@);
    }
    out
}

/// Only directories of runs are removed: no file, no link, and no directory
/// that the bot did not make.
pub proof fn only_run_dirs_are_removed(entries: Seq<ArtifactEntry>, keep_newest: nat, removed: Seq<usize>)
    requires
        prunes(entries, keep_newest, removed),
    ensures
        forall|a: int|
            0 <= a < removed.len() ==> (#[trigger] removed[a]) < entries.len() && is_run_dir(
                entries[removed[a] as int],
            ),
        removed.len() == if run_dirs(entries).len() <= keep_newest {
            0
        } else {
            run_dirs(entries).len() - keep_newest
        },
{
    lemma_run_dirs(entries);
    let positions = run_dirs(entries);
    let names = dated_at(entries, positions);
    let pruned = choose|pruned: Seq<usize>|
        {
            &&& #[trigger] is_pruning(names, keep_newest, pruned)
            &&& removed.len() == pruned.len()
            &&& forall|a: int|
                0 <= a < removed.len() ==> (#[trigger] removed[a]) == positions[pruned[a] as int]
        };
    assert forall|a: int| 0 <= a < removed.len() implies (#[trigger] removed[a]) < entries.len()
        && is_run_dir(entries[removed[a] as int]) by {
        assert(pruned[a] < names.len());
        assert(removed[a] == positions[pruned[a] as int]);
    }
}

// ---------------------------------------------------------------------------
// Whether artifacts can be written
// ---------------------------------------------------------------------------

/// How many names are tried for the probe file.
pub const PROBE_ATTEMPTS: u32 = 16;

/// What the probe file holds.
pub const PROBE_TEXT: &'static str = "butler artifact write probe\n";

/// The name of a probe file.
pub open spec fn probe_text(process_id: nat, now_ms: nat, attempt: nat) -> Seq<char> {
    ".butler-write-probe-"@ + decimal(process_id) + "-"@ + decimal(now_ms) + "-"@ + decimal(attempt)
}

/// The name of a probe file.
pub fn probe_name(process_id: u32, now_ms: u128, attempt: u32) -> (r: String)
    ensures
        r@ == probe_text(process_id as nat, now_ms as nat, attempt as nat),
{
    let mut name = text::cat5(
        ".butler-write-probe-",
        text::decimal_u64(process_id as u64).as_str(),
        "-",
        text::decimal_u128(now_ms).as_str(),
        "-",
    );
    name.push_str(text::decimal_u64(attempt as u64).as_str());
    name
}

/// What came of a probe.
#[derive(Clone, Copy, Debug, PartialEq, Eq, Structural)]
pub enum ProbeOutcome {
    /// The directory could not be created.
    NoDirectory,
    /// A file of that name was there.
    NameTaken,
    CouldNotCreate,
    CouldNotWrite,
    CouldNotRemove,
    Removed,
}

/// What follows a probe.
#[verifier::ext_equal]
#[derive(Clone, Debug, PartialEq, Eq)]
pub enum ProbeNext<T = String> {
    /// Probe again, under the name of that attempt.
    Try { attempt: u32 },
    Writable,
    Fail { message: T },
}

impl View for ProbeNext<String> {
    type V = ProbeNext<Seq<char>>;

    open spec fn view(&self) -> ProbeNext<Seq<char>> {
        match *self {
            ProbeNext::Try { attempt } => ProbeNext::Try { attempt },
            ProbeNext::Writable => ProbeNext::Writable,
            ProbeNext::Fail { message } => ProbeNext::Fail { message: message@ },
        }
    }
}

/// What follows a probe in the directory `dir` with the file `probe`.
pub open spec fn probe_next(
    outcome: ProbeOutcome,
    attempt: u32,
    dir: Seq<char>,
    probe: Seq<char>,
) -> ProbeNext<Seq<char>> {
    match outcome {
        ProbeOutcome::NoDirectory => ProbeNext::Fail {
            message: "ArtifactWrite: could not create artifact dir "@ + dir,
        },
        ProbeOutcome::NameTaken => if attempt + 1 < PROBE_ATTEMPTS {
            ProbeNext::Try { attempt: (attempt + 1) as u32 }
        } else {
            ProbeNext::Fail {
                message: "ArtifactWrite: could not create unique artifact probe in "@ + dir,
            }
        },
        ProbeOutcome::CouldNotCreate => ProbeNext::Fail {
            message: "ArtifactWrite: could not create artifact probe in "@ + dir,
        },
        ProbeOutcome::CouldNotWrite => ProbeNext::Fail {
            message: "ArtifactWrite: could not write artifact probe in "@ + dir,
        },
        ProbeOutcome::CouldNotRemove => ProbeNext::Fail {
            message: "ArtifactWrite: could not remove artifact probe "@ + probe,
        },
        ProbeOutcome::Removed => ProbeNext::Writable,
    }
}

/// What follows a probe in the directory `dir` with the file `probe`.
pub fn verify_artifact_dir_writable(
    outcome: ProbeOutcome,
    attempt: u32,
    dir: &str,
    probe: &str,
) -> (r: ProbeNext)
    ensures
        r@ == probe_next(outcome, attempt, dir@, probe@),
{
    match outcome {
        ProbeOutcome::NoDirectory => ProbeNext::Fail {
            message: text::cat2("ArtifactWrite: could not create artifact dir ", dir),
        },
        ProbeOutcome::NameTaken => {
            if attempt < PROBE_ATTEMPTS - 1 {
                ProbeNext::Try { attempt: attempt + 1 }
            } else {
                ProbeNext::Fail {
                    message: text::cat2(
                        "ArtifactWrite: could not create unique artifact probe in ",
                        dir,
                    ),
                }
            }
        },
        ProbeOutcome::CouldNotCreate => ProbeNext::Fail {
            message: text::cat2("ArtifactWrite: could not create artifact probe in ", dir),
        },
        ProbeOutcome::CouldNotWrite => ProbeNext::Fail {
            message: text::cat2("ArtifactWrite: could not write artifact probe in ", dir),
        },
        ProbeOutcome::CouldNotRemove => ProbeNext::Fail {
            message: text::cat2("ArtifactWrite: could not remove artifact probe ", probe),
        },
        ProbeOutcome::Removed => ProbeNext::Writable,
    }
}

/// What is said where a run directory could not be marked.
pub fn marker_failure(run_dir: &str) -> (r: String)
    ensures
        r@ == "ArtifactWrite: could not write marker in "@ + run_dir@,
{
    text::cat2("ArtifactWrite: could not write marker in ", run_dir)
}

/// The newest directories of runs are kept: none that is kept is older than one that is
/// removed.
pub proof fn newest_run_dirs_are_kept(
    entries: Seq<ArtifactEntry>,
    keep_newest: nat,
    removed: Seq<usize>,
    kept: int,
    gone: int,
)
    requires
        prunes(entries, keep_newest, removed),
        0 <= kept < entries.len() <= usize::MAX,
        is_run_dir(entries[kept]),
        !removed.contains(kept as usize),
        0 <= gone < removed.len(),
    ensures
        entries[kept].modified_ns >= entries[removed[gone] as int].modified_ns,
{
    lemma_run_dirs(entries);
    let positions = run_dirs(entries);
    let names = dated_at(entries, positions);
    let pruned = choose|pruned: Seq<usize>|
        {
            &&& #[trigger] is_pruning(names, keep_newest, pruned)
            &&& removed.len() == pruned.len()
            &&& forall|a: int|
                0 <= a < removed.len() ==> (#[trigger] removed[a]) == positions[pruned[a] as int]
        };
    lemma_run_dirs_found(entries, kept);
    let i = choose|i: int| 0 <= i < positions.len() && #[trigger] positions[i] == kept;
    assert(positions.len() <= entries.len()) by {
        lemma_run_dirs_few(entries);
    }
    assert(!pruned.contains(i as usize)) by {
        if pruned.contains(i as usize) {
            let a = choose|a: int| 0 <= a < pruned.len() && pruned[a] == i as usize;
            assert(removed[a] == positions[pruned[a] as int]);
            assert(removed[a] == kept as usize);
        }
    }
    assert(goes_before(names, i, pruned[gone] as int));
    assert(removed[gone] == positions[pruned[gone] as int]);
    assert(names[i] == (entries[kept].modified_ns, entries[kept].name_bytes@));
}

proof fn lemma_run_dirs_found(entries: Seq<ArtifactEntry>, at: int)
    requires
        0 <= at < entries.len(),
        is_run_dir(entries[at]),
    ensures
        exists|i: int| 0 <= i < run_dirs(entries).len() && #[trigger] run_dirs(entries)[i] == at,
    decreases entries.len(),
{
    let before = run_dirs(entries.drop_last());
    if at == entries.len() - 1 {
        assert(run_dirs(entries)[before.len() as int] == at);
    } else {
        lemma_run_dirs_found(entries.drop_last(), at);
        let i = choose|i: int| 0 <= i < before.len() && #[trigger] before[i] == at;
        assert(run_dirs(entries)[i] == at);
    }
}

proof fn lemma_run_dirs_few(entries: Seq<ArtifactEntry>)
    ensures
        run_dirs(entries).len() <= entries.len(),
    decreases entries.len(),
{
    if entries.len() > 0 {
        lemma_run_dirs_few(entries.drop_last());
    }
}

/// A directory counts as that of a run where it bears the marker, or where it is named by
/// a run ID and holds a file of a run; a link never does, and neither does a file.
pub proof fn run_dirs_are_recognized(entry: ArtifactEntry)
    ensures
        !entry.is_dir ==> !is_run_dir(entry),
        entry.is_symlink ==> !is_run_dir(entry),
        entry.is_dir && !entry.is_symlink && entry.has_marker ==> is_run_dir(entry),
        entry.is_dir && !entry.is_symlink && !entry.has_marker ==> (is_run_dir(entry) <==> entry.has_legacy_file && (
        entry.name matches Some(name) && is_run_id(name@))),
{
}

/// A run ID is six small letters and digits.
pub proof fn run_ids_are_six_letters_and_digits(name: Seq<char>)
    ensures
        is_run_id(name) <==> name.len() == 6 && forall|i: int|
            0 <= i < 6 ==> ('a' <= #[trigger] name[i] <= 'z') || ('0' <= name[i] <= '9'),
{
    if is_run_id(name) {
        assert forall|i: int| 0 <= i < 6 implies ('a' <= #[trigger] name[i] <= 'z') || ('0' <= name[i] <= '9') by {
            assert(is_run_id_char(name[i]));
        }
    }
}

/// A directory can be written to where a probe was made and removed. A name that is taken
/// is followed by the next, sixteen in all; anything else fails.
pub proof fn probes_are_tried_sixteen_times(
    outcome: ProbeOutcome,
    attempt: u32,
    dir: Seq<char>,
    probe: Seq<char>,
)
    requires
        attempt < 16,
    ensures
        ({
            let next = probe_next(outcome, attempt, dir, probe);
            &&& next is Writable <==> outcome is Removed
            &&& outcome is NameTaken && attempt < 15 ==> next == (ProbeNext::<Seq<char>>::Try {
                attempt: (attempt + 1) as u32,
            })
            &&& next is Try ==> outcome is NameTaken && attempt < 15
        }),
{
}

} // verus!
