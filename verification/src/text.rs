//! Strings as sequences of characters: the small vocabulary of text
//! operations that the other modules state their contracts with.

use vstd::prelude::*;

verus! {

/// `String::push`: appends the character at the end.
pub assume_specification[ String::push ](string: &mut String, ch: char)
    ensures
        final(string)@ == old(string)@.push(ch),
;

/// `String::push_str`: appends the given text at the end.
pub assume_specification[ String::push_str ](string: &mut String, addition: &str)
    ensures
        final(string)@ == old(string)@ + addition@,
;

/// The characters of an optional string.
pub open spec fn opt_text(value: Option<String>) -> Option<Seq<char>> {
    match value {
        Some(text) => Some(text@),
        None => None,
    }
}

/// The characters of an optional string slice.
pub open spec fn opt_str(value: Option<&str>) -> Option<Seq<char>> {
    match value {
        Some(text) => Some(text@),
        None => None,
    }
}

/// The characters of each string of a list.
pub open spec fn texts(items: Seq<String>) -> Seq<Seq<char>> {
    items.map_values(|item: String| item@)
}

/// The characters of `s` in order.
pub fn chars_of(s: &str) -> (r: Vec<char>)
    ensures
        r@ == s@,
{
    let total: usize = s.unicode_len();
    let mut out: Vec<char> = Vec::new();
    let mut i: usize = 0;
    while i < total
        invariant
            total == s@.len(),
            i <= total,
            out@ == s@.take(i as int),
        decreases total - i,
    {
        out.push(s.get_char(i));
        proof {
            assert(s@.take(i + 1) =~= s@.take(i as int).push(s@[i as int]));
        }
        i += 1;
    }
    proof {
        assert(s@.take(total as int) =~= s@);
    }
    out
}

/// The characters `from..to` of `chars` as a string.
pub fn string_of_range(chars: &Vec<char>, from: usize, to: usize) -> (r: String)
    requires
        from <= to <= chars@.len(),
    ensures
        r@ == chars@.subrange(from as int, to as int),
{
    let mut out = String::new();
    let mut i: usize = from;
    while i < to
        invariant
            from <= i <= to <= chars@.len(),
            out@ == chars@.subrange(from as int, i as int),
        decreases to - i,
    {
        out.push(chars[i]);
        proof {
            assert(chars@.subrange(from as int, i + 1) =~= chars@.subrange(from as int, i as int).push(chars@[i as int]));
        }
        i += 1;
    }
    out
}

/// Whether the two texts hold the same characters.
pub fn same(a: &str, b: &str) -> (r: bool)
    ensures
        r == (a@ == b@),
{
    let left = chars_of(a);
    let right = chars_of(b);
    if left.len() != right.len() {
        return false;
    }
    let mut i: usize = 0;
    while i < left.len()
        invariant
            i <= left@.len(),
            left@.len() == right@.len(),
            left@ == a@,
            right@ == b@,
            forall|j: int| 0 <= j < i ==> left@[j] == right@[j],
        decreases left@.len() - i,
    {
        if left[i] != right[i] {
            return false;
        }
        i += 1;
    }
    proof {
        assert(left@ =~= right@);
    }
    true
}

/// Whether the two optional texts are both absent, or both present and equal.
pub fn same_opt(a: &Option<String>, b: &Option<String>) -> (r: bool)
    ensures
        r == (opt_text(*a) == opt_text(*b)),
{
    match (a, b) {
        (Some(x), Some(y)) => same(x.as_str(), y.as_str()),
        (None, None) => true,
        _ => false,
    }
}

/// A copy of an optional text.
pub fn copy_opt(value: &Option<String>) -> (r: Option<String>)
    ensures
        r == *value,
        opt_text(r) == opt_text(*value),
{
    match value {
        Some(text) => Some(text.clone()),
        None => None,
    }
}

/// The two texts, one behind the other.
pub fn cat2(a: &str, b: &str) -> (r: String)
    ensures
        r@ == a@ + b@,
{
    let mut out = a.to_owned();
    out.push_str(b);
    out
}

/// The three texts, one behind the other.
pub fn cat3(a: &str, b: &str, c: &str) -> (r: String)
    ensures
        r@ == a@ + b@ + c@,
{
    let mut out = cat2(a, b);
    out.push_str(c);
    out
}

/// The four texts, one behind the other.
pub fn cat4(a: &str, b: &str, c: &str, d: &str) -> (r: String)
    ensures
        r@ == a@ + b@ + c@ + d@,
{
    let mut out = cat3(a, b, c);
    out.push_str(d);
    out
}

/// The five texts, one behind the other.
pub fn cat5(a: &str, b: &str, c: &str, d: &str, e: &str) -> (r: String)
    ensures
        r@ == a@ + b@ + c@ + d@ + e@,
{
    let mut out = cat4(a, b, c, d);
    out.push_str(e);
    out
}

// ---------------------------------------------------------------------------
// Whitespace
// ---------------------------------------------------------------------------

/// The characters with Unicode's `White_Space` property.
pub open spec fn is_space(c: char) -> bool {
    ||| '\u{9}' <= c <= '\u{d}'
    ||| c == ' '
    ||| c == '\u{85}'
    ||| c == '\u{a0}'
    ||| c == '\u{1680}'
    ||| '\u{2000}' <= c <= '\u{200a}'
    ||| c == '\u{2028}'
    ||| c == '\u{2029}'
    ||| c == '\u{202f}'
    ||| c == '\u{205f}'
    ||| c == '\u{3000}'
}

/// Whether `c` has Unicode's `White_Space` property.
pub fn char_is_space(c: char) -> (r: bool)
    ensures
        r == is_space(c),
{
    ('\u{9}' <= c && c <= '\u{d}') || c == ' ' || c == '\u{85}' || c == '\u{a0}' || c == '\u{1680}'
        || ('\u{2000}' <= c && c <= '\u{200a}') || c == '\u{2028}' || c == '\u{2029}'
        || c == '\u{202f}' || c == '\u{205f}' || c == '\u{3000}'
}

/// `s` without its leading whitespace.
pub open spec fn trim_start(s: Seq<char>) -> Seq<char>
    decreases s.len(),
{
    if s.len() > 0 && is_space(s[0]) {
        trim_start(s.skip(1))
    } else {
        s
    }
}

/// `s` without its trailing whitespace.
pub open spec fn trim_end(s: Seq<char>) -> Seq<char>
    decreases s.len(),
{
    if s.len() > 0 && is_space(s.last()) {
        trim_end(s.drop_last())
    } else {
        s
    }
}

/// `s` without leading and trailing whitespace.
pub open spec fn trim(s: Seq<char>) -> Seq<char> {
    trim_end(trim_start(s))
}

proof fn lemma_trim_start(s: Seq<char>)
    ensures
        trim_start(s).len() > 0 ==> !is_space(trim_start(s)[0]),
    decreases s.len(),
{
    if s.len() > 0 && is_space(s[0]) {
        lemma_trim_start(s.skip(1));
    }
}

proof fn lemma_trim_end(s: Seq<char>)
    ensures
        trim_end(s).len() <= s.len(),
        trim_end(s) == s.take(trim_end(s).len() as int),
        trim_end(s).len() > 0 ==> !is_space(trim_end(s).last()),
    decreases s.len(),
{
    if s.len() > 0 && is_space(s.last()) {
        lemma_trim_end(s.drop_last());
        assert(s.drop_last().take(trim_end(s).len() as int) =~= s.take(trim_end(s).len() as int));
    }
}

/// A trimmed text has no whitespace at its edges, and trimming it again changes
/// nothing.
pub proof fn trimmed_texts_stay(s: Seq<char>)
    ensures
        trim(s).len() > 0 ==> !is_space(trim(s)[0]) && !is_space(trim(s).last()),
        trim(trim(s)) == trim(s),
{
    lemma_trim_start(s);
    lemma_trim_end(trim_start(s));
    if trim(s).len() > 0 {
        assert(trim(s)[0] == trim_start(s)[0]);
    }
}

/// `s` without leading and trailing whitespace.
pub fn trimmed(s: &str) -> (r: String)
    ensures
        r@ == trim(s@),
{
    let chars = chars_of(s);
    let n: usize = chars.len();
    let mut from: usize = 0;
    proof {
        assert(chars@.skip(0) =~= chars@);
    }
    while from < n && char_is_space(chars[from])
        invariant
            n == chars@.len(),
            from <= n,
            trim_start(chars@) == trim_start(chars@.skip(from as int)),
        decreases n - from,
    {
        proof {
            assert(chars@.skip(from as int).skip(1) =~= chars@.skip(from + 1));
        }
        from += 1;
    }
    let ghost rest = chars@.skip(from as int);
    assert(trim_start(chars@) == rest);
    let mut to: usize = n;
    proof {
        assert(chars@.subrange(from as int, to as int) =~= rest);
    }
    while from < to && char_is_space(chars[to - 1])
        invariant
            n == chars@.len(),
            from <= to <= n,
            trim_end(rest) == trim_end(chars@.subrange(from as int, to as int)),
        decreases to,
    {
        proof {
            assert(chars@.subrange(from as int, to as int).drop_last() =~= chars@.subrange(from as int, to - 1));
        }
        to -= 1;
    }
    string_of_range(&chars, from, to)
}

// ---------------------------------------------------------------------------
// Letters, digits and searching
// ---------------------------------------------------------------------------

/// The lower-case form of an ASCII capital; any other character itself.
pub open spec fn ascii_lower(c: char) -> char {
    if 'A' <= c <= 'Z' {
        ((c as u8) + 32) as u8 as char
    } else {
        c
    }
}

/// The upper case of an ASCII letter; any other character as it is.
pub open spec fn ascii_upper(c: char) -> char {
    if 'a' <= c && c <= 'z' {
        ((c as u32 - 32) as u32) as char
    } else {
        c
    }
}

/// `s` with each ASCII capital in lower case.
pub open spec fn lower(s: Seq<char>) -> Seq<char> {
    s.map_values(|c: char| ascii_lower(c))
}

/// `s` with its ASCII letters in upper case.
pub open spec fn upper(s: Seq<char>) -> Seq<char> {
    s.map_values(|c: char| ascii_upper(c))
}

/// The lower-case form of an ASCII capital; any other character itself.
pub fn char_lower(c: char) -> (r: char)
    ensures
        r == ascii_lower(c),
{
    if 'A' <= c && c <= 'Z' {
        (c as u8 + 32) as char
    } else {
        c
    }
}

/// The upper case of an ASCII letter; any other character as it is.
pub fn char_upper(c: char) -> (r: char)
    ensures
        r == ascii_upper(c),
{
    if 'a' <= c && c <= 'z' {
        let code: u8 = c as u8;
        (code - 32) as char
    } else {
        c
    }
}

/// `s` with each ASCII capital in lower case.
pub fn lowered(s: &str) -> (r: String)
    ensures
        r@ == lower(s@),
{
    let chars = chars_of(s);
    let mut out = String::new();
    let mut i: usize = 0;
    while i < chars.len()
        invariant
            i <= chars@.len(),
            chars@ == s@,
            out@ == lower(s@.take(i as int)),
        decreases chars@.len() - i,
    {
        out.push(char_lower(chars[i]));
        proof {
            assert(lower(s@.take(i + 1)) =~= lower(s@.take(i as int)).push(ascii_lower(s@[i as int])));
        }
        i += 1;
    }
    proof {
        assert(s@.take(chars@.len() as int) =~= s@);
    }
    out
}

/// Whether `a` and `b` differ at most in the case of ASCII letters.
pub fn same_ignoring_case(a: &str, b: &str) -> (r: bool)
    ensures
        r == (lower(a@) == lower(b@)),
{
    let left = lowered(a);
    let right = lowered(b);
    same(left.as_str(), right.as_str())
}

/// Whether `needle` stands in `s` at position `at`.
pub open spec fn occurs_at(s: Seq<char>, needle: Seq<char>, at: int) -> bool {
    &&& 0 <= at
    &&& at + needle.len() <= s.len()
    &&& s.subrange(at, at + needle.len()) == needle
}

/// Whether `needle` stands somewhere in `s`.
pub open spec fn holds(s: Seq<char>, needle: Seq<char>) -> bool {
    exists|at: int| #[trigger] occurs_at(s, needle, at)
}

/// Whether `s` begins with `prefix`.
pub open spec fn begins(s: Seq<char>, prefix: Seq<char>) -> bool {
    occurs_at(s, prefix, 0)
}

/// Whether `s` ends with `suffix`.
pub open spec fn finishes(s: Seq<char>, suffix: Seq<char>) -> bool {
    occurs_at(s, suffix, s.len() - suffix.len())
}

/// Whether `needle` stands in `chars` at position `at`.
pub fn stands_at(chars: &Vec<char>, needle: &Vec<char>, at: usize) -> (r: bool)
    ensures
        r == occurs_at(chars@, needle@, at as int),
{
    if at > chars.len() || needle.len() > chars.len() - at {
        return false;
    }
    let mut i: usize = 0;
    while i < needle.len()
        invariant
            i <= needle@.len(),
            at + needle@.len() <= chars.len(),
            forall|j: int| 0 <= j < i ==> chars@[at + j] == needle@[j],
        decreases needle@.len() - i,
    {
        if chars[at + i] != needle[i] {
            proof {
                assert(chars@.subrange(at as int, at + needle@.len())[i as int] == chars@[at + i]);
            }
            return false;
        }
        i += 1;
    }
    proof {
        assert(chars@.subrange(at as int, at + needle@.len()) =~= needle@);
    }
    true
}

/// The first position at which `needle` stands in `chars`.
pub fn find(chars: &Vec<char>, needle: &Vec<char>) -> (r: Option<usize>)
    ensures
        match r {
            Some(at) => occurs_at(chars@, needle@, at as int) && forall|j: int|
                0 <= j < at ==> !#[trigger] occurs_at(chars@, needle@, j),
            None => !holds(chars@, needle@),
        },
{
    let n: usize = chars.len();
    let mut at: usize = 0;
    while at < n
        invariant
            n == chars@.len(),
            at <= n,
            forall|j: int| 0 <= j < at ==> !#[trigger] occurs_at(chars@, needle@, j),
        decreases n - at,
    {
        if stands_at(chars, needle, at) {
            return Some(at);
        }
        at += 1;
    }
    if stands_at(chars, needle, n) {
        return Some(n);
    }
    None
}

/// Whether `needle` stands somewhere in `s`.
pub fn contains(s: &str, needle: &str) -> (r: bool)
    ensures
        r == holds(s@, needle@),
{
    let chars = chars_of(s);
    let part = chars_of(needle);
    match find(&chars, &part) {
        Some(_) => true,
        None => false,
    }
}

/// Whether `s` begins with `prefix`.
pub fn starts_with(s: &str, prefix: &str) -> (r: bool)
    ensures
        r == begins(s@, prefix@),
{
    let chars = chars_of(s);
    let part = chars_of(prefix);
    stands_at(&chars, &part, 0)
}

/// Whether `s` ends with `suffix`.
pub fn ends_with(s: &str, suffix: &str) -> (r: bool)
    ensures
        r == finishes(s@, suffix@),
{
    let chars = chars_of(s);
    let part = chars_of(suffix);
    if part.len() > chars.len() {
        return false;
    }
    stands_at(&chars, &part, chars.len() - part.len())
}

/// The position of the first `c` in `s`, or the length of `s` where there is
/// none.
pub open spec fn first_index(s: Seq<char>, c: char) -> int
    decreases s.len(),
{
    if s.len() == 0 || s[0] == c {
        0
    } else {
        1 + first_index(s.skip(1), c)
    }
}

/// The position of the first `c` in `chars`, or their number where there is
/// none.
pub fn find_char(chars: &Vec<char>, c: char) -> (r: usize)
    ensures
        r == first_index(chars@, c),
        r <= chars@.len(),
{
    let mut i: usize = 0;
    proof {
        assert(chars@.skip(0) =~= chars@);
    }
    while i < chars.len()
        invariant
            i <= chars@.len(),
            first_index(chars@, c) == i + first_index(chars@.skip(i as int), c),
        decreases chars@.len() - i,
    {
        if chars[i] == c {
            return i;
        }
        proof {
            assert(chars@.skip(i as int).skip(1) =~= chars@.skip(i + 1));
        }
        i += 1;
    }
    i
}

// ---------------------------------------------------------------------------
// Splitting and joining
// ---------------------------------------------------------------------------

/// The pieces of `s` between the occurrences of `mark`; always at least one.
pub open spec fn split_on(s: Seq<char>, mark: char) -> Seq<Seq<char>>
    decreases s.len(),
{
    if s.len() == 0 {
        seq![s]
    } else {
        let before = split_on(s.drop_last(), mark);
        if s.last() == mark {
            before.push(Seq::empty())
        } else {
            before.drop_last().push(before.last().push(s.last()))
        }
    }
}

pub proof fn lemma_split_on_nonempty(s: Seq<char>, mark: char)
    ensures
        split_on(s, mark).len() >= 1,
    decreases s.len(),
{
    if s.len() > 0 {
        lemma_split_on_nonempty(s.drop_last(), mark);
    }
}

/// The pieces of `s` between the occurrences of `mark`.
pub fn split_at_mark(s: &str, mark: char) -> (r: Vec<String>)
    ensures
        texts(r@) == split_on(s@, mark),
        r@.len() >= 1,
{
    let chars = chars_of(s);
    let mut done: Vec<String> = Vec::new();
    let mut current = String::new();
    let mut i: usize = 0;
    proof {
        assert(current@ =~= s@.take(0));
        assert(texts(done@).push(current@) =~= split_on(s@.take(0), mark));
    }
    while i < chars.len()
        invariant
            i <= chars@.len(),
            chars@ == s@,
            texts(done@).push(current@) == split_on(s@.take(i as int), mark),
        decreases chars@.len() - i,
    {
        let c: char = chars[i];
        let ghost before = texts(done@).push(current@);
        proof {
            assert(s@.take(i + 1).drop_last() =~= s@.take(i as int));
            assert(before.drop_last() =~= texts(done@));
        }
        if c == mark {
            let ghost old_done = done@;
            done.push(current);
            current = String::new();
            proof {
                assert(texts(done@) =~= before);
                assert(current@ =~= Seq::<char>::empty());
            }
        } else {
            current.push(c);
        }
        i += 1;
    }
    let ghost old_done = done@;
    done.push(current);
    proof {
        assert(s@.take(chars@.len() as int) =~= s@);
        assert(texts(done@) =~= texts(old_done).push(current@));
    }
    done
}

/// The words of `s`: its maximal runs of characters that are not whitespace.
/// The second part is the run that reaches the end, possibly empty.
pub open spec fn words_and_rest(s: Seq<char>) -> (Seq<Seq<char>>, Seq<char>)
    decreases s.len(),
{
    if s.len() == 0 {
        (Seq::empty(), Seq::empty())
    } else {
        let (words, rest) = words_and_rest(s.drop_last());
        if !is_space(s.last()) {
            (words, rest.push(s.last()))
        } else if rest.len() > 0 {
            (words.push(rest), Seq::empty())
        } else {
            (words, rest)
        }
    }
}

/// The words of `s` in order: its maximal runs of characters that are not
/// whitespace.
pub open spec fn words(s: Seq<char>) -> Seq<Seq<char>> {
    let (done, rest) = words_and_rest(s);
    if rest.len() > 0 {
        done.push(rest)
    } else {
        done
    }
}

/// Whether `s` is words with one space between each two, and nothing else.
pub open spec fn is_tidy(s: Seq<char>) -> bool {
    &&& s.len() > 0 ==> !is_space(s[0]) && !is_space(s.last())
    &&& forall|i: int| 0 <= i < s.len() && is_space(#[trigger] s[i]) ==> s[i] == ' '
    &&& forall|i: int| 0 <= i < s.len() - 1 && is_space(#[trigger] s[i]) ==> !is_space(s[i + 1])
}

proof fn lemma_words_are_not_empty(s: Seq<char>)
    ensures
        forall|i: int| 0 <= i < words_and_rest(s).0.len() ==> (#[trigger] words_and_rest(s).0[i]).len() > 0,
    decreases s.len(),
{
    if s.len() > 0 {
        lemma_words_are_not_empty(s.drop_last());
        let earlier = words_and_rest(s.drop_last()).0;
        assert forall|i: int| 0 <= i < words_and_rest(s).0.len() implies (#[trigger] words_and_rest(
            s,
        ).0[i]).len() > 0 by {
            if i < earlier.len() {
                assert(words_and_rest(s).0[i] == earlier[i]);
            }
        }
    }
}

proof fn lemma_joined_tidily(parts: Seq<Seq<char>>)
    requires
        forall|i: int|
            0 <= i < parts.len() ==> (#[trigger] parts[i]).len() > 0 && every(parts[i], |c: char| !is_space(c)),
    ensures
        is_tidy(join(parts, seq![' '])),
        parts.len() > 0 ==> join(parts, seq![' ']).len() > 0,
    decreases parts.len(),
{
    if parts.len() == 1 {
        assert(every(parts[0], |c: char| !is_space(c)));
    } else if parts.len() > 1 {
        let before = join(parts.drop_last(), seq![' ']);
        let last = parts.last();
        lemma_joined_tidily(parts.drop_last());
        let whole = join(parts, seq![' ']);
        assert(whole =~= before.push(' ') + last);
        assert(every(last, |c: char| !is_space(c)));
        assert forall|i: int| 0 <= i < whole.len() && is_space(#[trigger] whole[i]) implies whole[i] == ' ' && (i + 1
            < whole.len() ==> !is_space(whole[i + 1])) by {
            if i < before.len() {
                assert(whole[i] == before[i]);
                if i + 1 < before.len() {
                    assert(whole[i + 1] == before[i + 1]);
                } else {
                    assert(before[i] == before.last());
                }
            } else if i > before.len() {
                assert(whole[i] == last[i - before.len() - 1]);
            } else {
                assert(whole[i + 1] == last[0]);
            }
        }
        assert(whole[0] == before[0]);
        assert(whole.last() == last.last());
    }
}

/// The words of a text, with one space between each two, are tidy.
pub proof fn joined_words_are_tidy(s: Seq<char>)
    ensures
        is_tidy(join(words(s), seq![' '])),
{
    lemma_every_word(s);
    lemma_words_are_not_empty(s);
    lemma_joined_tidily(words(s));
}

proof fn lemma_tidy_beginning(s: Seq<char>, n: int)
    requires
        is_tidy(s),
        0 <= n <= s.len(),
    ensures
        ({
            let (done, rest) = words_and_rest(s.take(n));
            if n == 0 {
                done.len() == 0 && rest.len() == 0
            } else if is_space(s[n - 1]) {
                rest.len() == 0 && done.len() > 0 && join(done, seq![' ']).push(' ') == s.take(n)
            } else {
                rest.len() > 0 && join(done.push(rest), seq![' ']) == s.take(n)
            }
        }),
    decreases n,
{
    if n > 0 {
        lemma_tidy_beginning(s, n - 1);
        let shorter = s.take(n - 1);
        let longer = s.take(n);
        assert(longer.drop_last() =~= shorter);
        assert(longer.last() == s[n - 1]);
        let (done, rest) = words_and_rest(shorter);
        let c = s[n - 1];
        if is_space(c) {
            assert(n > 1);
            assert(!is_space(s[n - 2]));
            assert(shorter.push(' ') =~= longer);
        } else if n == 1 {
            assert(done.push(rest.push(c)) =~= seq![rest.push(c)]);
            assert(join(done.push(rest.push(c)), seq![' ']) =~= longer);
        } else {
            let grown = done.push(rest.push(c));
            assert(grown.drop_last() =~= done);
            assert(done.push(rest).drop_last() =~= done);
            assert(join(grown, seq![' ']) =~= longer);
        }
    }
}

/// The words of a tidy text, with one space between each two, are the text.
pub proof fn tidy_texts_are_their_words(s: Seq<char>)
    requires
        is_tidy(s),
    ensures
        join(words(s), seq![' ']) == s,
{
    lemma_tidy_beginning(s, s.len() as int);
    assert(s.take(s.len() as int) =~= s);
}

/// The words of `s` in order.
pub fn split_words(s: &str) -> (r: Vec<String>)
    ensures
        texts(r@) == words(s@),
{
    let chars = chars_of(s);
    let mut done: Vec<String> = Vec::new();
    let mut current = String::new();
    let mut held: usize = 0;
    let mut i: usize = 0;
    proof {
        assert(texts(done@) =~= Seq::<Seq<char>>::empty());
        assert(current@ =~= Seq::<char>::empty());
    }
    while i < chars.len()
        invariant
            i <= chars@.len(),
            chars@ == s@,
            held == current@.len(),
            held <= i,
            texts(done@) == words_and_rest(s@.take(i as int)).0,
            current@ == words_and_rest(s@.take(i as int)).1,
        decreases chars@.len() - i,
    {
        let c: char = chars[i];
        proof {
            assert(s@.take(i + 1).drop_last() =~= s@.take(i as int));
        }
        if !char_is_space(c) {
            current.push(c);
            held += 1;
        } else if held > 0 {
            let ghost old_done = done@;
            let ghost word = current@;
            done.push(current);
            current = String::new();
            held = 0;
            proof {
                assert(texts(done@) =~= texts(old_done).push(word));
                assert(current@ =~= Seq::<char>::empty());
            }
        }
        i += 1;
    }
    proof {
        assert(s@.take(chars@.len() as int) =~= s@);
    }
    if held > 0 {
        let ghost old_done = done@;
        done.push(current);
        proof {
            assert(texts(done@) =~= texts(old_done).push(current@));
        }
    }
    done
}

/// An empty list of texts.
pub fn no_texts() -> (r: Vec<String>)
    ensures
        texts(r@) == Seq::<Seq<char>>::empty(),
{
    let r: Vec<String> = Vec::new();
    proof {
        assert(texts(r@) =~= Seq::<Seq<char>>::empty());
    }
    r
}

/// Puts `item` behind the other texts.
pub fn add_text(items: &mut Vec<String>, item: String)
    ensures
        texts(final(items)@) == texts(old(items)@) + seq![item@],
{
    let ghost before = items@;
    items.push(item);
    proof {
        assert(texts(before.push(item)) =~= texts(before) + seq![item@]);
    }
}

/// A copy of each text.
pub fn copy_all(items: &Vec<String>) -> (r: Vec<String>)
    ensures
        texts(r@) == texts(items@),
{
    let mut out = no_texts();
    let mut i: usize = 0;
    proof {
        assert(texts(items@).take(0) =~= Seq::<Seq<char>>::empty());
    }
    while i < items.len()
        invariant
            i <= items@.len(),
            texts(out@) == texts(items@).take(i as int),
        decreases items@.len() - i,
    {
        add_text(&mut out, items[i].clone());
        proof {
            assert(texts(items@).take(i + 1) =~= texts(items@).take(i as int) + seq![items@[i as int]@]);
        }
        i += 1;
    }
    proof {
        assert(texts(items@).take(items@.len() as int) =~= texts(items@));
    }
    out
}

/// The text as a list of one, or the empty list where it is not wanted.
pub open spec fn only_if(wanted: bool, value: Seq<char>) -> Seq<Seq<char>> {
    if wanted {
        seq![value]
    } else {
        Seq::empty()
    }
}

/// The parts, with `mark` between each two neighbours.
pub open spec fn join(parts: Seq<Seq<char>>, mark: Seq<char>) -> Seq<char>
    decreases parts.len(),
{
    if parts.len() == 0 {
        Seq::empty()
    } else if parts.len() == 1 {
        parts[0]
    } else {
        join(parts.drop_last(), mark) + mark + parts.last()
    }
}

/// Whether `s` holds no `mark`.
pub open spec fn lacks(s: Seq<char>, mark: char) -> bool {
    forall|i: int| 0 <= i < s.len() ==> #[trigger] s[i] != mark
}

/// The pieces of a text, put together again, are the text.
pub proof fn joined_pieces_are_the_whole(s: Seq<char>, mark: char)
    ensures
        join(split_on(s, mark), seq![mark]) == s,
    decreases s.len(),
{
    let between = seq![mark];
    let pieces = split_on(s, mark);
    if s.len() > 0 {
        let rest = s.drop_last();
        let before = split_on(rest, mark);
        joined_pieces_are_the_whole(rest, mark);
        lemma_split_on_nonempty(rest, mark);
        if s.last() == mark {
            assert(pieces.drop_last() =~= before);
            assert(join(pieces, between) =~= rest + between);
            assert(s =~= rest + between);
        } else {
            assert(pieces.drop_last() =~= before.drop_last());
            assert(join(pieces, between) =~= join(before, between).push(s.last()));
            assert(s =~= rest.push(s.last()));
        }
    }
}

proof fn lemma_split_piece(s: Seq<char>, mark: char, piece: Seq<char>)
    requires
        lacks(piece, mark),
    ensures
        split_on(s.push(mark) + piece, mark) == split_on(s, mark).push(piece),
    decreases piece.len(),
{
    let whole = s.push(mark) + piece;
    if piece.len() == 0 {
        assert(whole =~= s.push(mark));
        assert(whole.drop_last() =~= s);
        assert(piece =~= Seq::<char>::empty());
    } else {
        let less = piece.drop_last();
        lemma_split_piece(s, mark, less);
        assert(whole.drop_last() =~= s.push(mark) + less);
        assert(whole.last() == piece.last());
        assert(less.push(piece.last()) =~= piece);
        assert(split_on(whole, mark) =~= split_on(s, mark).push(piece));
    }
}

proof fn lemma_split_whole(s: Seq<char>, mark: char)
    requires
        lacks(s, mark),
    ensures
        split_on(s, mark) == seq![s],
    decreases s.len(),
{
    if s.len() > 0 {
        lemma_split_whole(s.drop_last(), mark);
        assert(s.drop_last().push(s.last()) =~= s);
        assert(split_on(s, mark) =~= seq![s]);
    }
}

/// The pieces of a text hold no mark.
pub proof fn pieces_lack_the_mark(s: Seq<char>, mark: char)
    ensures
        forall|i: int| 0 <= i < split_on(s, mark).len() ==> lacks(#[trigger] split_on(s, mark)[i], mark),
    decreases s.len(),
{
    if s.len() > 0 {
        pieces_lack_the_mark(s.drop_last(), mark);
        lemma_split_on_nonempty(s.drop_last(), mark);
    }
}

/// The first piece of a text is what stands before its first mark.
pub proof fn first_piece_is_what_stands_before(first: Seq<char>, mark: char, rest: Seq<char>)
    requires
        lacks(first, mark),
    ensures
        split_on(first.push(mark) + rest, mark).len() >= 2,
        split_on(first.push(mark) + rest, mark)[0] == first,
    decreases rest.len(),
{
    let whole = first.push(mark) + rest;
    if rest.len() == 0 {
        lemma_split_whole(first, mark);
        assert(whole =~= first.push(mark));
        assert(whole.drop_last() =~= first);
    } else {
        first_piece_is_what_stands_before(first, mark, rest.drop_last());
        assert(whole.drop_last() =~= first.push(mark) + rest.drop_last());
        assert(whole.last() == rest.last());
    }
}

/// A text without the mark is its only piece.
pub proof fn uncut_without_the_mark(s: Seq<char>, mark: char)
    requires
        lacks(s, mark),
    ensures
        split_on(s, mark) == seq![s],
{
    lemma_split_whole(s, mark);
}

/// A text without whitespace is trimmed already.
pub proof fn texts_without_space_stay(s: Seq<char>)
    requires
        every(s, |c: char| !is_space(c)),
    ensures
        trim(s) == s,
{
    if s.len() > 0 {
        assert(!is_space(s[0]) && !is_space(s[s.len() - 1]));
    }
}

/// Texts without the mark, put together with it, are taken apart again.
pub proof fn joined_parts_are_found_again(parts: Seq<Seq<char>>, mark: char)
    requires
        parts.len() > 0,
        forall|i: int| 0 <= i < parts.len() ==> lacks(#[trigger] parts[i], mark),
    ensures
        split_on(join(parts, seq![mark]), mark) == parts,
    decreases parts.len(),
{
    if parts.len() == 1 {
        lemma_split_whole(parts[0], mark);
        assert(parts =~= seq![parts[0]]);
    } else {
        let before = parts.drop_last();
        joined_parts_are_found_again(before, mark);
        let start = join(before, seq![mark]);
        lemma_split_piece(start, mark, parts.last());
        assert(start + seq![mark] + parts.last() =~= start.push(mark) + parts.last());
        assert(before.push(parts.last()) =~= parts);
    }
}

/// The parts, with `mark` between each two neighbours.
pub fn joined(parts: &Vec<String>, mark: &str) -> (r: String)
    ensures
        r@ == join(texts(parts@), mark@),
{
    let mut out = String::new();
    let mut i: usize = 0;
    proof {
        assert(texts(parts@).take(0) =~= Seq::<Seq<char>>::empty());
        assert(out@ =~= Seq::<char>::empty());
    }
    while i < parts.len()
        invariant
            i <= parts@.len(),
            out@ == join(texts(parts@).take(i as int), mark@),
        decreases parts@.len() - i,
    {
        proof {
            assert(texts(parts@).take(i + 1).drop_last() =~= texts(parts@).take(i as int));
            assert(texts(parts@).take(i + 1).last() == parts@[i as int]@);
        }
        if i > 0 {
            out.push_str(mark);
        }
        out.push_str(parts[i].as_str());
        proof {
            if i == 0 {
                assert(out@ =~= parts@[0]@);
            }
        }
        i += 1;
    }
    proof {
        assert(texts(parts@).take(parts@.len() as int) =~= texts(parts@));
    }
    out
}

/// `s` with every occurrence of the character `from` replaced by `to`.
pub open spec fn replace_char(s: Seq<char>, from: char, to: Seq<char>) -> Seq<char>
    decreases s.len(),
{
    if s.len() == 0 {
        s
    } else if s.last() == from {
        replace_char(s.drop_last(), from, to) + to
    } else {
        replace_char(s.drop_last(), from, to).push(s.last())
    }
}

/// `s` with every occurrence of the character `from` replaced by `to`.
pub fn replaced(s: &str, from: char, to: &str) -> (r: String)
    ensures
        r@ == replace_char(s@, from, to@),
{
    let chars = chars_of(s);
    let mut out = String::new();
    let mut i: usize = 0;
    proof {
        assert(out@ =~= s@.take(0));
    }
    while i < chars.len()
        invariant
            i <= chars@.len(),
            chars@ == s@,
            out@ == replace_char(s@.take(i as int), from, to@),
        decreases chars@.len() - i,
    {
        let c: char = chars[i];
        proof {
            assert(s@.take(i + 1).drop_last() =~= s@.take(i as int));
        }
        if c == from {
            out.push_str(to);
        } else {
            out.push(c);
        }
        i += 1;
    }
    proof {
        assert(s@.take(chars@.len() as int) =~= s@);
    }
    out
}

/// Whether every character of `s` is allowed.
pub open spec fn every(s: Seq<char>, allowed: spec_fn(char) -> bool) -> bool {
    forall|i: int| 0 <= i < s.len() ==> allowed(#[trigger] s[i])
}

/// Words hold no whitespace.
pub proof fn lemma_every_word(s: Seq<char>)
    ensures
        forall|i: int| 0 <= i < words(s).len() ==> every(#[trigger] words(s)[i], |c: char| !is_space(c)),
{
    lemma_every_word_and_rest(s);
}

proof fn lemma_every_word_and_rest(s: Seq<char>)
    ensures
        forall|i: int|
            0 <= i < words_and_rest(s).0.len() ==> every(
                #[trigger] words_and_rest(s).0[i],
                |c: char| !is_space(c),
            ),
        every(words_and_rest(s).1, |c: char| !is_space(c)),
    decreases s.len(),
{
    if s.len() > 0 {
        lemma_every_word_and_rest(s.drop_last());
    }
}

/// Joined parts hold the characters of the parts and of the mark alone.
pub proof fn lemma_every_joined(parts: Seq<Seq<char>>, mark: Seq<char>, allowed: spec_fn(char) -> bool)
    requires
        forall|i: int| 0 <= i < parts.len() ==> every(#[trigger] parts[i], allowed),
        every(mark, allowed),
    ensures
        every(join(parts, mark), allowed),
    decreases parts.len(),
{
    if parts.len() > 1 {
        lemma_every_joined(parts.drop_last(), mark, allowed);
        assert(every(parts.last(), allowed));
    }
}

/// After a replacement the text holds what it held besides, and the replacement.
pub proof fn lemma_every_replaced(s: Seq<char>, from: char, to: Seq<char>, allowed: spec_fn(char) -> bool)
    requires
        every(s, |c: char| c == from || allowed(c)),
        every(to, allowed),
    ensures
        every(replace_char(s, from, to), allowed),
    decreases s.len(),
{
    if s.len() > 0 {
        assert forall|i: int| 0 <= i < s.drop_last().len() implies #[trigger] s.drop_last()[i] == from || allowed(
            s.drop_last()[i],
        ) by {
            assert(s.drop_last()[i] == s[i]);
        }
        lemma_every_replaced(s.drop_last(), from, to, allowed);
        assert(s.last() == s[s.len() - 1]);
    }
}

/// A character for a character keeps the length, and every other character
/// where it was.
pub proof fn lemma_replaced_one(s: Seq<char>, from: char, to: char)
    ensures
        replace_char(s, from, seq![to]).len() == s.len(),
        forall|i: int|
            0 <= i < s.len() ==> #[trigger] replace_char(s, from, seq![to])[i] == if s[i] == from {
                to
            } else {
                s[i]
            },
    decreases s.len(),
{
    if s.len() > 0 {
        lemma_replaced_one(s.drop_last(), from, to);
    }
}

/// The first `limit` characters of `s`, or all of it where it is shorter.
pub open spec fn clip(s: Seq<char>, limit: nat) -> Seq<char> {
    if s.len() <= limit {
        s
    } else {
        s.take(limit as int)
    }
}

/// The first `limit` characters of `s`, or all of it where it is shorter.
pub fn clipped(s: &str, limit: usize) -> (r: String)
    ensures
        r@ == clip(s@, limit as nat),
{
    let chars = chars_of(s);
    let n: usize = if chars.len() <= limit { chars.len() } else { limit };
    let r = string_of_range(&chars, 0, n);
    proof {
        assert(r@ =~= clip(s@, limit as nat));
    }
    r
}

// ---------------------------------------------------------------------------
// Numbers
// ---------------------------------------------------------------------------

/// The digit character of a number below ten.
pub open spec fn digit(n: nat) -> char {
    (48 + n) as u8 as char
}

/// The decimal digits of `n`, without leading zeros.
pub open spec fn decimal(n: nat) -> Seq<char>
    decreases n,
{
    if n < 10 {
        seq![digit(n)]
    } else {
        decimal(n / 10).push(digit(n % 10))
    }
}

/// The decimal digits of `n`.
pub fn decimal_u128(n: u128) -> (r: String)
    ensures
        r@ == decimal(n as nat),
    decreases n,
{
    let d: u8 = (n % 10) as u8;
    let c: char = (48 + d) as char;
    if n < 10 {
        let mut out = String::new();
        out.push(c);
        proof {
            assert(out@ =~= seq![digit(n as nat)]);
        }
        out
    } else {
        let mut out = decimal_u128(n / 10);
        out.push(c);
        out
    }
}

/// The decimal digits of `n`.
pub fn decimal_u64(n: u64) -> (r: String)
    ensures
        r@ == decimal(n as nat),
{
    decimal_u128(n as u128)
}

/// The decimal digits of `n`.
pub fn decimal_usize(n: usize) -> (r: String)
    ensures
        r@ == decimal(n as nat),
{
    decimal_u128(n as u128)
}

/// `n` in at least two digits.
pub open spec fn two_digits(n: nat) -> Seq<char> {
    if n < 10 {
        seq!['0'] + decimal(n)
    } else {
        decimal(n)
    }
}

/// `n` in at least two digits.
pub fn padded_two(n: u64) -> (r: String)
    ensures
        r@ == two_digits(n as nat),
{
    let digits = decimal_u64(n);
    if n < 10 {
        let mut out = String::new();
        out.push('0');
        out.push_str(digits.as_str());
        proof {
            assert(out@ =~= seq!['0'] + digits@);
        }
        out
    } else {
        digits
    }
}

/// Whether `c` is an ASCII digit.
pub open spec fn is_digit(c: char) -> bool {
    '0' <= c <= '9'
}

/// The number that the ASCII digits of `s` write in base ten.
pub open spec fn decimal_value(s: Seq<char>) -> nat
    decreases s.len(),
{
    if s.len() == 0 {
        0
    } else {
        decimal_value(s.drop_last()) * 10 + (s.last() as nat - 48) as nat
    }
}

/// Whether `s` is one or more ASCII digits.
pub open spec fn all_digits(s: Seq<char>) -> bool {
    s.len() > 0 && forall|i: int| 0 <= i < s.len() ==> is_digit(#[trigger] s[i])
}

/// `s` without one leading plus sign.
pub open spec fn without_plus(s: Seq<char>) -> Seq<char> {
    if s.len() > 0 && s[0] == '+' {
        s.skip(1)
    } else {
        s
    }
}

/// The unsigned integer that `s` writes: an optional plus sign, then decimal
/// digits, with a value of at most `max`.
pub open spec fn parse_number(s: Seq<char>, max: nat) -> Option<nat> {
    let digits = without_plus(s);
    if all_digits(digits) && decimal_value(digits) <= max {
        Some(decimal_value(digits))
    } else {
        None
    }
}

proof fn lemma_decimal_value_grows(s: Seq<char>, n: int)
    requires
        0 <= n <= s.len(),
    ensures
        decimal_value(s.take(n)) <= decimal_value(s),
    decreases s.len(),
{
    if n < s.len() {
        lemma_decimal_value_grows(s.drop_last(), n);
        assert(s.drop_last().take(n) =~= s.take(n));
    } else {
        assert(s.take(n) =~= s);
    }
}

/// Reads an unsigned integer of at most `max`.
pub fn parse_unsigned(s: &str, max: u64) -> (r: Option<u64>)
    ensures
        match r {
            Some(n) => parse_number(s@, max as nat) == Some(n as nat),
            None => parse_number(s@, max as nat) is None,
        },
{
    let chars = chars_of(s);
    let n: usize = chars.len();
    let start: usize = if n > 0 && chars[0] == '+' { 1 } else { 0 };
    let ghost digits = without_plus(s@);
    proof {
        assert(digits =~= s@.skip(start as int));
    }
    if start == n {
        return None;
    }
    let mut value: u64 = 0;
    let mut i: usize = start;
    while i < n
        invariant
            n == chars@.len(),
            chars@ == s@,
            start <= i <= n,
            digits == s@.skip(start as int),
            digits == without_plus(s@),
            digits.len() == n - start,
            value <= max,
            value == decimal_value(digits.take(i - start)),
            forall|j: int| 0 <= j < i - start ==> is_digit(#[trigger] digits[j]),
        decreases n - i,
    {
        let c: char = chars[i];
        let ghost k = i - start;
        assert(digits[k] == c);
        if !('0' <= c && c <= '9') {
            return None;
        }
        let d: u64 = (c as u64) - 48;
        proof {
            assert(digits.take(k + 1).drop_last() =~= digits.take(k));
            assert(digits.take(k + 1).last() == c);
            assert(decimal_value(digits.take(k + 1)) == value * 10 + d);
            lemma_decimal_value_grows(digits, k + 1);
        }
        if value > max / 10 || d > max - value * 10 {
            return None;
        }
        value = value * 10 + d;
        i += 1;
    }
    proof {
        assert(digits.take(n - start) =~= digits);
    }
    Some(value)
}

/// Writing a number in decimal and reading it back gives the number, wherever
/// it is within the bound.
pub proof fn parse_reads_back_decimal(n: nat, max: nat)
    requires
        n <= max,
    ensures
        parse_number(decimal(n), max) == Some(n),
{
    lemma_decimal_digits(n);
    assert(without_plus(decimal(n)) =~= decimal(n));
}

/// A decimal number is made of digits, and they have its value.
pub proof fn lemma_decimal_digits(n: nat)
    ensures
        all_digits(decimal(n)),
        decimal_value(decimal(n)) == n,
    decreases n,
{
    reveal_with_fuel(decimal_value, 2);
    if n >= 10 {
        lemma_decimal_digits(n / 10);
        assert(decimal(n).drop_last() =~= decimal(n / 10));
    } else {
        assert(decimal(n).drop_last() =~= Seq::<char>::empty());
    }
}

/// A character is first found where it stands and nowhere before.
pub proof fn lemma_first_index(s: Seq<char>, c: char, at: int)
    requires
        0 <= at < s.len(),
        s[at] == c,
        forall|i: int| 0 <= i < at ==> (#[trigger] s[i]) != c,
    ensures
        first_index(s, c) == at,
    decreases at,
{
    if at > 0 {
        let rest = s.skip(1);
        assert forall|i: int| 0 <= i < at - 1 implies (#[trigger] rest[i]) != c by {
            assert(rest[i] == s[i + 1]);
        }
        assert(s[0] != c);
        lemma_first_index(rest, c, at - 1);
    }
}

/// Trimming takes whitespace from the edges and nothing else: what is left stands in the
/// text, with nothing but whitespace before and behind it.
pub proof fn trimming_takes_whitespace_only(s: Seq<char>)
    ensures
        exists|from: int, to: int|
            0 <= from <= to <= s.len() && trim(s) == #[trigger] s.subrange(from, to) && every(
                s.take(from),
                |c: char| is_space(c),
            ) && every(s.skip(to), |c: char| is_space(c)),
{
    let from = lemma_trimmed_front(s);
    let rest = trim_start(s);
    let kept = lemma_trimmed_back(rest);
    let to = from + kept;
    assert(trim(s) =~= s.subrange(from, to));
    assert forall|i: int| 0 <= i < s.skip(to).len() implies is_space(#[trigger] s.skip(to)[i]) by {
        assert(s.skip(to)[i] == rest.skip(kept)[i]);
    }
}

proof fn lemma_trimmed_front(s: Seq<char>) -> (from: int)
    ensures
        0 <= from <= s.len(),
        trim_start(s) == s.skip(from),
        every(s.take(from), |c: char| is_space(c)),
    decreases s.len(),
{
    if s.len() > 0 && is_space(s[0]) {
        let rest = s.skip(1);
        let from = lemma_trimmed_front(rest);
        assert(rest.skip(from) =~= s.skip(from + 1));
        assert forall|i: int| 0 <= i < from + 1 implies is_space(#[trigger] s.take(from + 1)[i]) by {
            if i > 0 {
                assert(is_space(rest.take(from)[i - 1]));
                assert(s.take(from + 1)[i] == rest.take(from)[i - 1]);
            }
        }
        from + 1
    } else {
        assert(s.skip(0) =~= s);
        0
    }
}

proof fn lemma_trimmed_back(s: Seq<char>) -> (kept: int)
    ensures
        0 <= kept <= s.len(),
        trim_end(s) == s.take(kept),
        every(s.skip(kept), |c: char| is_space(c)),
    decreases s.len(),
{
    if s.len() > 0 && is_space(s.last()) {
        let rest = s.drop_last();
        let kept = lemma_trimmed_back(rest);
        assert(rest.take(kept) =~= s.take(kept));
        assert forall|i: int| 0 <= i < s.skip(kept).len() implies is_space(#[trigger] s.skip(kept)[i]) by {
            if i < rest.skip(kept).len() {
                assert(is_space(rest.skip(kept)[i]));
                assert(s.skip(kept)[i] == rest.skip(kept)[i]);
            }
        }
        kept
    } else {
        assert(s.take(s.len() as int) =~= s);
        s.len() as int
    }
}

/// Letters are compared without their case: capitals become small letters, each its own,
/// and nothing else changes.
pub proof fn capitals_become_small(s: Seq<char>, i: int)
    requires
        0 <= i < s.len(),
    ensures
        lower(s).len() == s.len(),
        'A' <= s[i] <= 'Z' ==> lower(s)[i] as u32 == s[i] as u32 + 32,
        !('A' <= s[i] <= 'Z') ==> lower(s)[i] == s[i],
        lower(lower(s)) == lower(s),
{
    assert(lower(lower(s)) =~= lower(s));
}

} // verus!
