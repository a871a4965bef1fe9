//! The lines that the bot writes to its terminal.

use vstd::prelude::*;
use crate::minecraft::ServerStatus;
use crate::run_history::RunContext;
use crate::text;
use crate::text::{
    decimal, every, is_space, is_tidy, join, joined_words_are_tidy, lemma_every_joined,
    lemma_every_replaced, lemma_every_word, lemma_replaced_one, lower, only_if, opt_str, replace_char,
    texts, tidy_texts_are_their_words, trim, two_digits, words,
};

verus! {

/// What the look of a line depends on besides its content: the time of day
/// and whether colors are wanted.
#[derive(Clone, Copy, Debug)]
pub struct Console {
    pub epoch_secs: u64,
    pub color: bool,
}

pub const RESET: &'static str = "\x1b[0m";

pub const BOLD: &'static str = "\x1b[1m";

pub const DIM: &'static str = "\x1b[2m";

pub const GREEN: &'static str = "\x1b[32m";

pub const RED: &'static str = "\x1b[31m";

pub const YELLOW: &'static str = "\x1b[33m";

pub const CYAN: &'static str = "\x1b[36m";

/// The greatest length of a cleaned value.
pub const CLEAN_LIMIT: usize = 160;

// ---------------------------------------------------------------------------
// Durations
// ---------------------------------------------------------------------------

/// A duration in its largest fitting unit: minutes and seconds from one
/// minute on, seconds from one second on, milliseconds below.
pub open spec fn duration_text(duration_ms: nat) -> Seq<char> {
    let minutes = duration_ms / 60_000;
    let seconds = (duration_ms % 60_000) / 1_000;
    if duration_ms >= 60_000 && seconds == 0 {
        decimal(minutes) + "m"@
    } else if duration_ms >= 60_000 {
        decimal(minutes) + "m"@ + decimal(seconds) + "s"@
    } else if duration_ms >= 1_000 {
        decimal(duration_ms / 1_000) + "s"@
    } else {
        decimal(duration_ms) + "ms"@
    }
}

/// Shows a duration in its largest fitting unit.
pub fn format_duration(duration_ms: u128) -> (r: String)
    ensures
        r@ == duration_text(duration_ms as nat),
{
    if duration_ms >= 60_000 {
        let minutes: u128 = duration_ms / 60_000;
        let seconds: u128 = (duration_ms % 60_000) / 1_000;
        if seconds == 0 {
            text::cat2(text::decimal_u128(minutes).as_str(), "m")
        } else {
            text::cat4(
                text::decimal_u128(minutes).as_str(),
                "m",
                text::decimal_u128(seconds).as_str(),
                "s",
            )
        }
    } else if duration_ms >= 1_000 {
        text::cat2(text::decimal_u128(duration_ms / 1_000).as_str(), "s")
    } else {
        text::cat2(text::decimal_u128(duration_ms).as_str(), "ms")
    }
}

// ---------------------------------------------------------------------------
// Cleaning
// ---------------------------------------------------------------------------

/// `value` as its words with one space between them and apostrophes for double
/// quotes.
pub open spec fn compact(value: Seq<char>) -> Seq<char> {
    replace_char(join(words(value), " "@), '"', "'"@)
}

/// `value` compacted and, where it is too long, cut with three dots at its end.
pub open spec fn cleaned(value: Seq<char>) -> Seq<char> {
    let escaped = compact(value);
    if escaped.len() <= CLEAN_LIMIT {
        escaped
    } else {
        escaped.take(CLEAN_LIMIT - 3) + "..."@
    }
}

/// Makes a value fit for one line: single spaces, no double quotes, a bounded
/// length.
pub fn clean(value: &str) -> (r: String)
    ensures
        r@ == cleaned(value@),
{
    let compacted = text::joined(&text::split_words(value), " ");
    let escaped = text::replaced(compacted.as_str(), '"', "'");
    let chars = text::chars_of(escaped.as_str());
    if chars.len() <= CLEAN_LIMIT {
        return escaped;
    }
    let mut clipped = text::string_of_range(&chars, 0, CLEAN_LIMIT - 3);
    clipped.push_str("...");
    proof {
        assert(clipped@ =~= escaped@.take(CLEAN_LIMIT - 3) + "..."@);
    }
    clipped
}

/// A cleaned value is one short line that can stand between double quotes: at
/// most 160 characters, no double quote, and no whitespace but single spaces
/// between words. A value that is too long keeps its beginning and ends in three
/// dots; another is kept whole. Cleaning a cleaned value changes nothing.
pub proof fn cleaned_values_fit_a_line(value: Seq<char>)
    ensures
        cleaned(value).len() <= CLEAN_LIMIT,
        is_tidy(cleaned(value)),
        cleaned(cleaned(value)) == cleaned(value),
        compact(value).len() <= CLEAN_LIMIT ==> cleaned(value) == compact(value),
        compact(value).len() > CLEAN_LIMIT ==> {
            &&& cleaned(value).len() == CLEAN_LIMIT
            &&& cleaned(value).take(CLEAN_LIMIT - 3) == compact(value).take(CLEAN_LIMIT - 3)
            &&& cleaned(value).skip(CLEAN_LIMIT - 3) == "..."@
        },
        forall|i: int|
            0 <= i < cleaned(value).len() ==> (#[trigger] cleaned(value)[i]) != '"' && (is_space(
                cleaned(value)[i],
            ) ==> cleaned(value)[i] == ' '),
{
    let spaced = |c: char| is_space(c) ==> c == ' ';
    let allowed = |c: char| c != '"' && (is_space(c) ==> c == ' ');
    reveal_strlit(" ");
    reveal_strlit("'");
    reveal_strlit("...");
    lemma_every_word(value);
    assert forall|i: int| 0 <= i < words(value).len() implies every(#[trigger] words(value)[i], spaced) by {
        assert(every(words(value)[i], |c: char| !is_space(c)));
    }
    lemma_every_joined(words(value), " "@, spaced);
    let spread = join(words(value), " "@);
    assert(every(spread, |c: char| c == '"' || allowed(c)));
    lemma_every_replaced(spread, '"', "'"@, allowed);
    let escaped = compact(value);
    assert(every(escaped, allowed));
    assert forall|i: int| 0 <= i < cleaned(value).len() implies allowed(#[trigger] cleaned(value)[i]) by {
        if escaped.len() > CLEAN_LIMIT {
            if i < CLEAN_LIMIT - 3 {
                assert(cleaned(value)[i] == escaped[i]);
            } else {
                assert(cleaned(value)[i] == "..."@[i - (CLEAN_LIMIT - 3)]);
            }
        } else {
            assert(cleaned(value)[i] == escaped[i]);
        }
    }
    assert(" "@ =~= seq![' ']);
    assert("'"@ =~= seq!['\'']);
    joined_words_are_tidy(value);
    lemma_replaced_one(spread, '"', '\'');
    lemma_cleaned_tidily(value, spread);
    let clean = cleaned(value);
    tidy_texts_are_their_words(clean);
    lemma_replaced_one(clean, '"', '\'');
    assert(compact(clean) =~= clean);
    if escaped.len() > CLEAN_LIMIT {
        assert(clean.take(CLEAN_LIMIT - 3) =~= escaped.take(CLEAN_LIMIT - 3));
        assert(clean.skip(CLEAN_LIMIT - 3) =~= "..."@);
    }
}

proof fn lemma_cleaned_tidily(value: Seq<char>, spread: Seq<char>)
    requires
        is_tidy(spread),
        compact(value).len() == spread.len(),
        forall|i: int|
            0 <= i < spread.len() ==> #[trigger] compact(value)[i] == if spread[i] == '"' {
                '\''
            } else {
                spread[i]
            },
    ensures
        is_tidy(cleaned(value)),
{
    reveal_strlit("...");
    let escaped = compact(value);
    let clean = cleaned(value);
    assert(is_tidy(escaped)) by {
        assert forall|i: int| 0 <= i < escaped.len() && is_space(#[trigger] escaped[i]) implies escaped[i] == ' ' && (
        i + 1 < escaped.len() ==> !is_space(escaped[i + 1])) by {
            assert(is_space(spread[i]));
        }
    }
    if escaped.len() > CLEAN_LIMIT {
        assert forall|i: int| 0 <= i < clean.len() && is_space(#[trigger] clean[i]) implies clean[i] == ' ' && (i + 1
            < clean.len() ==> !is_space(clean[i + 1])) by {
            assert(i < CLEAN_LIMIT - 3);
            assert(clean[i] == escaped[i]);
            if i + 1 < CLEAN_LIMIT - 3 {
                assert(clean[i + 1] == escaped[i + 1]);
            }
        }
        assert(clean[0] == escaped[0]);
    }
}

/// The cleaned value between double quotes.
pub open spec fn quoted(value: Seq<char>) -> Seq<char> {
    "\""@ + cleaned(value) + "\""@
}

/// The cleaned value between double quotes.
pub fn quote(value: &str) -> (r: String)
    ensures
        r@ == quoted(value@),
{
    text::cat3("\"", clean(value).as_str(), "\"")
}

/// The cleaned value with a hyphen for each whitespace character.
pub open spec fn token(value: Seq<char>) -> Seq<char> {
    cleaned(value).map_values(|c: char| if text::is_space(c) { '-' } else { c })
}

/// The cleaned value with a hyphen for each whitespace character.
pub fn clean_token(value: &str) -> (r: String)
    ensures
        r@ == token(value@),
{
    let chars = text::chars_of(clean(value).as_str());
    let mut out = String::new();
    let mut i: usize = 0;
    while i < chars.len()
        invariant
            i <= chars@.len(),
            chars@ == cleaned(value@),
            out@ == token(value@).take(i as int),
        decreases chars@.len() - i,
    {
        let c: char = chars[i];
        if text::char_is_space(c) {
            out.push('-');
        } else {
            out.push(c);
        }
        proof {
            assert(token(value@).take(i + 1) =~= token(value@).take(i as int).push(token(value@)[i as int]));
        }
        i += 1;
    }
    proof {
        assert(token(value@).take(chars@.len() as int) =~= token(value@));
    }
    out
}

// ---------------------------------------------------------------------------
// Lines
// ---------------------------------------------------------------------------

/// `value` between color codes, or bare where colors are off.
pub open spec fn painted(color: bool, value: Seq<char>, codes: Seq<char>) -> Seq<char> {
    if color {
        codes + value + RESET@
    } else {
        value
    }
}

/// `value` between color codes, or bare where colors are off.
pub fn paint(color: bool, value: &str, codes: &str) -> (r: String)
    ensures
        r@ == painted(color, value@, codes@),
{
    if !color {
        return value.to_owned();
    }
    text::cat3(codes, value, RESET)
}

/// The hour and minute of the day in UTC, dimmed.
pub open spec fn time_text(console: Console) -> Seq<char> {
    let seconds = console.epoch_secs as nat % 86_400;
    painted(
        console.color,
        two_digits(seconds / 3_600) + ":"@ + two_digits((seconds % 3_600) / 60),
        DIM@,
    )
}

fn time_token(console: &Console) -> (r: String)
    ensures
        r@ == time_text(*console),
{
    let seconds: u64 = console.epoch_secs % 86_400;
    let hours: u64 = seconds / 3_600;
    let minutes: u64 = (seconds % 3_600) / 60;
    let clock = text::cat3(text::padded_two(hours).as_str(), ":", text::padded_two(minutes).as_str());
    paint(console.color, clock.as_str(), DIM)
}

/// `value` with spaces behind it up to a width of five.
pub open spec fn padded(value: Seq<char>) -> Seq<char> {
    if value.len() < 5 {
        value + Seq::new((5 - value.len()) as nat, |i: int| ' ')
    } else {
        value
    }
}

fn pad_label(label: &str) -> (r: String)
    ensures
        r@ == padded(label@),
{
    let mut out = label.to_owned();
    let mut width: usize = label.unicode_len();
    let ghost start = label@.len();
    while width < 5
        invariant
            start == label@.len(),
            start <= width,
            width <= 5 || width == start,
            out@ == label@ + Seq::new((width - start) as nat, |i: int| ' '),
        decreases 5 - width,
    {
        out.push(' ');
        proof {
            assert(out@ =~= label@ + Seq::new((width + 1 - start) as nat, |i: int| ' '));
        }
        width += 1;
    }
    proof {
        assert(out@ =~= padded(label@));
    }
    out
}

/// The codes with which a label is painted.
pub open spec fn label_codes(label: Seq<char>) -> Seq<char> {
    if label == "READY"@ || label == "OK"@ {
        BOLD@ + GREEN@
    } else if label == "START"@ {
        BOLD@ + CYAN@
    } else if label == "FAIL"@ {
        BOLD@ + RED@
    } else if label == "WARN"@ || label == "BUSY"@ || label == "MISS"@ || label == "SKIP"@ {
        BOLD@ + YELLOW@
    } else {
        DIM@
    }
}

fn label_token(color: bool, label: &str) -> (r: String)
    ensures
        r@ == painted(color, padded(label@), label_codes(label@)),
{
    let wide = pad_label(label);
    let codes = if text::same(label, "READY") || text::same(label, "OK") {
        text::cat2(BOLD, GREEN)
    } else if text::same(label, "START") {
        text::cat2(BOLD, CYAN)
    } else if text::same(label, "FAIL") {
        text::cat2(BOLD, RED)
    } else if text::same(label, "WARN") || text::same(label, "BUSY") || text::same(label, "MISS")
        || text::same(label, "SKIP") {
        text::cat2(BOLD, YELLOW)
    } else {
        DIM.to_owned()
    };
    paint(color, wide.as_str(), codes.as_str())
}

/// The guild in quotes and the channel behind a hash, as far as they are given.
pub open spec fn place(guild_name: Seq<char>, channel_name: Option<Seq<char>>) -> Seq<Seq<char>> {
    only_if(guild_name.len() > 0, quoted(guild_name)) + (match channel_name {
        Some(name) => seq!["#"@ + token(name)],
        None => Seq::empty(),
    })
}

/// The parts of a line, in order.
pub open spec fn line_parts(
    console: Console,
    label: Seq<char>,
    command: Seq<char>,
    user_name: Seq<char>,
    guild_name: Seq<char>,
    channel_name: Option<Seq<char>>,
    detail: Seq<char>,
) -> Seq<Seq<char>> {
    let metadata = place(guild_name, channel_name);
    seq![time_text(console), painted(console.color, padded(label), label_codes(label))]
        + only_if(command.len() > 0, command)
        + only_if(user_name.len() > 0, "@"@ + token(user_name))
        + only_if(metadata.len() > 0, painted(console.color, join(metadata, " "@), DIM@))
        + only_if(trim(detail).len() > 0, trim(detail))
}

/// A whole line: its parts with spaces between them, after an empty line where
/// a run begins or fails.
pub open spec fn line_text(
    console: Console,
    label: Seq<char>,
    command: Seq<char>,
    user_name: Seq<char>,
    guild_name: Seq<char>,
    channel_name: Option<Seq<char>>,
    detail: Seq<char>,
) -> Seq<char> {
    let parts = line_parts(console, label, command, user_name, guild_name, channel_name, detail);
    (if label == "START"@ || label == "FAIL"@ { "\n"@ } else { ""@ }) + join(parts, " "@)
}

/// A terminal line.
pub fn line(
    console: &Console,
    label: &str,
    command: &str,
    user_name: &str,
    guild_name: &str,
    channel_name: Option<&str>,
    detail: &str,
) -> (r: String)
    ensures
        r@ == line_text(*console, label@, command@, user_name@, guild_name@, opt_str(channel_name), detail@),
{
    let mut parts = text::no_texts();
    text::add_text(&mut parts, time_token(console));
    text::add_text(&mut parts, label_token(console.color, label));
    proof {
        assert(texts(parts@) =~= seq![
            time_text(*console),
            painted(console.color, padded(label@), label_codes(label@)),
        ]);
    }
    let ghost p0 = texts(parts@);
    if !command.is_empty() {
        text::add_text(&mut parts, command.to_owned());
    }
    let ghost p1 = p0 + only_if(command@.len() > 0, command@);
    assert(texts(parts@) =~= p1);
    if !user_name.is_empty() {
        text::add_text(&mut parts, text::cat2("@", clean_token(user_name).as_str()));
    }
    let ghost p2 = p1 + only_if(user_name@.len() > 0, "@"@ + token(user_name@));
    assert(texts(parts@) =~= p2);
    let mut metadata = text::no_texts();
    if !guild_name.is_empty() {
        text::add_text(&mut metadata, quote(guild_name));
    }
    if let Some(name) = channel_name {
        text::add_text(&mut metadata, text::cat2("#", clean_token(name).as_str()));
    }
    assert(texts(metadata@) =~= place(guild_name@, opt_str(channel_name)));
    if metadata.len() > 0 {
        let shown = text::joined(&metadata, " ");
        text::add_text(&mut parts, paint(console.color, shown.as_str(), DIM));
    }
    let ghost p3 = p2 + only_if(
        metadata@.len() > 0,
        painted(console.color, join(texts(metadata@), " "@), DIM@),
    );
    assert(texts(parts@) =~= p3);
    let bare = text::trimmed(detail);
    if !bare.as_str().is_empty() {
        text::add_text(&mut parts, bare);
    }
    assert(texts(parts@) =~= p3 + only_if(trim(detail@).len() > 0, trim(detail@)));
    let prefix = if text::same(label, "START") || text::same(label, "FAIL") { "\n" } else { "" };
    text::cat2(prefix, text::joined(&parts, " ").as_str())
}

/// The line that says that the bot is ready.
pub fn ready(console: &Console, bot_name: &str) -> (r: String)
    ensures
        r@ == line_text(*console, "READY"@, ""@, bot_name@, ""@, None, ""@),
{
    line(console, "READY", "", bot_name, "", None, "")
}

/// A command's internal name as it is typed: a slash, and spaces for dots.
pub fn slash_command_name(command: &str) -> (r: String)
    ensures
        r@ == "/"@ + replace_char(command@, '.', " "@),
{
    text::cat2("/", text::replaced(command, '.', " ").as_str())
}

/// A line about a command.
pub open spec fn context_line(
    console: Console,
    label: Seq<char>,
    context: RunContext<Seq<char>>,
    detail: Seq<char>,
) -> Seq<char> {
    line_text(
        console,
        label,
        "/"@ + replace_char(context.command, '.', " "@),
        context.user_name,
        context.guild_name,
        context.channel_name,
        detail,
    )
}

/// A line about a command.
pub fn line_for_context(console: &Console, label: &str, context: &RunContext, detail: &str) -> (r: String)
    ensures
        r@ == context_line(*console, label@, context@, detail@),
{
    let channel_name: Option<&str> = match &context.channel_name {
        Some(name) => Some(name.as_str()),
        None => None,
    };
    line(
        console,
        label,
        slash_command_name(context.command.as_str()).as_str(),
        context.user_name.as_str(),
        context.guild_name.as_str(),
        channel_name,
        detail,
    )
}

/// The status of the server in a word, with the numbers of players where it is
/// online.
pub open spec fn brief_status(status: ServerStatus<Seq<char>, Seq<Seq<char>>>) -> Seq<char> {
    match status {
        ServerStatus::Offline => "Offline"@,
        ServerStatus::Unreachable { .. } => "Offline"@,
        ServerStatus::Queued => "Queued"@,
        ServerStatus::Starting => "Starting"@,
        ServerStatus::Preparing => "Preparing"@,
        ServerStatus::Loading => "Loading"@,
        ServerStatus::Online { online, max, .. } => "Online "@ + decimal(online as nat) + "/"@
            + decimal(max as nat),
    }
}

/// The status of the server in a word, with the numbers of players where it is
/// online.
pub fn brief_minecraft_status(status: &ServerStatus) -> (r: String)
    ensures
        r@ == brief_status(status@),
{
    match status {
        ServerStatus::Offline => "Offline".to_owned(),
        ServerStatus::Unreachable { .. } => "Offline".to_owned(),
        ServerStatus::Queued => "Queued".to_owned(),
        ServerStatus::Starting => "Starting".to_owned(),
        ServerStatus::Preparing => "Preparing".to_owned(),
        ServerStatus::Loading => "Loading".to_owned(),
        ServerStatus::Online { online, max, .. } => text::cat4(
            "Online ",
            text::decimal_u64(*online as u64).as_str(),
            "/",
            text::decimal_u64(*max as u64).as_str(),
        ),
    }
}

// ---------------------------------------------------------------------------
// Settings of the environment
// ---------------------------------------------------------------------------

/// Whether lines are painted, from the variables `NO_COLOR`, `TERM` and
/// `BUTLER_COLOR`.
pub fn ansi_enabled(no_color_set: bool, term: Option<&str>, butler_color: Option<&str>) -> (r: bool)
    ensures
        r == {
            &&& !no_color_set
            &&& (term matches Some(name) ==> lower(name@) != lower("dumb"@))
            &&& (butler_color matches Some(value) ==> ({
                let shown = trim(value@);
                shown != "0"@ && shown != "false"@ && shown != "off"@ && shown != "no"@
            }))
        },
{
    if no_color_set {
        return false;
    }
    if let Some(name) = term {
        if text::same_ignoring_case(name, "dumb") {
            return false;
        }
    }
    match butler_color {
        Some(value) => {
            let bare = text::trimmed(value);
            let shown = bare.as_str();
            !(text::same(shown, "0") || text::same(shown, "false") || text::same(shown, "off")
                || text::same(shown, "no"))
        },
        None => true,
    }
}

/// Whether debug lines are written, from the variable `BUTLER_LOG`.
pub fn debug_enabled(butler_log: Option<&str>) -> (r: bool)
    ensures
        r == (butler_log matches Some(value) && (lower(trim(value@)) == "debug"@ || lower(
            trim(value@),
        ) == "trace"@)),
{
    match butler_log {
        Some(value) => {
            let level = text::lowered(text::trimmed(value).as_str());
            text::same(level.as_str(), "debug") || text::same(level.as_str(), "trace")
        },
        None => false,
    }
}

/// A duration is told in minutes and seconds, in seconds, or in milliseconds, whichever is
/// the largest unit that it fills; seconds behind minutes only where there are any.
pub proof fn durations_are_told_in_their_largest_unit(minutes: nat, seconds: nat, millis: nat)
    requires
        seconds < 60,
        millis < 1_000,
    ensures
        minutes > 0 && seconds > 0 ==> duration_text(minutes * 60_000 + seconds * 1_000 + millis) == decimal(minutes) + "m"@
            + decimal(seconds) + "s"@,
        minutes > 0 ==> duration_text(minutes * 60_000 + millis) == decimal(minutes) + "m"@,
        seconds > 0 ==> duration_text(seconds * 1_000 + millis) == decimal(seconds) + "s"@,
        duration_text(millis) == decimal(millis) + "ms"@,
{
    let whole = minutes * 60_000 + seconds * 1_000 + millis;
    let plain = minutes * 60_000 + millis;
    assert(whole / 60_000 == minutes && whole % 60_000 == seconds * 1_000 + millis);
    assert(plain / 60_000 == minutes && plain % 60_000 == millis);
    assert((seconds * 1_000 + millis) / 1_000 == seconds);
}

} // verus!
