//! The record that a run keeps of itself.

use vstd::prelude::*;
use crate::outside;
use crate::run_history::artifacts::{is_run_id, is_run_id_char};
use crate::run_history::{step_views, RunContext, RunEvent, RunStep, RunSummary, Summary};
use crate::server_service::responses::{optional_part, told_after};
use crate::terminal;
use crate::terminal::{cleaned, context_line, duration_text, Console};
use crate::text;
use crate::text::{lower, opt_text};

verus! {

// ---------------------------------------------------------------------------
// Run IDs
// ---------------------------------------------------------------------------

/// How many characters a run ID is drawn from.
pub const RUN_ID_ALPHABET: usize = 36;

/// The character of that number: the letters, then the digits.
pub open spec fn run_id_char(n: nat) -> char {
    if n < 26 {
        (97 + n) as char
    } else {
        (22 + n) as char
    }
}

fn id_char(n: usize) -> (r: char)
    requires
        n < RUN_ID_ALPHABET,
    ensures
        r == run_id_char(n as nat),
{
    let code: u8 = if n < 26 {
        97u8 + n as u8
    } else {
        22u8 + n as u8
    };
    code as char
}

/// The run ID of six drawn numbers.
pub open spec fn run_id_of(draws: Seq<usize>) -> Seq<char> {
    draws.map_values(|n: usize| run_id_char(n as nat))
}

/// The run ID of drawn numbers.
pub fn run_id_from(draws: &Vec<usize>) -> (r: String)
    requires
        forall|i: int| 0 <= i < draws@.len() ==> (#[trigger] draws@[i]) < RUN_ID_ALPHABET,
    ensures
        r@ == run_id_of(draws@),
{
    let mut id = String::new();
    let mut i: usize = 0;
    while i < draws.len()
        invariant
            i <= draws@.len(),
            forall|j: int| 0 <= j < draws@.len() ==> (#[trigger] draws@[j]) < RUN_ID_ALPHABET,
            id@ =~= run_id_of(draws@).take(i as int),
        decreases draws@.len() - i,
    {
        id.push(id_char(draws[i]));
        i += 1;
    }
    proof {
        assert(run_id_of(draws@).take(draws@.len() as int) =~= run_id_of(draws@));
    }
    id
}

/// A new run ID: six lower-case letters and digits, drawn at random.
pub fn generate_run_id() -> (r: String)
    ensures
        is_run_id(r@),
{
    let mut draws: Vec<usize> = Vec::new();
    while draws.len() < 6
        invariant
            draws@.len() <= 6,
            forall|j: int| 0 <= j < draws@.len() ==> (#[trigger] draws@[j]) < RUN_ID_ALPHABET,
        decreases 6 - draws@.len(),
    {
        draws.push(outside::random_below(RUN_ID_ALPHABET));
    }
    let id = run_id_from(&draws);
    proof {
        assert forall|i: int| 0 <= i < id@.len() implies is_run_id_char(#[trigger] id@[i]) by {
            assert(id@[i] == run_id_char(draws@[i] as nat));
        }
    }
    id
}

// ---------------------------------------------------------------------------
// Contexts
// ---------------------------------------------------------------------------

/// Who gives a command, and where. A command outside of a guild comes from a
/// direct message.
pub fn run_context(
    run_id: String,
    command: &str,
    provider: &str,
    guild_id: Option<String>,
    guild_name: Option<String>,
    channel_id: String,
    channel_name: Option<String>,
    user_id: String,
    user_name: String,
) -> (r: RunContext)
    ensures
        r@ == (RunContext {
            run_id: run_id@,
            command: command@,
            provider: provider@,
            guild_id: opt_text(guild_id),
            guild_name: match opt_text(guild_name) {
                Some(name) => name,
                None => "DM"@,
            },
            channel_id: channel_id@,
            channel_name: opt_text(channel_name),
            user_id: user_id@,
            user_name: user_name@,
        }),
{
    RunContext {
        run_id,
        command: command.to_owned(),
        provider: provider.to_owned(),
        guild_id,
        guild_name: match guild_name {
            Some(name) => name,
            None => "DM".to_owned(),
        },
        channel_id,
        channel_name,
        user_id,
        user_name,
    }
}

// ---------------------------------------------------------------------------
// Tracking
// ---------------------------------------------------------------------------

/// A step as a run takes it, before it has a time.
#[verifier::ext_equal]
#[derive(Clone, Debug)]
pub struct StepNote<T = String> {
    pub step: T,
    pub status: T,
    pub detail: Option<T>,
    pub screenshot_path: Option<T>,
    pub error_class: Option<T>,
}

impl View for StepNote<String> {
    type V = StepNote<Seq<char>>;

    open spec fn view(&self) -> StepNote<Seq<char>> {
        StepNote {
            step: self.step@,
            status: self.status@,
            detail: opt_text(self.detail),
            screenshot_path: opt_text(self.screenshot_path),
            error_class: opt_text(self.error_class),
        }
    }
}

/// How a run ends.
#[verifier::ext_equal]
#[derive(Clone, Debug)]
pub struct RunEnd<T = String> {
    pub outcome: T,
    pub provider_status: Option<T>,
    pub minecraft_status: Option<T>,
    pub screenshot_path: Option<T>,
    pub error_class: Option<T>,
}

impl View for RunEnd<String> {
    type V = RunEnd<Seq<char>>;

    open spec fn view(&self) -> RunEnd<Seq<char>> {
        RunEnd {
            outcome: self.outcome@,
            provider_status: opt_text(self.provider_status),
            minecraft_status: opt_text(self.minecraft_status),
            screenshot_path: opt_text(self.screenshot_path),
            error_class: opt_text(self.error_class),
        }
    }
}

/// A step at its time.
pub open spec fn step_at(note: StepNote<Seq<char>>, at_ms: u128) -> RunStep<Seq<char>> {
    RunStep {
        at_ms,
        step: note.step,
        status: note.status,
        detail: note.detail,
        screenshot_path: note.screenshot_path,
        error_class: note.error_class,
    }
}

/// What a debug line says of a step.
pub open spec fn step_detail(run_id: Seq<char>, note: StepNote<Seq<char>>) -> Seq<char> {
    run_id + " "@ + note.step + " "@ + note.status + told_after(
        " error "@,
        match note.error_class {
            Some(class) => Some(cleaned(class)),
            None => None,
        },
    )
}

/// A run and the steps it took.
pub struct RunTracker {
    context: RunContext,
    started_at_ms: u128,
    steps: Vec<RunStep>,
}

/// What a contract sees of a tracked run.
#[verifier::ext_equal]
pub struct TrackerView {
    pub context: RunContext<Seq<char>>,
    pub started_at_ms: u128,
    pub steps: Seq<RunStep<Seq<char>>>,
}

impl View for RunTracker {
    type V = TrackerView;

    closed spec fn view(&self) -> TrackerView {
        TrackerView {
            context: self.context@,
            started_at_ms: self.started_at_ms,
            steps: step_views(self.steps@),
        }
    }
}

/// The time between two moments, none where the clock went back.
pub open spec fn elapsed(from_ms: u128, to_ms: u128) -> u128 {
    if to_ms >= from_ms {
        (to_ms - from_ms) as u128
    } else {
        0
    }
}

/// The time between two moments, none where the clock went back.
pub fn elapsed_ms(from_ms: u128, to_ms: u128) -> (r: u128)
    ensures
        r == elapsed(from_ms, to_ms),
{
    if to_ms >= from_ms {
        to_ms - from_ms
    } else {
        0
    }
}

/// The summary of a tracked run that ends now.
pub open spec fn summary_of(tracker: TrackerView, end: RunEnd<Seq<char>>, now_ms: u128) -> Summary {
    RunSummary {
        context: tracker.context,
        started_at_ms: tracker.started_at_ms,
        finished_at_ms: now_ms,
        duration_ms: elapsed(tracker.started_at_ms, now_ms),
        outcome: end.outcome,
        final_provider_status: end.provider_status,
        final_minecraft_status: end.minecraft_status,
        screenshot_path: end.screenshot_path,
        error_class: end.error_class,
        steps: tracker.steps,
    }
}

/// The line about a run that is over; none where the command itself failed,
/// which is reported on its own.
pub open spec fn summary_line(console: Console, summary: Summary) -> Option<Seq<char>> {
    if summary.error_class == Some("CommandError"@) {
        None
    } else {
        Some(
            context_line(
                console,
                result_label(summary),
                summary.context,
                summary_detail(summary),
            ),
        )
    }
}

impl RunTracker {
    /// A run that begins now.
    pub fn new(context: RunContext, now_ms: u128) -> (r: RunTracker)
        ensures
            r@ == (TrackerView {
                context: context@,
                started_at_ms: now_ms,
                steps: Seq::empty(),
            }),
    {
        let steps: Vec<RunStep> = Vec::new();
        proof {
            assert(step_views(steps@) =~= Seq::<RunStep<Seq<char>>>::empty());
        }
        RunTracker { context, started_at_ms: now_ms, steps }
    }

    /// Records a step. Gives the debug line about it, and the event to persist.
    pub fn step(&mut self, console: &Console, note: StepNote, now_ms: u128) -> (r: (String, RunEvent))
        ensures
            final(self)@ == (TrackerView {
                steps: old(self)@.steps.push(step_at(note@, now_ms)),
                ..old(self)@
            }),
            r.0@ == context_line(
                *console,
                "STEP"@,
                old(self)@.context,
                step_detail(old(self)@.context.run_id, note@),
            ),
            r.1@ == (RunEvent { context: old(self)@.context, step: step_at(note@, now_ms) }),
    {
        let class = match &note.error_class {
            Some(class) => Some(terminal::clean(class.as_str())),
            None => None,
        };
        let mut detail = text::cat5(
            self.context.run_id.as_str(),
            " ",
            note.step.as_str(),
            " ",
            note.status.as_str(),
        );
        detail.push_str(optional_part(" error ", &class).as_str());
        let line = terminal::line_for_context(console, "STEP", &self.context, detail.as_str());
        let step = RunStep {
            at_ms: now_ms,
            step: note.step,
            status: note.status,
            detail: note.detail,
            screenshot_path: note.screenshot_path,
            error_class: note.error_class,
        };
        let event = RunEvent { context: self.context.copied(), step: step.copied() };
        let ghost before = self.steps@;
        self.steps.push(step);
        proof {
            assert(step_views(self.steps@) =~= step_views(before).push(step@));
        }
        (line, event)
    }

    /// Ends the run. Gives the line about it, where there is one, and its summary.
    pub fn finish(&self, console: &Console, end: RunEnd, now_ms: u128) -> (r: (Option<String>, RunSummary))
        ensures
            r.1@ == summary_of(self@, end@, now_ms),
            opt_text(r.0) == summary_line(*console, r.1@),
    {
        let summary = RunSummary {
            context: self.context.copied(),
            started_at_ms: self.started_at_ms,
            finished_at_ms: now_ms,
            duration_ms: elapsed_ms(self.started_at_ms, now_ms),
            outcome: end.outcome,
            final_provider_status: end.provider_status,
            final_minecraft_status: end.minecraft_status,
            screenshot_path: end.screenshot_path,
            error_class: end.error_class,
            steps: crate::run_history::copy_steps(&self.steps),
        };
        let own_report = match &summary.error_class {
            Some(class) => text::same(class.as_str(), "CommandError"),
            None => false,
        };
        if own_report {
            return (None, summary);
        }
        let line = terminal::line_for_context(
            console,
            run_result_label(&summary),
            &summary.context,
            run_summary_detail(&summary).as_str(),
        );
        (Some(line), summary)
    }
}

/// The label of a run that is over.
pub open spec fn result_label(summary: Summary) -> Seq<char> {
    if summary.failed() {
        "FAIL"@
    } else if lower(summary.outcome) == lower("AlreadyOnline"@) {
        "SKIP"@
    } else {
        "OK"@
    }
}

/// The label of a run that is over.
pub fn run_result_label(summary: &RunSummary) -> (r: &'static str)
    ensures
        r@ == result_label(summary@),
{
    if summary.has_failed() {
        "FAIL"
    } else if text::same_ignoring_case(summary.outcome.as_str(), "AlreadyOnline") {
        "SKIP"
    } else {
        "OK"
    }
}

/// What the line about a run that is over says.
pub open spec fn summary_detail(summary: Summary) -> Seq<char> {
    summary.context.run_id + " "@ + summary.outcome + " "@ + duration_text(summary.duration_ms as nat)
        + told_after(
        " error "@,
        match summary.error_class {
            Some(class) => Some(cleaned(class)),
            None => None,
        },
    )
}

/// What the line about a run that is over says.
pub fn run_summary_detail(summary: &RunSummary) -> (r: String)
    ensures
        r@ == summary_detail(summary@),
{
    let class = match &summary.error_class {
        Some(class) => Some(terminal::clean(class.as_str())),
        None => None,
    };
    let mut detail = text::cat5(
        summary.context.run_id.as_str(),
        " ",
        summary.outcome.as_str(),
        " ",
        terminal::format_duration(summary.duration_ms).as_str(),
    );
    detail.push_str(optional_part(" error ", &class).as_str());
    detail
}

/// What the log says where an event could not be stored.
pub fn history_warning(run_id: &str, error: &str) -> (r: String)
    ensures
        r@ == run_id@ + " could not write run history; error "@ + cleaned(error@),
{
    text::cat3(
        run_id,
        " could not write run history; error ",
        terminal::clean(error).as_str(),
    )
}

/// A finished run is remembered with everything that was recorded of it, and lasted from
/// its beginning to its end; a clock that went back counts as no time.
pub proof fn runs_are_summed_up_whole(tracker: TrackerView, end: RunEnd<Seq<char>>, now_ms: u128)
    ensures
        ({
            let run = summary_of(tracker, end, now_ms);
            &&& run.context == tracker.context
            &&& run.steps == tracker.steps
            &&& run.started_at_ms == tracker.started_at_ms
            &&& run.finished_at_ms == now_ms
            &&& now_ms >= tracker.started_at_ms ==> run.started_at_ms + run.duration_ms == now_ms
            &&& now_ms < tracker.started_at_ms ==> run.duration_ms == 0
            &&& run.outcome == end.outcome
            &&& run.final_provider_status == end.provider_status
            &&& run.final_minecraft_status == end.minecraft_status
            &&& run.screenshot_path == end.screenshot_path
            &&& run.error_class == end.error_class
        }),
{
}

/// A run with an error, or whose outcome is "failed", is logged as failed; one that found
/// the server online as skipped; any other as done. A run that broke off has been logged
/// before.
pub proof fn results_are_logged_as_what_they_are(summary: Summary, console: Console)
    ensures
        summary.error_class is Some || lower(summary.outcome) == "failed"@ ==> result_label(summary) == "FAIL"@,
        summary.error_class is None && lower(summary.outcome) == "alreadyonline"@ ==> result_label(summary) == "SKIP"@,
        summary.error_class is None && lower(summary.outcome) != "failed"@ && lower(summary.outcome) != "alreadyonline"@
            ==> result_label(summary) == "OK"@,
        summary.error_class == Some("CommandError"@) <==> summary_line(console, summary) is None,
{
    reveal_strlit("failed");
    reveal_strlit("AlreadyOnline");
    reveal_strlit("alreadyonline");
    assert(lower("failed"@) =~= "failed"@);
    assert(lower("AlreadyOnline"@) =~= "alreadyonline"@);
    assert("failed"@.len() == 6 && "alreadyonline"@.len() == 13);
}

/// A step is recorded as it was noted, with its time.
pub proof fn steps_are_recorded_as_noted(note: StepNote<Seq<char>>, at_ms: u128)
    ensures
        ({
            let step = step_at(note, at_ms);
            &&& step.at_ms == at_ms
            &&& step.step == note.step
            &&& step.status == note.status
            &&& step.detail == note.detail
            &&& step.screenshot_path == note.screenshot_path
            &&& step.error_class == note.error_class
        }),
{
}

/// The characters of run IDs are the small letters and then the digits, each drawn by its
/// own number.
pub proof fn run_ids_are_drawn_from_letters_and_digits(one: nat, other: nat)
    requires
        one < 36,
        other < 36,
    ensures
        one < 26 ==> 'a' <= run_id_char(one) <= 'z',
        one >= 26 ==> '0' <= run_id_char(one) <= '9',
        one != other ==> run_id_char(one) != run_id_char(other),
{
}

} // verus!
