//! The record of what the bot did: the runs it remembers, the events it
//! persists and the artifacts it keeps.

pub mod artifacts;
pub mod events;

use std::collections::VecDeque;
use vstd::prelude::*;
use crate::text;
use crate::text::{lower, opt_str, opt_text};

verus! {

// ---------------------------------------------------------------------------
// Runs
// ---------------------------------------------------------------------------

/// Who asked for a command, and where.
#[verifier::ext_equal]
#[derive(Clone, Debug)]
pub struct RunContext<T = String> {
    pub run_id: T,
    pub command: T,
    pub provider: T,
    pub guild_id: Option<T>,
    pub guild_name: T,
    pub channel_id: T,
    pub channel_name: Option<T>,
    pub user_id: T,
    pub user_name: T,
}

impl View for RunContext<String> {
    type V = RunContext<Seq<char>>;

    open spec fn view(&self) -> RunContext<Seq<char>> {
        RunContext {
            run_id: self.run_id@,
            command: self.command@,
            provider: self.provider@,
            guild_id: opt_text(self.guild_id),
            guild_name: self.guild_name@,
            channel_id: self.channel_id@,
            channel_name: opt_text(self.channel_name),
            user_id: self.user_id@,
            user_name: self.user_name@,
        }
    }
}

impl RunContext<String> {
    /// A copy of the context.
    pub fn copied(&self) -> (r: RunContext)
        ensures
            r@ == self@,
    {
        RunContext {
            run_id: self.run_id.clone(),
            command: self.command.clone(),
            provider: self.provider.clone(),
            guild_id: text::copy_opt(&self.guild_id),
            guild_name: self.guild_name.clone(),
            channel_id: self.channel_id.clone(),
            channel_name: text::copy_opt(&self.channel_name),
            user_id: self.user_id.clone(),
            user_name: self.user_name.clone(),
        }
    }
}

/// One step of a run.
#[verifier::ext_equal]
#[derive(Clone, Debug)]
pub struct RunStep<T = String> {
    pub at_ms: u128,
    pub step: T,
    pub status: T,
    pub detail: Option<T>,
    pub screenshot_path: Option<T>,
    pub error_class: Option<T>,
}

impl View for RunStep<String> {
    type V = RunStep<Seq<char>>;

    open spec fn view(&self) -> RunStep<Seq<char>> {
        RunStep {
            at_ms: self.at_ms,
            step: self.step@,
            status: self.status@,
            detail: opt_text(self.detail),
            screenshot_path: opt_text(self.screenshot_path),
            error_class: opt_text(self.error_class),
        }
    }
}

impl RunStep<String> {
    /// A copy of the step.
    pub fn copied(&self) -> (r: RunStep)
        ensures
            r@ == self@,
    {
        RunStep {
            at_ms: self.at_ms,
            step: self.step.clone(),
            status: self.status.clone(),
            detail: text::copy_opt(&self.detail),
            screenshot_path: text::copy_opt(&self.screenshot_path),
            error_class: text::copy_opt(&self.error_class),
        }
    }
}

/// The views of a list of steps.
pub open spec fn step_views(steps: Seq<RunStep>) -> Seq<RunStep<Seq<char>>> {
    steps.map_values(|step: RunStep| step@)
}

/// Copies a list of steps.
pub fn copy_steps(steps: &Vec<RunStep>) -> (r: Vec<RunStep>)
    ensures
        step_views(r@) == step_views(steps@),
{
    let mut out: Vec<RunStep> = Vec::new();
    let mut i: usize = 0;
    while i < steps.len()
        invariant
            i <= steps@.len(),
            step_views(out@) =~= step_views(steps@).take(i as int),
        decreases steps@.len() - i,
    {
        let ghost before = out@;
        out.push(steps[i].copied());
        proof {
            assert(step_views(out@) =~= step_views(before).push(steps@[i as int]@));
        }
        i += 1;
    }
    proof {
        assert(step_views(steps@).take(steps@.len() as int) =~= step_views(steps@));
    }
    out
}

/// A run that is over.
#[verifier::ext_equal]
#[derive(Clone, Debug)]
pub struct RunSummary<T = String, L = Vec<RunStep>> {
    pub context: RunContext<T>,
    pub started_at_ms: u128,
    pub finished_at_ms: u128,
    pub duration_ms: u128,
    pub outcome: T,
    pub final_provider_status: Option<T>,
    pub final_minecraft_status: Option<T>,
    pub screenshot_path: Option<T>,
    pub error_class: Option<T>,
    pub steps: L,
}

/// What a contract sees of a run that is over.
pub type Summary = RunSummary<Seq<char>, Seq<RunStep<Seq<char>>>>;

impl View for RunSummary<String, Vec<RunStep>> {
    type V = Summary;

    open spec fn view(&self) -> Summary {
        RunSummary {
            context: self.context@,
            started_at_ms: self.started_at_ms,
            finished_at_ms: self.finished_at_ms,
            duration_ms: self.duration_ms,
            outcome: self.outcome@,
            final_provider_status: opt_text(self.final_provider_status),
            final_minecraft_status: opt_text(self.final_minecraft_status),
            screenshot_path: opt_text(self.screenshot_path),
            error_class: opt_text(self.error_class),
            steps: step_views(self.steps@),
        }
    }
}

impl RunSummary<Seq<char>, Seq<RunStep<Seq<char>>>> {
    /// Whether the run counts as failed.
    pub open spec fn failed(self) -> bool {
        self.error_class is Some || lower(self.outcome) == lower("failed"@)
    }
}

impl RunSummary<String, Vec<RunStep>> {
    /// Whether the run counts as failed.
    pub fn has_failed(&self) -> (r: bool)
        ensures
            r == self@.failed(),
    {
        self.error_class.is_some() || text::same_ignoring_case(self.outcome.as_str(), "failed")
    }

    /// A copy of the summary.
    pub fn copied(&self) -> (r: RunSummary)
        ensures
            r@ == self@,
    {
        RunSummary {
            context: self.context.copied(),
            started_at_ms: self.started_at_ms,
            finished_at_ms: self.finished_at_ms,
            duration_ms: self.duration_ms,
            outcome: self.outcome.clone(),
            final_provider_status: text::copy_opt(&self.final_provider_status),
            final_minecraft_status: text::copy_opt(&self.final_minecraft_status),
            screenshot_path: text::copy_opt(&self.screenshot_path),
            error_class: text::copy_opt(&self.error_class),
            steps: copy_steps(&self.steps),
        }
    }
}

/// One step of a run together with who asked for the run.
#[verifier::ext_equal]
#[derive(Clone, Debug)]
pub struct RunEvent<T = String> {
    pub context: RunContext<T>,
    pub step: RunStep<T>,
}

impl View for RunEvent<String> {
    type V = RunEvent<Seq<char>>;

    open spec fn view(&self) -> RunEvent<Seq<char>> {
        RunEvent { context: self.context@, step: self.step@ }
    }
}

/// A context that names neither the user nor the place.
pub open spec fn redacted_context(context: RunContext<Seq<char>>) -> RunContext<Seq<char>> {
    RunContext {
        guild_id: None,
        guild_name: "redacted"@,
        channel_id: "redacted"@,
        channel_name: None,
        user_id: "redacted"@,
        user_name: "redacted"@,
        ..context
    }
}

/// An event that names neither the user nor the place.
pub open spec fn redacted_event(event: RunEvent<Seq<char>>) -> RunEvent<Seq<char>> {
    RunEvent { context: redacted_context(event.context), step: event.step }
}

impl RunEvent<String> {
    /// The event without the user and the place.
    pub fn redacted(&self) -> (r: RunEvent)
        ensures
            r@ == redacted_event(self@),
    {
        RunEvent {
            context: RunContext {
                run_id: self.context.run_id.clone(),
                command: self.context.command.clone(),
                provider: self.context.provider.clone(),
                guild_id: None,
                guild_name: "redacted".to_owned(),
                channel_id: "redacted".to_owned(),
                channel_name: None,
                user_id: "redacted".to_owned(),
                user_name: "redacted".to_owned(),
            },
            step: self.step.copied(),
        }
    }

    /// A copy of the event.
    pub fn copied(&self) -> (r: RunEvent)
        ensures
            r@ == self@,
    {
        RunEvent { context: self.context.copied(), step: self.step.copied() }
    }
}

/// A redacted event says nothing of the user and the place: two events that
/// differ only in those are the same once redacted. Redacting once is enough.
pub proof fn redaction_hides_the_caller(one: RunEvent<Seq<char>>, other: RunEvent<Seq<char>>)
    requires
        one.step == other.step,
        one.context.run_id == other.context.run_id,
        one.context.command == other.context.command,
        one.context.provider == other.context.provider,
    ensures
        redacted_event(one) == redacted_event(other),
        redacted_event(redacted_event(one)) == redacted_event(one),
        redacted_event(one).step == one.step,
        redacted_event(one).context.run_id == one.context.run_id,
        redacted_event(one).context.command == one.context.command,
        redacted_event(one).context.provider == one.context.provider,
        redacted_event(one).context.guild_id is None,
        redacted_event(one).context.channel_name is None,
        redacted_event(one).context.user_id == "redacted"@,
        redacted_event(one).context.user_name == "redacted"@,
{
}

// ---------------------------------------------------------------------------
// Who may see a run
// ---------------------------------------------------------------------------

/// Which runs a question may be answered from.
#[verifier::ext_equal]
#[derive(Clone, Debug, PartialEq, Eq)]
pub enum RunQueryScope<T = String> {
    All,
    Guild(T),
}

impl View for RunQueryScope<String> {
    type V = RunQueryScope<Seq<char>>;

    open spec fn view(&self) -> RunQueryScope<Seq<char>> {
        match *self {
            RunQueryScope::All => RunQueryScope::All,
            RunQueryScope::Guild(guild_id) => RunQueryScope::Guild(guild_id@),
        }
    }
}

impl RunQueryScope<Seq<char>> {
    /// Whether a run of that guild may be shown.
    pub open spec fn allows(self, guild_id: Option<Seq<char>>) -> bool {
        match self {
            RunQueryScope::All => true,
            RunQueryScope::Guild(allowed) => guild_id == Some(allowed),
        }
    }
}

impl RunQueryScope<String> {
    /// Whether a run of that context may be shown.
    pub fn allows_context(&self, context: &RunContext) -> (r: bool)
        ensures
            r == self@.allows(context@.guild_id),
    {
        match &context.guild_id {
            Some(guild_id) => self.allows_guild_id(Some(guild_id.as_str())),
            None => self.allows_guild_id(None),
        }
    }

    /// Whether a run of that guild may be shown.
    pub fn allows_guild_id(&self, guild_id: Option<&str>) -> (r: bool)
        ensures
            r == self@.allows(opt_str(guild_id)),
    {
        match self {
            RunQueryScope::All => true,
            RunQueryScope::Guild(allowed) => match guild_id {
                Some(id) => text::same(id, allowed.as_str()),
                None => false,
            },
        }
    }
}

// ---------------------------------------------------------------------------
// The runs that are remembered
// ---------------------------------------------------------------------------

/// The views of a list of summaries.
pub open spec fn summaries(runs: Seq<RunSummary>) -> Seq<Summary> {
    runs.map_values(|run: RunSummary| run@)
}

/// The view of an optional summary.
pub open spec fn opt_summary(run: Option<RunSummary>) -> Option<Summary> {
    match run {
        Some(run) => Some(run@),
        None => None,
    }
}

/// The first `limit` items.
pub open spec fn at_most<A>(items: Seq<A>, limit: nat) -> Seq<A> {
    if items.len() <= limit {
        items
    } else {
        items.take(limit as int)
    }
}

/// The runs that a scope allows, in order.
pub open spec fn visible(runs: Seq<Summary>, scope: RunQueryScope<Seq<char>>) -> Seq<Summary>
    decreases runs.len(),
{
    if runs.len() == 0 {
        Seq::empty()
    } else {
        let before = visible(runs.drop_last(), scope);
        if scope.allows(runs.last().context.guild_id) {
            before.push(runs.last())
        } else {
            before
        }
    }
}

/// The first run for which `wanted` holds.
pub open spec fn first_where(runs: Seq<Summary>, wanted: spec_fn(Summary) -> bool) -> Option<Summary>
    decreases runs.len(),
{
    if runs.len() == 0 {
        None
    } else if wanted(runs[0]) {
        Some(runs[0])
    } else {
        first_where(runs.skip(1), wanted)
    }
}

/// Whether a run has that ID and may be shown.
pub open spec fn is_named(run_id: Seq<char>, scope: RunQueryScope<Seq<char>>) -> spec_fn(Summary) -> bool {
    |run: Summary| run.context.run_id == run_id && scope.allows(run.context.guild_id)
}

/// Whether a run failed and may be shown.
pub open spec fn is_failure(scope: RunQueryScope<Seq<char>>) -> spec_fn(Summary) -> bool {
    |run: Summary| scope.allows(run.context.guild_id) && run.failed()
}

/// The latest runs, newest first, and how events are persisted.
pub struct RunStore {
    runs: VecDeque<RunSummary>,
    limit: usize,
    persist_events: bool,
    redact_events: bool,
}

impl RunStore {
    /// The remembered runs, newest first.
    pub closed spec fn runs(&self) -> Seq<Summary> {
        summaries(self.runs@)
    }

    /// How many runs are remembered at most.
    pub closed spec fn limit(&self) -> nat {
        self.limit as nat
    }

    /// Whether events are written at all.
    pub closed spec fn persists(&self) -> bool {
        self.persist_events
    }

    /// Whether events are written without the user and the place.
    pub closed spec fn redacts(&self) -> bool {
        self.redact_events
    }

    /// No more runs are held than the limit says.
    #[verifier::type_invariant]
    spec fn bounded(self) -> bool {
        self.runs@.len() <= self.limit
    }

    /// A store without runs.
    pub fn new(limit: usize, persist_events: bool, redact_events: bool) -> (r: RunStore)
        ensures
            r.runs() == Seq::<Summary>::empty(),
            r.limit() == limit,
            r.persists() == persist_events,
            r.redacts() == redact_events,
    {
        let runs: VecDeque<RunSummary> = VecDeque::new();
        proof {
            assert(summaries(runs@) =~= Seq::<Summary>::empty());
        }
        RunStore { runs, limit, persist_events, redact_events }
    }

    /// Remembers a run as the newest and forgets the oldest beyond the limit.
    pub fn push(&mut self, summary: RunSummary)
        ensures
            final(self).runs() == at_most(seq![summary@] + old(self).runs(), old(self).limit()),
            final(self).limit() == old(self).limit(),
            final(self).persists() == old(self).persists(),
            final(self).redacts() == old(self).redacts(),
            final(self).runs().len() <= final(self).limit(),
    {
        proof {
            use_type_invariant(&*self);
        }
        let ghost wanted = seq![summary@] + self.runs();
        let limit: usize = self.limit;
        let mut runs: VecDeque<RunSummary> = VecDeque::new();
        std::mem::swap(&mut runs, &mut self.runs);
        runs.push_front(summary);
        proof {
            assert(summaries(runs@) =~= wanted);
            assert(wanted.take(runs@.len() as int) =~= wanted);
        }
        while runs.len() > limit
            invariant
                runs@.len() <= limit + 1,
                wanted.len() <= limit + 1,
                runs@.len() <= wanted.len(),
                runs@.len() == wanted.len() || runs@.len() == limit,
                summaries(runs@) == wanted.take(runs@.len() as int),
            decreases runs@.len(),
        {
            let ghost before = runs@;
            let _ = runs.pop_back();
            proof {
                assert(runs@ =~= before.drop_last());
                assert(summaries(runs@) =~= summaries(before).drop_last());
                assert(summaries(runs@) =~= wanted.take(runs@.len() as int));
            }
        }
        proof {
            assert(wanted.take(wanted.len() as int) =~= wanted);
            assert(summaries(runs@) =~= at_most(wanted, limit as nat));
        }
        self.runs = runs;
    }

    /// The newest runs that the scope allows, newest first, at most `limit`.
    pub fn recent_scoped(&self, limit: usize, scope: &RunQueryScope) -> (r: Vec<RunSummary>)
        ensures
            summaries(r@) == at_most(visible(self.runs(), scope@), limit as nat),
    {
        let mut out: Vec<RunSummary> = Vec::new();
        let mut i: usize = 0;
        let ghost all = self.runs();
        proof {
            assert(all.take(0) =~= Seq::<Summary>::empty());
            assert(summaries(out@) =~= Seq::<Summary>::empty());
        }
        while i < self.runs.len()
            invariant
                all == summaries(self.runs@),
                i <= all.len(),
                summaries(out@) == at_most(visible(all.take(i as int), scope@), limit as nat),
            decreases all.len() - i,
        {
            proof {
                let next = all.take(i + 1);
                assert(next.drop_last() =~= all.take(i as int));
                assert(next.last() == self.runs@[i as int]@);
            }
            let ghost seen = visible(all.take(i as int), scope@);
            if scope.allows_context(&self.runs[i].context) {
                if out.len() < limit {
                    let ghost before = out@;
                    out.push(self.runs[i].copied());
                    proof {
                        assert(summaries(out@) =~= summaries(before).push(self.runs@[i as int]@));
                        assert(seen.take(seen.len() as int) =~= seen);
                    }
                } else {
                    proof {
                        let more = seen.push(self.runs@[i as int]@);
                        assert(more.take(limit as int) =~= seen.take(limit as int));
                        assert(seen.take(seen.len() as int) =~= seen);
                        assert(summaries(out@).len() == out@.len());
                    }
                }
            }
            i += 1;
        }
        proof {
            assert(all.take(all.len() as int) =~= all);
        }
        out
    }

    /// The newest run of that ID that the scope allows.
    pub fn find_scoped(&self, run_id: &str, scope: &RunQueryScope) -> (r: Option<RunSummary>)
        ensures
            opt_summary(r) == first_where(self.runs(), is_named(run_id@, scope@)),
    {
        let mut i: usize = 0;
        let ghost all = self.runs();
        proof {
            assert(all.skip(0) =~= all);
        }
        while i < self.runs.len()
            invariant
                all == summaries(self.runs@),
                i <= all.len(),
                first_where(all, is_named(run_id@, scope@)) == first_where(
                    all.skip(i as int),
                    is_named(run_id@, scope@),
                ),
            decreases all.len() - i,
        {
            proof {
                assert(all.skip(i as int)[0] == self.runs@[i as int]@);
                assert(all.skip(i as int).skip(1) =~= all.skip(i + 1));
            }
            if text::same(self.runs[i].context.run_id.as_str(), run_id) && scope.allows_context(
                &self.runs[i].context,
            ) {
                return Some(self.runs[i].copied());
            }
            i += 1;
        }
        None
    }

    /// The newest failed run that the scope allows.
    pub fn last_error_scoped(&self, scope: &RunQueryScope) -> (r: Option<RunSummary>)
        ensures
            opt_summary(r) == first_where(self.runs(), is_failure(scope@)),
    {
        let mut i: usize = 0;
        let ghost all = self.runs();
        proof {
            assert(all.skip(0) =~= all);
        }
        while i < self.runs.len()
            invariant
                all == summaries(self.runs@),
                i <= all.len(),
                first_where(all, is_failure(scope@)) == first_where(
                    all.skip(i as int),
                    is_failure(scope@),
                ),
            decreases all.len() - i,
        {
            proof {
                assert(all.skip(i as int)[0] == self.runs@[i as int]@);
                assert(all.skip(i as int).skip(1) =~= all.skip(i + 1));
            }
            if scope.allows_context(&self.runs[i].context) && self.runs[i].has_failed() {
                return Some(self.runs[i].copied());
            }
            i += 1;
        }
        None
    }

    /// The event as it is to be appended to the event file; nothing where events
    /// are not persisted.
    pub fn append_event(&self, event: &RunEvent) -> (r: Option<RunEvent>)
        ensures
            r is Some == self.persists(),
            r matches Some(written) ==> written@ == if self.redacts() {
                redacted_event(event@)
            } else {
                event@
            },
    {
        if !self.persist_events {
            return None;
        }
        if self.redact_events {
            Some(event.redacted())
        } else {
            Some(event.copied())
        }
    }
}

/// A question within one guild is answered from that guild's runs alone: every
/// run that is shown is one of them, and what is shown does not depend on the
/// runs of others.
pub proof fn guild_answers_stay_in_the_guild(runs: Seq<Summary>, guild_id: Seq<char>)
    ensures
        forall|i: int|
            0 <= i < visible(runs, RunQueryScope::Guild(guild_id)).len() ==> (#[trigger] visible(
                runs,
                RunQueryScope::Guild(guild_id),
            )[i]).context.guild_id == Some(guild_id),
        visible(visible(runs, RunQueryScope::Guild(guild_id)), RunQueryScope::Guild(guild_id))
            == visible(runs, RunQueryScope::Guild(guild_id)),
    decreases runs.len(),
{
    let scope = RunQueryScope::Guild(guild_id);
    if runs.len() > 0 {
        guild_answers_stay_in_the_guild(runs.drop_last(), guild_id);
        let before = visible(runs.drop_last(), scope);
        if scope.allows(runs.last().context.guild_id) {
            assert(before.push(runs.last()).drop_last() =~= before);
        }
    }
}

/// A run that a search finds satisfies the search and is a remembered one.
pub proof fn found_runs_are_wanted(runs: Seq<Summary>, wanted: spec_fn(Summary) -> bool)
    ensures
        first_where(runs, wanted) matches Some(run) ==> wanted(run) && runs.contains(run),
        first_where(runs, wanted) is None ==> forall|i: int|
            0 <= i < runs.len() ==> !wanted(#[trigger] runs[i]),
    decreases runs.len(),
{
    if runs.len() > 0 {
        found_runs_are_wanted(runs.skip(1), wanted);
        assert forall|i: int| 0 < i < runs.len() implies #[trigger] runs[i] == runs.skip(1)[i - 1] by {}
        if let Some(run) = first_where(runs.skip(1), wanted) {
            let j = choose|j: int| 0 <= j < runs.skip(1).len() && runs.skip(1)[j] == run;
            assert(runs[j + 1] == run);
        }
    }
}

/// A search within one guild finds none of another guild's runs and none of a
/// direct message.
pub proof fn guild_searches_stay_in_the_guild(runs: Seq<Summary>, run_id: Seq<char>, guild_id: Seq<char>)
    ensures
        first_where(runs, is_named(run_id, RunQueryScope::Guild(guild_id))) matches Some(run)
            ==> run.context.guild_id == Some(guild_id) && run.context.run_id == run_id,
        first_where(runs, is_failure(RunQueryScope::Guild(guild_id))) matches Some(run)
            ==> run.context.guild_id == Some(guild_id) && run.failed(),
{
    found_runs_are_wanted(runs, is_named(run_id, RunQueryScope::Guild(guild_id)));
    found_runs_are_wanted(runs, is_failure(RunQueryScope::Guild(guild_id)));
}

// ---------------------------------------------------------------------------
// What is found
// ---------------------------------------------------------------------------

/// Whether a run may be shown: anything to one who sees all runs, and the runs of
/// their own guild to anyone else.
pub open spec fn may_be_shown(run: Summary, scope: RunQueryScope<Seq<char>>) -> bool {
    match scope {
        RunQueryScope::All => true,
        RunQueryScope::Guild(guild_id) => run.context.guild_id matches Some(own) && own == guild_id,
    }
}

/// Whether a run went wrong: it has an error class, or its outcome is "failed",
/// whatever its letters' case.
pub open spec fn went_wrong(run: Summary) -> bool {
    run.error_class is Some || lower(run.outcome) == "failed"@
}

/// Whether the run at `at` is the newest of those that are wanted.
pub open spec fn is_newest(runs: Seq<Summary>, wanted: spec_fn(Summary) -> bool, at: int) -> bool {
    &&& 0 <= at < runs.len()
    &&& wanted(runs[at])
    &&& forall|j: int| 0 <= j < at ==> !wanted(#[trigger] runs[j])
}

proof fn lemma_first_where(runs: Seq<Summary>, search: spec_fn(Summary) -> bool, wanted: spec_fn(Summary) -> bool)
    requires
        forall|run: Summary| #[trigger] search(run) <==> wanted(run),
    ensures
        first_where(runs, search) matches Some(run) ==> exists|at: int| #[trigger]
            is_newest(runs, wanted, at) && runs[at] == run,
        first_where(runs, search) is None ==> forall|i: int| 0 <= i < runs.len() ==> !wanted(#[trigger] runs[i]),
    decreases runs.len(),
{
    if runs.len() > 0 {
        let rest = runs.skip(1);
        lemma_first_where(rest, search, wanted);
        if search(runs[0]) {
            assert(is_newest(runs, wanted, 0));
        } else {
            assert forall|i: int| 0 <= i < runs.len() && first_where(rest, search) is None implies !wanted(
                #[trigger] runs[i],
            ) by {
                if i > 0 {
                    assert(rest[i - 1] == runs[i]);
                }
            }
            if let Some(run) = first_where(rest, search) {
                let at = choose|at: int| #[trigger] is_newest(rest, wanted, at) && rest[at] == run;
                assert forall|j: int| 0 <= j < at + 1 implies !wanted(#[trigger] runs[j]) by {
                    if j > 0 {
                        assert(rest[j - 1] == runs[j]);
                    }
                }
                assert(is_newest(runs, wanted, at + 1));
            }
        }
    }
}

/// The last error is the newest remembered run that may be shown and went wrong:
/// no newer one that may be shown did. Where nothing is found, no such run is
/// remembered.
pub proof fn last_error_is_the_newest_failure(runs: Seq<Summary>, scope: RunQueryScope<Seq<char>>)
    ensures
        ({
            let wanted = |run: Summary| may_be_shown(run, scope) && went_wrong(run);
            match first_where(runs, is_failure(scope)) {
                Some(run) => exists|at: int| #[trigger] is_newest(runs, wanted, at) && runs[at] == run,
                None => forall|i: int| 0 <= i < runs.len() ==> !wanted(#[trigger] runs[i]),
            }
        }),
{
    reveal_strlit("failed");
    assert(lower("failed"@) =~= "failed"@);
    lemma_first_where(runs, is_failure(scope), |run: Summary| may_be_shown(run, scope) && went_wrong(run));
}

/// A run is found by its ID: the newest of that ID that may be shown. Where nothing
/// is found, no such run is remembered.
pub proof fn runs_are_found_by_their_id(runs: Seq<Summary>, run_id: Seq<char>, scope: RunQueryScope<Seq<char>>)
    ensures
        ({
            let wanted = |run: Summary| may_be_shown(run, scope) && run.context.run_id == run_id;
            match first_where(runs, is_named(run_id, scope)) {
                Some(run) => exists|at: int| #[trigger] is_newest(runs, wanted, at) && runs[at] == run,
                None => forall|i: int| 0 <= i < runs.len() ==> !wanted(#[trigger] runs[i]),
            }
        }),
{
    lemma_first_where(
        runs,
        is_named(run_id, scope),
        |run: Summary| may_be_shown(run, scope) && run.context.run_id == run_id,
    );
}

/// The recent runs are all that may be shown, and no others, in their order, cut at
/// the limit.
pub proof fn recent_runs_are_those_that_may_be_shown(
    runs: Seq<Summary>,
    scope: RunQueryScope<Seq<char>>,
    limit: nat,
)
    ensures
        visible(runs, scope) == runs.filter(|run: Summary| may_be_shown(run, scope)),
        at_most(visible(runs, scope), limit).len() <= limit,
        forall|i: int|
            0 <= i < limit && i < visible(runs, scope).len() ==> i < at_most(visible(runs, scope), limit).len() && (
            #[trigger] at_most(visible(runs, scope), limit)[i]) == visible(runs, scope)[i],
    decreases runs.len(),
{
    reveal(Seq::filter);
    if runs.len() > 0 {
        recent_runs_are_those_that_may_be_shown(runs.drop_last(), scope, limit);
    }
}

/// A new run is remembered before all others, and only the oldest is forgotten for
/// it, where there is no room.
pub proof fn newest_runs_are_kept(run: Summary, runs: Seq<Summary>, limit: nat)
    requires
        0 < limit,
        runs.len() <= limit,
    ensures
        ({
            let kept = at_most(seq![run] + runs, limit);
            &&& kept[0] == run
            &&& kept.skip(1) == if runs.len() < limit {
                runs
            } else {
                runs.drop_last()
            }
        }),
{
    let kept = at_most(seq![run] + runs, limit);
    if runs.len() < limit {
        assert(kept.skip(1) =~= runs);
    } else {
        assert(kept.skip(1) =~= runs.drop_last());
    }
}

} // verus!
