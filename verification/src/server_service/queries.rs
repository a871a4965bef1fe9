//! The commands that show what the bot did.

use vstd::prelude::*;
use crate::auth::{run_query_scope, scope_of, SensitiveCommandAccess};
use crate::run_history::{
    at_most, first_where, is_failure, is_named, is_newest, last_error_is_the_newest_failure,
    may_be_shown, recent_runs_are_those_that_may_be_shown, runs_are_found_by_their_id, summaries,
    visible, went_wrong, RunQueryScope, RunStore, RunSummary, Summary,
};
use crate::server_service::responses;
use crate::server_service::responses::{optional_part, run_text, told_after};
use crate::server_service::tracking::elapsed;
use crate::state::{opt_active, ActiveStartRun};
use crate::terminal;
use crate::terminal::duration_text;
use crate::text;
use crate::text::{decimal, join, lower, opt_text, texts};

verus! {

/// What a command answers, and what it logs once the answer is out.
#[verifier::ext_equal]
#[derive(Clone, Debug)]
pub struct Answer<T = String> {
    pub content: T,
    pub screenshot: Option<T>,
    pub label: T,
    /// What the log says before the duration.
    pub detail: T,
}

impl View for Answer<String> {
    type V = Answer<Seq<char>>;

    open spec fn view(&self) -> Answer<Seq<char>> {
        Answer {
            content: self.content@,
            screenshot: opt_text(self.screenshot),
            label: self.label@,
            detail: self.detail@,
        }
    }
}

impl Answer<String> {
    /// What the log says once the answer is out.
    pub fn log_detail(&self, started_at_ms: u128, now_ms: u128) -> (r: String)
        ensures
            r@ == self@.detail + " "@ + duration_text(elapsed(started_at_ms, now_ms) as nat),
    {
        let shown = terminal::format_duration(
            crate::server_service::tracking::elapsed_ms(started_at_ms, now_ms),
        );
        text::cat3(self.detail.as_str(), " ", shown.as_str())
    }
}

/// How many runs are shown: ten unless another number is asked for, at least one
/// and at most twenty.
pub open spec fn shown_runs(limit: Option<u8>) -> nat {
    match limit {
        None => 10,
        Some(n) => if n < 1 {
            1
        } else if n > 20 {
            20
        } else {
            n as nat
        },
    }
}

fn runs_to_show(limit: Option<u8>) -> (r: usize)
    ensures
        r == shown_runs(limit),
{
    match limit {
        None => 10,
        Some(n) => if n < 1 {
            1
        } else if n > 20 {
            20
        } else {
            n as usize
        },
    }
}

/// The line about a run in a list.
pub open spec fn run_line(run: Summary) -> Seq<char> {
    "`"@ + run.context.run_id + "` "@ + run.outcome + " by "@ + run.context.user_name + " in "@
        + run.context.guild_name + " ("@ + decimal(run.duration_ms as nat) + "ms)"@ + told_after(
        " error="@,
        run.error_class,
    )
}

fn show_run(run: &RunSummary) -> (r: String)
    ensures
        r@ == run_line(run@),
{
    let mut line = text::cat5(
        "`",
        run.context.run_id.as_str(),
        "` ",
        run.outcome.as_str(),
        " by ",
    );
    line.push_str(run.context.user_name.as_str());
    line.push_str(" in ");
    line.push_str(run.context.guild_name.as_str());
    line.push_str(" (");
    line.push_str(text::decimal_u128(run.duration_ms).as_str());
    line.push_str("ms)");
    line.push_str(optional_part(" error=", &run.error_class).as_str());
    line
}

/// The lines about runs.
pub open spec fn run_list(runs: Seq<Summary>) -> Seq<Seq<char>> {
    runs.map_values(|run: Summary| run_line(run))
}

/// The answer to the question for the latest runs.
pub open spec fn runs_answer(runs: Seq<Summary>) -> Answer<Seq<char>> {
    Answer {
        content: if runs.len() == 0 {
            "No completed runs recorded yet."@
        } else {
            "Last "@ + decimal(runs.len()) + " completed runs:\n"@ + join(run_list(runs), "\n"@)
        },
        screenshot: None,
        label: "OK"@,
        detail: decimal(runs.len()) + " runs"@,
    }
}

/// The latest runs that the caller may see.
pub open spec fn runs_told(
    runs: Seq<Summary>,
    access: SensitiveCommandAccess<Seq<char>>,
    limit: Option<u8>,
) -> Answer<Seq<char>> {
    runs_answer(at_most(visible(runs, scope_of(access)), shown_runs(limit)))
}

/// The latest runs that the caller may see.
pub fn runs(store: &RunStore, access: &SensitiveCommandAccess, limit: Option<u8>) -> (r: Answer)
    ensures
        r@ == runs_told(store.runs(), access@, limit),
{
    let found = store.recent_scoped(runs_to_show(limit), &run_query_scope(access));
    let ghost all = summaries(found@);
    let detail = text::cat2(text::decimal_usize(found.len()).as_str(), " runs");
    proof {
        assert(all.len() == found@.len());
    }
    if found.len() == 0 {
        return Answer {
            content: "No completed runs recorded yet.".to_owned(),
            screenshot: None,
            label: "OK".to_owned(),
            detail,
        };
    }
    let mut lines = text::no_texts();
    let mut i: usize = 0;
    while i < found.len()
        invariant
            i <= found@.len(),
            all == summaries(found@),
            texts(lines@) =~= run_list(all).take(i as int),
        decreases found@.len() - i,
    {
        text::add_text(&mut lines, show_run(&found[i]));
        proof {
            assert(run_list(all)[i as int] == run_line(found@[i as int]@));
            assert(run_list(all).take(i + 1) =~= run_list(all).take(i as int).push(
                run_list(all)[i as int],
            ));
        }
        i += 1;
    }
    proof {
        assert(run_list(all).take(all.len() as int) =~= run_list(all));
    }
    Answer {
        content: text::cat4(
            "Last ",
            text::decimal_usize(found.len()).as_str(),
            " completed runs:\n",
            text::joined(&lines, "\n").as_str(),
        ),
        screenshot: None,
        label: "OK".to_owned(),
        detail,
    }
}

/// The answer that shows a run.
pub open spec fn run_shown(run: Summary, named: Seq<char>) -> Answer<Seq<char>> {
    Answer {
        content: run_text(run),
        screenshot: run.screenshot_path,
        label: "OK"@,
        detail: named + " "@ + run.outcome,
    }
}

/// The answer to the question for one run.
pub open spec fn run_answer(
    found: Option<Summary>,
    active: Option<ActiveStartRun<Seq<char>>>,
    run_id: Seq<char>,
    scope: RunQueryScope<Seq<char>>,
) -> Answer<Seq<char>> {
    match found {
        Some(run) => run_shown(run, run_id),
        None => if active is Some && active->0.run_id == run_id && scope.allows(active->0.guild_id) {
            Answer {
                content: "Run `"@ + run_id
                    + "` is currently active. It will appear in `/bot runs` after it finishes."@,
                screenshot: None,
                label: "OK"@,
                detail: run_id + " active"@,
            }
        } else {
            Answer {
                content: "No run found for `"@ + run_id + "`."@,
                screenshot: None,
                label: "MISS"@,
                detail: run_id,
            }
        },
    }
}

fn show(run: &RunSummary, named: &str) -> (r: Answer)
    ensures
        r@ == run_shown(run@, named@),
{
    Answer {
        content: responses::format_run_detail(run),
        screenshot: text::copy_opt(&run.screenshot_path),
        label: "OK".to_owned(),
        detail: text::cat3(named, " ", run.outcome.as_str()),
    }
}

/// The run of that ID, where the caller may see it.
pub open spec fn run_told(
    runs: Seq<Summary>,
    active: Option<ActiveStartRun<Seq<char>>>,
    access: SensitiveCommandAccess<Seq<char>>,
    run_id: Seq<char>,
) -> Answer<Seq<char>> {
    run_answer(first_where(runs, is_named(run_id, scope_of(access))), active, run_id, scope_of(access))
}

/// The run of that ID, where the caller may see it.
pub fn run(
    store: &RunStore,
    active: &Option<ActiveStartRun>,
    access: &SensitiveCommandAccess,
    run_id: &str,
) -> (r: Answer)
    ensures
        r@ == run_told(store.runs(), opt_active(*active), access@, run_id@),
{
    let scope = run_query_scope(access);
    if let Some(found) = store.find_scoped(run_id, &scope) {
        return show(&found, run_id);
    }
    let is_active = match active {
        Some(active) => {
            let guild_id: Option<&str> = match &active.guild_id {
                Some(id) => Some(id.as_str()),
                None => None,
            };
            text::same(active.run_id.as_str(), run_id) && scope.allows_guild_id(guild_id)
        },
        None => false,
    };
    if is_active {
        return Answer {
            content: text::cat3(
                "Run `",
                run_id,
                "` is currently active. It will appear in `/bot runs` after it finishes.",
            ),
            screenshot: None,
            label: "OK".to_owned(),
            detail: text::cat2(run_id, " active"),
        };
    }
    Answer {
        content: text::cat3("No run found for `", run_id, "`."),
        screenshot: None,
        label: "MISS".to_owned(),
        detail: run_id.to_owned(),
    }
}

/// The answer to the question for the last failure.
pub open spec fn last_error_answer(found: Option<Summary>) -> Answer<Seq<char>> {
    match found {
        Some(run) => run_shown(run, run.context.run_id),
        None => Answer {
            content: "No failed runs recorded yet."@,
            screenshot: None,
            label: "OK"@,
            detail: "none"@,
        },
    }
}

/// The last failed run that the caller may see.
pub open spec fn last_error_told(runs: Seq<Summary>, access: SensitiveCommandAccess<Seq<char>>) -> Answer<Seq<char>> {
    last_error_answer(first_where(runs, is_failure(scope_of(access))))
}

/// The last failed run that the caller may see.
pub fn last_error(store: &RunStore, access: &SensitiveCommandAccess) -> (r: Answer)
    ensures
        r@ == last_error_told(store.runs(), access@),
{
    match store.last_error_scoped(&run_query_scope(access)) {
        Some(found) => show(&found, found.context.run_id.as_str()),
        None => Answer {
            content: "No failed runs recorded yet.".to_owned(),
            screenshot: None,
            label: "OK".to_owned(),
            detail: "none".to_owned(),
        },
    }
}

/// Of a run of another guild an administrator learns nothing, not even that it
/// is under way: the answer is that of a run that does not exist.
pub proof fn other_guilds_runs_do_not_exist(
    found: Option<Summary>,
    active: ActiveStartRun<Seq<char>>,
    run_id: Seq<char>,
    guild_id: Seq<char>,
)
    requires
        found is None,
        active.guild_id != Some(guild_id),
    ensures
        run_answer(found, Some(active), run_id, RunQueryScope::Guild(guild_id)) == run_answer(
            None,
            None,
            run_id,
            RunQueryScope::Guild(guild_id),
        ),
{
}

/// An owner's question is answered from all runs, an administrator's from those of
/// their guild.
pub proof fn callers_see_their_own(access: SensitiveCommandAccess<Seq<char>>, run: Summary)
    ensures
        access is Owner ==> may_be_shown(run, scope_of(access)),
        access matches SensitiveCommandAccess::GuildAdministrator { guild_id } ==> (may_be_shown(run, scope_of(access))
            <==> run.context.guild_id == Some(guild_id)),
{
}

/// Ten runs are shown unless another number is asked for, which is kept between one
/// and twenty.
pub proof fn asked_numbers_of_runs_are_kept_in_bounds(limit: Option<u8>)
    ensures
        1 <= shown_runs(limit) <= 20,
        limit is None ==> shown_runs(limit) == 10,
        limit matches Some(n) ==> {
            &&& 1 <= n <= 20 ==> shown_runs(limit) == n
            &&& n == 0 ==> shown_runs(limit) == 1
            &&& n > 20 ==> shown_runs(limit) == 20
        },
{
}

/// A run that was found is shown, under its ID and with its screenshot, whether or
/// not a start is under way. A start under way that the caller may see is told to be
/// under way. Anything else is not found.
pub proof fn found_runs_are_shown(
    found: Option<Summary>,
    active: Option<ActiveStartRun<Seq<char>>>,
    run_id: Seq<char>,
    scope: RunQueryScope<Seq<char>>,
)
    ensures
        ({
            let answer = run_answer(found, active, run_id, scope);
            let running = active matches Some(run) && run.run_id == run_id && (match scope {
                RunQueryScope::All => true,
                RunQueryScope::Guild(guild_id) => run.guild_id == Some(guild_id),
            });
            match found {
                Some(run) => answer.content == run_text(run) && answer.screenshot == run.screenshot_path && answer.label
                    == "OK"@ && answer.detail == run_id + " "@ + run.outcome,
                None => if running {
                    answer.content == "Run `"@ + run_id
                        + "` is currently active. It will appear in `/bot runs` after it finishes."@ && answer.label
                        == "OK"@ && answer.screenshot is None
                } else {
                    answer.content == "No run found for `"@ + run_id + "`."@ && answer.label == "MISS"@
                        && answer.screenshot is None
                },
            }
        }),
        last_error_answer(found) == (match found {
            Some(run) => Answer {
                content: run_text(run),
                screenshot: run.screenshot_path,
                label: "OK"@,
                detail: run.context.run_id + " "@ + run.outcome,
            },
            None => Answer {
                content: "No failed runs recorded yet."@,
                screenshot: None,
                label: "OK"@,
                detail: "none"@,
            },
        }),
{
}

/// A list of runs says how many it shows and shows each on a line, by its ID, its outcome,
/// who asked for it and where, how long it took, and its error.
pub proof fn lists_show_run_by_run(runs: Seq<Summary>, run: Summary)
    ensures
        run_line(run) == "`"@ + run.context.run_id + "` "@ + run.outcome + " by "@ + run.context.user_name + " in "@
            + run.context.guild_name + " ("@ + decimal(run.duration_ms as nat) + "ms)"@ + (match run.error_class {
            Some(class) => " error="@ + class,
            None => Seq::empty(),
        }),
        runs.len() == 0 ==> runs_answer(runs).content == "No completed runs recorded yet."@,
        runs.len() > 0 ==> runs_answer(runs).content == "Last "@ + decimal(runs.len()) + " completed runs:\n"@ + join(
            runs.map_values(|shown: Summary| run_line(shown)),
            "\n"@,
        ),
        runs_answer(runs).screenshot is None,
        runs_answer(runs).label == "OK"@,
        runs_answer(runs).detail == decimal(runs.len()) + " runs"@,
{
}

/// Whether the caller may see a run: an owner any, an administrator those of their guild.
pub open spec fn may_see(access: SensitiveCommandAccess<Seq<char>>, run: Summary) -> bool {
    match access {
        SensitiveCommandAccess::Owner => true,
        SensitiveCommandAccess::GuildAdministrator { guild_id } => run.context.guild_id == Some(guild_id),
    }
}

/// The last error that a caller is told of is the newest run that they may see and that
/// has an error class or whose outcome is "failed"; where there is none, that is said.
pub proof fn callers_are_told_of_their_newest_failure(runs: Seq<Summary>, access: SensitiveCommandAccess<Seq<char>>)
    ensures
        ({
            let wanted = |run: Summary| may_see(access, run) && (run.error_class is Some || lower(run.outcome) == "failed"@);
            let answer = last_error_told(runs, access);
            ||| exists|at: int| #[trigger]
                is_newest(runs, wanted, at) && answer.content == run_text(runs[at]) && answer.screenshot
                    == runs[at].screenshot_path
            ||| (forall|i: int| 0 <= i < runs.len() ==> !wanted(#[trigger] runs[i])) && answer.content
                == "No failed runs recorded yet."@
        }),
{
    let scope = scope_of(access);
    let wanted = |run: Summary| may_see(access, run) && (run.error_class is Some || lower(run.outcome) == "failed"@);
    let other = |run: Summary| may_be_shown(run, scope) && went_wrong(run);
    assert forall|run: Summary| #[trigger] other(run) <==> wanted(run) by {}
    last_error_is_the_newest_failure(runs, scope);
    match first_where(runs, is_failure(scope)) {
        Some(run) => {
            let at = choose|at: int| #[trigger] is_newest(runs, other, at) && runs[at] == run;
            assert forall|j: int| 0 <= j < at implies !wanted(#[trigger] runs[j]) by {
                assert(!other(runs[j]));
            }
            assert(other(runs[at]));
            assert(is_newest(runs, wanted, at));
        },
        None => {
            assert forall|i: int| 0 <= i < runs.len() implies !wanted(#[trigger] runs[i]) by {
                assert(!other(runs[i]));
            }
        },
    }
}

/// A run that a caller asks for is shown where it is remembered and they may see it, the
/// newest of its ID; where it is not, nothing is told of the runs of others.
pub proof fn callers_are_shown_the_run_they_ask_for(
    runs: Seq<Summary>,
    access: SensitiveCommandAccess<Seq<char>>,
    run_id: Seq<char>,
)
    ensures
        ({
            let wanted = |run: Summary| may_see(access, run) && run.context.run_id == run_id;
            let answer = run_told(runs, None, access, run_id);
            ||| exists|at: int| #[trigger]
                is_newest(runs, wanted, at) && answer.content == run_text(runs[at]) && answer.screenshot
                    == runs[at].screenshot_path
            ||| (forall|i: int| 0 <= i < runs.len() ==> !wanted(#[trigger] runs[i])) && answer.content
                == "No run found for `"@ + run_id + "`."@
        }),
{
    let scope = scope_of(access);
    let wanted = |run: Summary| may_see(access, run) && run.context.run_id == run_id;
    let other = |run: Summary| may_be_shown(run, scope) && run.context.run_id == run_id;
    assert forall|run: Summary| #[trigger] other(run) <==> wanted(run) by {}
    runs_are_found_by_their_id(runs, run_id, scope);
    match first_where(runs, is_named(run_id, scope)) {
        Some(run) => {
            let at = choose|at: int| #[trigger] is_newest(runs, other, at) && runs[at] == run;
            assert forall|j: int| 0 <= j < at implies !wanted(#[trigger] runs[j]) by {
                assert(!other(runs[j]));
            }
            assert(other(runs[at]));
            assert(is_newest(runs, wanted, at));
        },
        None => {
            assert forall|i: int| 0 <= i < runs.len() implies !wanted(#[trigger] runs[i]) by {
                assert(!other(runs[i]));
            }
        },
    }
}

/// The runs that a caller is shown are the newest of those that they may see, as many as
/// were asked for.
pub proof fn callers_are_shown_their_newest_runs(
    runs: Seq<Summary>,
    access: SensitiveCommandAccess<Seq<char>>,
    limit: Option<u8>,
)
    ensures
        ({
            let seen = runs.filter(|run: Summary| may_see(access, run));
            let number = match limit {
                None => 10int,
                Some(n) => if n == 0 {
                    1
                } else if n > 20 {
                    20
                } else {
                    n as int
                },
            };
            runs_told(runs, access, limit) == runs_answer(
                if seen.len() <= number {
                    seen
                } else {
                    seen.take(number)
                },
            )
        }),
{
    let scope = scope_of(access);
    recent_runs_are_those_that_may_be_shown(runs, scope, shown_runs(limit));
    lemma_same_filter(runs, access);
}

proof fn lemma_same_filter(runs: Seq<Summary>, access: SensitiveCommandAccess<Seq<char>>)
    ensures
        runs.filter(|run: Summary| may_see(access, run)) == runs.filter(
            |run: Summary| may_be_shown(run, scope_of(access)),
        ),
    decreases runs.len(),
{
    reveal(Seq::filter);
    if runs.len() > 0 {
        lemma_same_filter(runs.drop_last(), access);
    }
}

} // verus!
