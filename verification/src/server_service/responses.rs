//! What the commands answer.

use vstd::prelude::*;
use crate::minecraft::{status_text, ServerStatus};
use crate::provider::{ProviderProgress, ProviderProgressStage, ProviderStartFailure};
use crate::run_history::{RunStep, RunSummary, Summary};
use crate::terminal;
use crate::terminal::{cleaned, cleaned_values_fit_a_line};
use crate::text;
use crate::text::{
    clip, decimal, every, holds, is_space, join, lemma_every_replaced, lemma_replaced_one, occurs_at,
    opt_str, opt_text, replace_char, texts,
};

verus! {

/// In whose words a start is reported: those of any provider, or those of the
/// Aternos dashboard.
#[derive(Clone, Copy, Debug, PartialEq, Eq, Structural)]
pub enum Wording {
    Provider,
    Dashboard,
}

/// What is reported of the provider where its confirmation was lost.
pub const UNCONFIRMED_PROVIDER_STATUS: &'static str = "Unconfirmed (provider confirmation lost)";

// ---------------------------------------------------------------------------
// Notices
// ---------------------------------------------------------------------------

/// A content below the notice, where there is one.
pub open spec fn noticed(content: Seq<char>, notice: Option<Seq<char>>) -> Seq<char> {
    match notice {
        Some(notice) => notice + "\n\n"@ + content,
        None => content,
    }
}

/// A content below the notice, where there is one.
pub fn with_notice(content: String, notice: &Option<String>) -> (r: String)
    ensures
        r@ == noticed(content@, opt_text(*notice)),
{
    match notice {
        Some(notice) => text::cat3(notice.as_str(), "\n\n", content.as_str()),
        None => content,
    }
}

// ---------------------------------------------------------------------------
// A start on its way
// ---------------------------------------------------------------------------

/// A text with the run's ID on a line of its own.
pub open spec fn with_run(headline: Seq<char>, run_id: Seq<char>) -> Seq<char> {
    headline + "\nRun: `"@ + run_id + "`"@
}

/// A text with the run's ID on a line of its own.
pub fn on_run(headline: &str, run_id: &str) -> (r: String)
    ensures
        r@ == with_run(headline@, run_id@),
{
    text::cat4(headline, "\nRun: `", run_id, "`")
}

/// What is said once the command was understood.
pub open spec fn preparing_text(run_id: Seq<char>) -> Seq<char> {
    with_run(
        "Preparing the start operation. Progress will be posted in a bot message."@,
        run_id,
    )
}

/// What the progress message says first.
pub fn start_progress_content(run_id: &str, notice: &Option<String>) -> (r: String)
    ensures
        r@ == noticed(with_run("Starting server..."@, run_id@), opt_text(*notice)),
{
    with_notice(on_run("Starting server...", run_id), notice)
}

/// What is said while the bot waits for Minecraft.
pub open spec fn waiting_text(beginning: Seq<char>, wait_secs: u64, run_id: Seq<char>) -> Seq<char> {
    with_run(
        beginning + " Waiting up to "@ + terminal::duration_text((wait_secs * 1000) as nat)
            + " for Minecraft to report online."@,
        run_id,
    )
}

/// What is said while the bot waits for Minecraft.
pub fn waiting_content(beginning: &str, wait_secs: u64, run_id: &str) -> (r: String)
    ensures
        r@ == waiting_text(beginning@, wait_secs, run_id@),
{
    let shown = terminal::format_duration(wait_secs as u128 * 1000);
    let headline = text::cat4(
        beginning,
        " Waiting up to ",
        shown.as_str(),
        " for Minecraft to report online.",
    );
    on_run(headline.as_str(), run_id)
}

/// What a progress report is headed by.
pub open spec fn progress_headline(stage: ProviderProgressStage) -> Seq<char> {
    match stage {
        ProviderProgressStage::SolvingChallenge => "Preparing provider access."@,
        ProviderProgressStage::RequestingAllocation => "Requesting host allocation."@,
        ProviderProgressStage::WaitingForAllocation => "Waiting for host allocation."@,
        ProviderProgressStage::RequestingPower => "Host allocated; requesting server power."@,
    }
}

/// A detail in which nothing is a mention or ends a code span.
pub open spec fn safe_detail(detail: Seq<char>) -> Seq<char> {
    clip(replace_char(replace_char(cleaned(detail), '@', "@\u{200b}"@), '`', "'"@), 500)
}

/// A detail in which nothing is a mention or ends a code span.
pub fn discord_safe_provider_detail(detail: &str) -> (r: String)
    ensures
        r@ == safe_detail(detail@),
{
    let plain = text::replaced(terminal::clean(detail).as_str(), '@', "@\u{200b}");
    text::clipped(text::replaced(plain.as_str(), '`', "'").as_str(), 500)
}

/// What the progress message says of a progress report.
pub open spec fn progress_text(run_id: Seq<char>, progress: ProviderProgress<Seq<char>>) -> Seq<char> {
    with_run(progress_headline(progress.stage) + "\n"@ + safe_detail(progress.detail), run_id)
}

/// What the progress message says of a progress report.
pub fn provider_progress_content(run_id: &str, progress: &ProviderProgress) -> (r: String)
    ensures
        r@ == progress_text(run_id@, progress@),
{
    let headline = match progress.stage {
        ProviderProgressStage::SolvingChallenge => "Preparing provider access.",
        ProviderProgressStage::RequestingAllocation => "Requesting host allocation.",
        ProviderProgressStage::WaitingForAllocation => "Waiting for host allocation.",
        ProviderProgressStage::RequestingPower => "Host allocated; requesting server power.",
    };
    let detail = discord_safe_provider_detail(progress.detail.as_str());
    on_run(text::cat3(headline, "\n", detail.as_str()).as_str(), run_id)
}

/// Whether every at sign is followed by a zero-width space.
pub open spec fn mentions_are_broken(s: Seq<char>) -> bool {
    forall|i: int|
        0 <= i < s.len() && (#[trigger] s[i]) == '@' ==> i + 1 < s.len() && s[i + 1] == '\u{200b}'
}

proof fn lemma_broken_mentions(s: Seq<char>)
    ensures
        mentions_are_broken(replace_char(s, '@', "@\u{200b}"@)),
        replace_char(s, '@', "@\u{200b}"@).len() <= 2 * s.len(),
    decreases s.len(),
{
    reveal_strlit("@\u{200b}");
    if s.len() > 0 {
        lemma_broken_mentions(s.drop_last());
    }
}

/// What a provider says cannot mention anyone, cannot leave a code span or a pair
/// of double quotes, and stays short and on one line, whatever it is.
pub proof fn provider_details_are_harmless(detail: Seq<char>)
    ensures
        safe_detail(detail).len() <= 500,
        mentions_are_broken(safe_detail(detail)),
        !holds(safe_detail(detail), "@everyone"@),
        !holds(safe_detail(detail), "@here"@),
        !safe_detail(detail).contains('`'),
        !safe_detail(detail).contains('"'),
        !safe_detail(detail).contains('\n'),
        !safe_detail(detail).contains('\r'),
        every(safe_detail(detail), |c: char| is_space(c) ==> c == ' '),
{
    let clean = cleaned(detail);
    let plain = replace_char(clean, '@', "@\u{200b}"@);
    let quoted = replace_char(plain, '`', "'"@);
    cleaned_values_fit_a_line(detail);
    lemma_broken_mentions(clean);
    let plainly = |c: char| c != '"' && (is_space(c) ==> c == ' ');
    reveal_strlit("@\u{200b}");
    assert(every(clean, |c: char| c == '@' || plainly(c)));
    lemma_every_replaced(clean, '@', "@\u{200b}"@, plainly);
    reveal_strlit("'");
    assert("'"@ =~= seq!['\'']);
    lemma_replaced_one(plain, '`', '\'');
    assert(safe_detail(detail) == quoted);
    assert(mentions_are_broken(quoted)) by {
        assert forall|i: int| 0 <= i < quoted.len() && (#[trigger] quoted[i]) == '@' implies i + 1
            < quoted.len() && quoted[i + 1] == '\u{200b}' by {
            assert(plain[i] == '@');
        }
    }
    assert(every(quoted, plainly)) by {
        assert forall|i: int| 0 <= i < quoted.len() implies plainly(#[trigger] quoted[i]) by {
            assert(plainly(plain[i]));
        }
    }
    reveal_strlit("@everyone");
    reveal_strlit("@here");
    if holds(quoted, "@everyone"@) {
        let at = choose|at: int| #[trigger] occurs_at(quoted, "@everyone"@, at);
        assert(quoted.subrange(at, at + "@everyone"@.len())[0] == '@');
        assert(quoted.subrange(at, at + "@everyone"@.len())[1] == 'e');
        assert(quoted[at] == '@');
    }
    if holds(quoted, "@here"@) {
        let at = choose|at: int| #[trigger] occurs_at(quoted, "@here"@, at);
        assert(quoted.subrange(at, at + "@here"@.len())[0] == '@');
        assert(quoted.subrange(at, at + "@here"@.len())[1] == 'h');
        assert(quoted[at] == '@');
    }
}

// ---------------------------------------------------------------------------
// A start that is over
// ---------------------------------------------------------------------------

/// What the end of an accepted start is headed by.
pub open spec fn final_headline(wording: Wording, outcome: Seq<char>) -> Seq<char> {
    if outcome == "MinecraftOnline"@ {
        "Server is online."@
    } else if outcome == "WaitOnlineTimeout"@ {
        match wording {
            Wording::Provider =>
                "The provider accepted the start, but Minecraft did not report online before timeout."@,
            Wording::Dashboard =>
                "Aternos accepted the start, but Minecraft did not report online before timeout."@,
        }
    } else {
        "Start accepted."@
    }
}

/// What is said at the end of an accepted start.
pub open spec fn final_text(
    wording: Wording,
    run_id: Seq<char>,
    provider_name: Seq<char>,
    provider_status: Seq<char>,
    outcome: Seq<char>,
) -> Seq<char> {
    with_run(
        final_headline(wording, outcome) + (match wording {
            Wording::Provider => "\nProvider ("@ + provider_name + "): **"@,
            Wording::Dashboard => "\nAternos: **"@,
        }) + provider_status + "**"@,
        run_id,
    )
}

/// What is said at the end of an accepted start.
pub fn start_final_content(
    wording: Wording,
    run_id: &str,
    provider_name: &str,
    provider_status: &str,
    outcome: &str,
) -> (r: String)
    ensures
        r@ == final_text(wording, run_id@, provider_name@, provider_status@, outcome@),
{
    let headline = if text::same(outcome, "MinecraftOnline") {
        "Server is online."
    } else if text::same(outcome, "WaitOnlineTimeout") {
        match wording {
            Wording::Provider =>
                "The provider accepted the start, but Minecraft did not report online before timeout.",
            Wording::Dashboard =>
                "Aternos accepted the start, but Minecraft did not report online before timeout.",
        }
    } else {
        "Start accepted."
    };
    let source = match wording {
        Wording::Provider => text::cat3("\nProvider (", provider_name, "): **"),
        Wording::Dashboard => "\nAternos: **".to_owned(),
    };
    on_run(text::cat4(headline, source.as_str(), provider_status, "**").as_str(), run_id)
}

/// What is said in public of a failed start: its class and its run alone, or
/// that it may be repeated where the allocation timed out.
pub open spec fn public_failure(error_class: Seq<char>, run_id: Seq<char>) -> Seq<char> {
    if error_class == "ProviderAllocationTimeout"@ {
        with_run(
            "Host allocation did not finish before the timeout. Running `/server start` again is safe; Butler will inspect the current provider state before acting."@,
            run_id,
        )
    } else {
        with_run("Start failed: **"@ + error_class + "**"@, run_id)
    }
}

/// What is said in public of a failed start. It takes the class of the failure
/// and not its message, so that it cannot give the message away.
pub fn provider_failure_public_content(error_class: &str, run_id: &str) -> (r: String)
    ensures
        r@ == public_failure(error_class@, run_id@),
{
    if text::same(error_class, "ProviderAllocationTimeout") {
        return on_run(
            "Host allocation did not finish before the timeout. Running `/server start` again is safe; Butler will inspect the current provider state before acting.",
            run_id,
        );
    }
    on_run(text::cat3("Start failed: **", error_class, "**").as_str(), run_id)
}

/// Whether a status shows that a start was submitted.
pub fn status_confirms_start_submission(status: &ServerStatus) -> (r: bool)
    ensures
        r == !status@.offline_like(),
{
    !status.is_offline_like()
}

/// What is said while the bot finds out whether a start was submitted.
pub open spec fn checking_text(run_id: Seq<char>) -> Seq<char> {
    with_run("Start may have been submitted. Checking Minecraft status..."@, run_id)
}

/// What is said while the bot finds out whether a start was submitted.
pub fn start_submission_checking_content(run_id: &str) -> (r: String)
    ensures
        r@ == checking_text(run_id@),
{
    on_run("Start may have been submitted. Checking Minecraft status...", run_id)
}

/// What is said where Minecraft shows that a start was submitted.
pub open spec fn unconfirmed_text(run_id: Seq<char>, status: Seq<char>) -> Seq<char> {
    with_run(
        "Start appears submitted, but provider confirmation was lost.\nMinecraft: **"@ + status
            + "**"@,
        run_id,
    )
}

/// What is said where Minecraft shows that a start was submitted.
pub fn start_submitted_unconfirmed_content(run_id: &str, status: &ServerStatus) -> (r: String)
    ensures
        r@ == unconfirmed_text(run_id@, status_text(status@)),
{
    let headline = text::cat3(
        "Start appears submitted, but provider confirmation was lost.\nMinecraft: **",
        status.to_string().as_str(),
        "**",
    );
    on_run(headline.as_str(), run_id)
}

/// What is said once the bot has waited for Minecraft after a start whose
/// confirmation was lost.
pub fn start_submitted_unconfirmed_wait_final_content(
    run_id: &str,
    provider_name: &str,
    outcome: &str,
) -> (r: String)
    ensures
        r@ == final_text(
            Wording::Provider,
            run_id@,
            provider_name@,
            UNCONFIRMED_PROVIDER_STATUS@,
            outcome@,
        ),
{
    start_final_content(
        Wording::Provider,
        run_id,
        provider_name,
        UNCONFIRMED_PROVIDER_STATUS,
        outcome,
    )
}

/// What is said where nothing shows that a start was submitted.
pub open spec fn unverified_text(run_id: Seq<char>) -> Seq<char> {
    with_run("Start could not be verified after provider confirmation was lost."@, run_id)
}

/// What is said where nothing shows that a start was submitted.
pub fn start_submission_unverified_content(run_id: &str) -> (r: String)
    ensures
        r@ == unverified_text(run_id@),
{
    on_run("Start could not be verified after provider confirmation was lost.", run_id)
}

// ---------------------------------------------------------------------------
// Records
// ---------------------------------------------------------------------------

/// What is recorded of an accepted start.
pub open spec fn accepted_detail(wording: Wording, status: Seq<char>, artifact: Option<Seq<char>>) -> Seq<char> {
    match (wording, artifact) {
        (Wording::Provider, Some(path)) => "Provider status: "@ + status + "; artifact="@ + path,
        (Wording::Provider, None) => "Provider status: "@ + status,
        (Wording::Dashboard, Some(path)) => "Dashboard status: "@ + status + "; html="@ + path,
        (Wording::Dashboard, None) => "Dashboard status: "@ + status,
    }
}

/// What is recorded of an accepted start.
pub fn format_provider_detail(wording: Wording, status: &str, artifact_path: &Option<String>) -> (r: String)
    ensures
        r@ == accepted_detail(wording, status@, opt_text(*artifact_path)),
{
    match (wording, artifact_path) {
        (Wording::Provider, Some(path)) => text::cat4(
            "Provider status: ",
            status,
            "; artifact=",
            path.as_str(),
        ),
        (Wording::Provider, None) => text::cat2("Provider status: ", status),
        (Wording::Dashboard, Some(path)) => text::cat4(
            "Dashboard status: ",
            status,
            "; html=",
            path.as_str(),
        ),
        (Wording::Dashboard, None) => text::cat2("Dashboard status: ", status),
    }
}

/// What is recorded of a failed start.
pub open spec fn failure_detail(wording: Wording, failure: ProviderStartFailure<Seq<char>>) -> Seq<char> {
    match (wording, failure.detail_artifact_path) {
        (Wording::Provider, Some(path)) => failure.message + "; artifact="@ + path,
        (Wording::Dashboard, Some(path)) => failure.message + "; html="@ + path,
        (_, None) => failure.message,
    }
}

/// What is recorded of a failed start.
pub fn format_failure_detail(wording: Wording, failure: &ProviderStartFailure) -> (r: String)
    ensures
        r@ == failure_detail(wording, failure@),
{
    match (wording, &failure.detail_artifact_path) {
        (Wording::Provider, Some(path)) => text::cat3(
            failure.message.as_str(),
            "; artifact=",
            path.as_str(),
        ),
        (Wording::Dashboard, Some(path)) => text::cat3(
            failure.message.as_str(),
            "; html=",
            path.as_str(),
        ),
        (_, None) => failure.message.clone(),
    }
}

/// A text behind a beginning, or nothing where there is none.
pub open spec fn told_after(beginning: Seq<char>, value: Option<Seq<char>>) -> Seq<char> {
    match value {
        Some(value) => beginning + value,
        None => Seq::empty(),
    }
}

/// A text behind a beginning, or nothing where there is none.
pub fn optional_part(beginning: &str, value: &Option<String>) -> (r: String)
    ensures
        r@ == told_after(beginning@, opt_text(*value)),
{
    match value {
        Some(value) => text::cat2(beginning, value.as_str()),
        None => String::new(),
    }
}

/// How one step of a run is shown.
pub open spec fn step_line(step: RunStep<Seq<char>>) -> Seq<char> {
    "- `"@ + step.step + "` `"@ + step.status + "`"@ + told_after(" - "@, step.detail) + told_after(
        " error="@,
        step.error_class,
    )
}

fn show_step(step: &RunStep) -> (r: String)
    ensures
        r@ == step_line(step@),
{
    let mut shown = text::cat5("- `", step.step.as_str(), "` `", step.status.as_str(), "`");
    shown.push_str(optional_part(" - ", &step.detail).as_str());
    shown.push_str(optional_part(" error=", &step.error_class).as_str());
    shown
}

/// An optional text between a beginning and the end of a bold span, as a list
/// of one or none.
pub open spec fn bold_line(beginning: Seq<char>, value: Option<Seq<char>>) -> Seq<Seq<char>> {
    match value {
        Some(value) => seq![beginning + value + "**"@],
        None => Seq::empty(),
    }
}

/// The lines about a run before its steps.
pub open spec fn run_lines(run: Summary) -> Seq<Seq<char>> {
    seq![
        "Run `"@ + run.context.run_id + "`"@,
        "Command: `"@ + run.context.command + "`"@,
        "Outcome: **"@ + run.outcome + "**"@,
        "User: `"@ + run.context.user_name + "` (`"@ + run.context.user_id + "`)"@,
        "Guild: `"@ + run.context.guild_name + "`"@,
        "Duration: `"@ + decimal(run.duration_ms as nat) + "ms`"@,
        "Provider: `"@ + run.context.provider + "`"@,
    ] + bold_line("Provider status: **"@, run.final_provider_status) + bold_line(
        "Minecraft status: **"@,
        run.final_minecraft_status,
    ) + bold_line("Error: **"@, run.error_class) + seq!["Steps:"@]
}

/// Everything about a run.
pub open spec fn run_text(run: Summary) -> Seq<char> {
    join(run_lines(run) + run.steps.map_values(|step: RunStep<Seq<char>>| step_line(step)), "\n"@)
}

fn add_bold(lines: &mut Vec<String>, beginning: &str, value: &Option<String>)
    ensures
        texts(final(lines)@) == texts(old(lines)@) + bold_line(beginning@, opt_text(*value)),
{
    if let Some(value) = value {
        text::add_text(lines, text::cat3(beginning, value.as_str(), "**"));
    }
    proof {
        assert(texts(lines@) =~= texts(old(lines)@) + bold_line(beginning@, opt_text(*value)));
    }
}

/// Everything about a run.
pub fn format_run_detail(run: &RunSummary) -> (r: String)
    ensures
        r@ == run_text(run@),
{
    let mut lines = text::no_texts();
    text::add_text(&mut lines, text::cat3("Run `", run.context.run_id.as_str(), "`"));
    text::add_text(&mut lines, text::cat3("Command: `", run.context.command.as_str(), "`"));
    text::add_text(&mut lines, text::cat3("Outcome: **", run.outcome.as_str(), "**"));
    text::add_text(
        &mut lines,
        text::cat5(
            "User: `",
            run.context.user_name.as_str(),
            "` (`",
            run.context.user_id.as_str(),
            "`)",
        ),
    );
    text::add_text(&mut lines, text::cat3("Guild: `", run.context.guild_name.as_str(), "`"));
    text::add_text(
        &mut lines,
        text::cat3("Duration: `", text::decimal_u128(run.duration_ms).as_str(), "ms`"),
    );
    text::add_text(&mut lines, text::cat3("Provider: `", run.context.provider.as_str(), "`"));
    add_bold(&mut lines, "Provider status: **", &run.final_provider_status);
    add_bold(&mut lines, "Minecraft status: **", &run.final_minecraft_status);
    add_bold(&mut lines, "Error: **", &run.error_class);
    text::add_text(&mut lines, "Steps:".to_owned());
    proof {
        assert(texts(lines@) =~= run_lines(run@));
    }
    let ghost steps = run@.steps.map_values(|step: RunStep<Seq<char>>| step_line(step));
    let mut i: usize = 0;
    proof {
        assert(run_lines(run@) + steps.take(0) =~= run_lines(run@));
    }
    while i < run.steps.len()
        invariant
            i <= run.steps@.len(),
            steps == run@.steps.map_values(|step: RunStep<Seq<char>>| step_line(step)),
            texts(lines@) == run_lines(run@) + steps.take(i as int),
        decreases run.steps@.len() - i,
    {
        text::add_text(&mut lines, show_step(&run.steps[i]));
        proof {
            assert(run@.steps[i as int] == run.steps@[i as int]@);
            assert(texts(lines@) =~= run_lines(run@) + steps.take(i + 1));
        }
        i += 1;
    }
    proof {
        assert(steps.take(run.steps@.len() as int) =~= steps);
    }
    text::joined(&lines, "\n")
}

// ---------------------------------------------------------------------------
// Screenshots
// ---------------------------------------------------------------------------

/// The screenshot to attach: the given one, where screenshots are wanted and it
/// is a file.
pub open spec fn attachable(wanted: bool, path: Option<Seq<char>>, is_file: bool) -> Option<Seq<char>> {
    if wanted && is_file {
        path
    } else {
        None
    }
}

/// The screenshot to attach: the given one, where screenshots are wanted and it
/// is a file.
pub fn attachable_screenshot_path(
    attach_screenshots: bool,
    screenshot_path: Option<String>,
    is_file: bool,
) -> (r: Option<String>)
    ensures
        opt_text(r) == attachable(attach_screenshots, opt_text(screenshot_path), is_file),
{
    if !attach_screenshots || !is_file {
        return None;
    }
    screenshot_path
}

/// The text of the warning about a screenshot that could not be attached.
pub open spec fn attachment_warning(path: Seq<char>, error: Seq<char>) -> Seq<char> {
    "could not attach screenshot "@ + path + "; error "@ + cleaned(error)
}

/// The warning about an attachment that did not go through; without one, the
/// message is done.
pub fn after_attachment(path: &str, error: Option<&str>) -> (r: Option<String>)
    ensures
        opt_text(r) == match opt_str(error) {
            Some(error) => Some(attachment_warning(path@, error)),
            None => None,
        },
{
    match error {
        Some(error) => Some(
            text::cat4(
                "could not attach screenshot ",
                path,
                "; error ",
                terminal::clean(error).as_str(),
            ),
        ),
        None => None,
    }
}

/// The warning about a progress message that could not be edited.
pub fn edit_warning(error: &str) -> (r: String)
    ensures
        r@ == "could not edit start progress message; error "@ + cleaned(error@),
{
    text::cat2("could not edit start progress message; error ", terminal::clean(error).as_str())
}

// ---------------------------------------------------------------------------
// What holds of all answers
// ---------------------------------------------------------------------------

/// What is said at the end of an accepted start: that the server is online, that it did
/// not get so in time, or that the start was accepted; then the provider's status, and
/// the run. Whose words are used is up to the provider.
pub proof fn ends_say_how_it_went(
    run_id: Seq<char>,
    provider_name: Seq<char>,
    provider_status: Seq<char>,
    outcome: Seq<char>,
)
    ensures
        ({
            let told = |wording: Wording, headline: Seq<char>|
                final_text(wording, run_id, provider_name, provider_status, outcome) == headline + (if wording
                    == Wording::Provider {
                    "\nProvider ("@ + provider_name + "): **"@
                } else {
                    "\nAternos: **"@
                }) + provider_status + "**"@ + "\nRun: `"@ + run_id + "`"@;
            &&& outcome == "MinecraftOnline"@ ==> told(Wording::Provider, "Server is online."@) && told(
                Wording::Dashboard,
                "Server is online."@,
            )
            &&& outcome == "WaitOnlineTimeout"@ ==> told(
                Wording::Provider,
                "The provider accepted the start, but Minecraft did not report online before timeout."@,
            ) && told(
                Wording::Dashboard,
                "Aternos accepted the start, but Minecraft did not report online before timeout."@,
            )
            &&& outcome != "MinecraftOnline"@ && outcome != "WaitOnlineTimeout"@ ==> told(
                Wording::Provider,
                "Start accepted."@,
            ) && told(Wording::Dashboard, "Start accepted."@)
        }),
{
    reveal_strlit("MinecraftOnline");
    reveal_strlit("WaitOnlineTimeout");
    assert("MinecraftOnline"@.len() == 15 && "WaitOnlineTimeout"@.len() == 17);
}

/// A failed start is told by its class and its run; of an allocation that took too long it
/// is told that another try is safe.
pub proof fn failures_are_told_by_their_class(error_class: Seq<char>, run_id: Seq<char>)
    ensures
        error_class != "ProviderAllocationTimeout"@ ==> public_failure(error_class, run_id) == "Start failed: **"@
            + error_class + "**"@ + "\nRun: `"@ + run_id + "`"@,
        error_class == "ProviderAllocationTimeout"@ ==> public_failure(error_class, run_id)
            == "Host allocation did not finish before the timeout. Running `/server start` again is safe; Butler will inspect the current provider state before acting."@
            + "\nRun: `"@ + run_id + "`"@,
{
}

/// A notice stands above what it is about, and nothing is lost of that.
pub proof fn notices_stand_above(content: Seq<char>, notice: Seq<char>)
    ensures
        noticed(content, None) == content,
        noticed(content, Some(notice)) == notice + "\n\n"@ + content,
{
}

/// A screenshot is attached where that is wanted and it is a file.
pub proof fn screenshots_are_attached_where_wanted(wanted: bool, path: Option<Seq<char>>, is_file: bool)
    ensures
        attachable(wanted, path, is_file) is Some <==> wanted && is_file && path is Some,
        attachable(wanted, path, is_file) is Some ==> attachable(wanted, path, is_file) == path,
{
}

/// What is shown of a run tells, line by line, its ID, its command, its outcome, who asked
/// for it and where, how long it took and by what provider; what is known of the provider,
/// of Minecraft and of the error; and then its steps.
pub proof fn runs_are_shown_line_by_line(run: Summary)
    ensures
        ({
            let lines = run_lines(run);
            let known = (if run.final_provider_status is Some {
                1int
            } else {
                0
            }) + (if run.final_minecraft_status is Some {
                1int
            } else {
                0
            }) + (if run.error_class is Some {
                1int
            } else {
                0
            });
            &&& lines.len() == 8 + known
            &&& lines[0] == "Run `"@ + run.context.run_id + "`"@
            &&& lines[1] == "Command: `"@ + run.context.command + "`"@
            &&& lines[2] == "Outcome: **"@ + run.outcome + "**"@
            &&& lines[3] == "User: `"@ + run.context.user_name + "` (`"@ + run.context.user_id + "`)"@
            &&& lines[4] == "Guild: `"@ + run.context.guild_name + "`"@
            &&& lines[5] == "Duration: `"@ + decimal(run.duration_ms as nat) + "ms`"@
            &&& lines[6] == "Provider: `"@ + run.context.provider + "`"@
            &&& lines.last() == "Steps:"@
            &&& run.final_provider_status matches Some(status) ==> lines[7] == "Provider status: **"@ + status + "**"@
            &&& run.error_class matches Some(class) ==> lines[lines.len() - 2] == "Error: **"@ + class + "**"@
            &&& run.final_minecraft_status matches Some(status) ==> lines.contains(
                "Minecraft status: **"@ + status + "**"@,
            )
        }),
        run_text(run) == join(
            run_lines(run) + run.steps.map_values(|step: RunStep<Seq<char>>| step_line(step)),
            "\n"@,
        ),
{
    let lines = run_lines(run);
    let at: int = if run.final_provider_status is Some {
        8
    } else {
        7
    };
    if let Some(status) = run.final_minecraft_status {
        assert(lines[at] == "Minecraft status: **"@ + status + "**"@);
    }
}

/// A step is shown by its name and its status, with its detail and its error where there
/// are any.
pub proof fn steps_are_shown_by_their_name(step: RunStep<Seq<char>>)
    ensures
        ({
            let name = "- `"@ + step.step + "` `"@ + step.status + "`"@;
            &&& step.detail is None && step.error_class is None ==> step_line(step) == name
            &&& step.detail matches Some(detail) ==> (step.error_class is None ==> step_line(step) == name + " - "@ + detail)
            &&& step.error_class matches Some(class) ==> (step.detail is None ==> step_line(step) == name + " error="@
                + class)
            &&& step.error_class matches Some(class) ==> (step.detail matches Some(detail) ==> step_line(step) == name
                + " - "@ + detail + " error="@ + class)
        }),
{
    let name = "- `"@ + step.step + "` `"@ + step.status + "`"@;
    let none = Seq::<char>::empty();
    assert(name + none + none =~= name);
    if let Some(detail) = step.detail {
        assert(name + (" - "@ + detail) + none =~= name + " - "@ + detail);
        if let Some(class) = step.error_class {
            assert(name + (" - "@ + detail) + (" error="@ + class) =~= name + " - "@ + detail + " error="@ + class);
        }
    }
    if let Some(class) = step.error_class {
        assert(name + none + (" error="@ + class) =~= name + " error="@ + class);
    }
}

/// Progress is told by its stage, with a harmless detail below it.
pub proof fn progress_is_told_by_its_stage(run_id: Seq<char>, detail: Seq<char>)
    ensures
        ({
            let told = |stage: ProviderProgressStage, headline: Seq<char>|
                progress_text(run_id, ProviderProgress { stage, detail }) == headline + "\n"@ + safe_detail(detail)
                    + "\nRun: `"@ + run_id + "`"@;
            &&& told(ProviderProgressStage::SolvingChallenge, "Preparing provider access."@)
            &&& told(ProviderProgressStage::RequestingAllocation, "Requesting host allocation."@)
            &&& told(ProviderProgressStage::WaitingForAllocation, "Waiting for host allocation."@)
            &&& told(ProviderProgressStage::RequestingPower, "Host allocated; requesting server power."@)
        }),
{
}

} // verus!
