//! The state that the commands share: whether a start may begin, which one is
//! under way, and how many provider operations are.

pub mod lock;
pub mod rules;

use vstd::prelude::*;
use crate::config::ArtifactCapture;
use crate::environment::{Config, ProviderConfig};
use crate::provider::{ProviderStartFailure, ProviderStartResult};
use crate::run_history::events::EventFileMaintenance;
use crate::run_history::RunContext;
use crate::terminal;
use crate::terminal::cleaned;
use crate::text;
use crate::text::{opt_str, opt_text, trim};

verus! {

// ---------------------------------------------------------------------------
// The start under way
// ---------------------------------------------------------------------------

/// The start that is under way.
#[verifier::ext_equal]
#[derive(Clone, Debug)]
pub struct ActiveStartRun<T = String> {
    pub run_id: T,
    pub guild_id: Option<T>,
}

impl View for ActiveStartRun<String> {
    type V = ActiveStartRun<Seq<char>>;

    open spec fn view(&self) -> ActiveStartRun<Seq<char>> {
        ActiveStartRun { run_id: self.run_id@, guild_id: opt_text(self.guild_id) }
    }
}

impl ActiveStartRun<String> {
    /// A copy.
    pub fn copied(&self) -> (r: ActiveStartRun)
        ensures
            r@ == self@,
    {
        ActiveStartRun { run_id: self.run_id.clone(), guild_id: text::copy_opt(&self.guild_id) }
    }
}

/// The view of an optional active start.
pub open spec fn opt_active(value: Option<ActiveStartRun>) -> Option<ActiveStartRun<Seq<char>>> {
    match value {
        Some(active) => Some(active@),
        None => None,
    }
}

/// Why a start may not begin.
#[verifier::ext_equal]
#[derive(Clone, Debug)]
pub enum StartAdmissionError<T = String> {
    Busy(ActiveStartRun<T>),
    ShuttingDown,
    Unavailable,
}

impl View for StartAdmissionError<String> {
    type V = StartAdmissionError<Seq<char>>;

    open spec fn view(&self) -> StartAdmissionError<Seq<char>> {
        match *self {
            StartAdmissionError::Busy(active) => StartAdmissionError::Busy(active@),
            StartAdmissionError::ShuttingDown => StartAdmissionError::ShuttingDown,
            StartAdmissionError::Unavailable => StartAdmissionError::Unavailable,
        }
    }
}

/// A line of warning: its command and its detail.
#[verifier::ext_equal]
#[derive(Clone, Debug)]
pub struct Warning<T = String> {
    pub command: T,
    pub detail: T,
}

impl View for Warning<String> {
    type V = Warning<Seq<char>>;

    open spec fn view(&self) -> Warning<Seq<char>> {
        Warning { command: self.command@, detail: self.detail@ }
    }
}

/// What the admission of a start asks for next. The state stays locked until
/// it is over.
#[verifier::ext_equal]
#[derive(Clone, Debug)]
pub enum AdmissionNext<T = String> {
    /// Acquire the file lock of start admission.
    AcquireLock,
    /// Write the marker of the active start, with this text.
    WriteMarker { contents: T },
    Admitted,
    Refused { error: StartAdmissionError<T>, warning: Option<Warning<T>> },
}

impl View for AdmissionNext<String> {
    type V = AdmissionNext<Seq<char>>;

    open spec fn view(&self) -> AdmissionNext<Seq<char>> {
        match *self {
            AdmissionNext::AcquireLock => AdmissionNext::AcquireLock,
            AdmissionNext::WriteMarker { contents } => AdmissionNext::WriteMarker {
                contents: contents@,
            },
            AdmissionNext::Admitted => AdmissionNext::Admitted,
            AdmissionNext::Refused { error, warning } => AdmissionNext::Refused {
                error: error@,
                warning: match warning {
                    Some(warning) => Some(warning@),
                    None => None,
                },
            },
        }
    }
}

/// What a contract sees of the shared state.
#[verifier::ext_equal]
pub struct StateView {
    pub active: Option<ActiveStartRun<Seq<char>>>,
    pub accepting: bool,
    pub operations: nat,
    pub minecraft_address: Seq<char>,
}

/// The state that the commands share.
pub struct BotState {
    active_start_run: Option<ActiveStartRun>,
    accepting_starts: bool,
    provider_operations: usize,
    minecraft_address: String,
}

impl View for BotState {
    type V = StateView;

    closed spec fn view(&self) -> StateView {
        StateView {
            active: opt_active(self.active_start_run),
            accepting: self.accepting_starts,
            operations: self.provider_operations as nat,
            minecraft_address: self.minecraft_address@,
        }
    }
}

/// A refusal without warning.
pub open spec fn refused(error: StartAdmissionError<Seq<char>>) -> AdmissionNext<Seq<char>> {
    AdmissionNext::Refused { error, warning: None }
}

/// A refusal because of the file system, with a warning.
pub open spec fn unavailable(command: Seq<char>, problem: Seq<char>, error: Seq<char>) -> AdmissionNext<Seq<char>> {
    AdmissionNext::Refused {
        error: StartAdmissionError::Unavailable,
        warning: Some(Warning { command, detail: problem + "; error "@ + cleaned(error) }),
    }
}

/// The start that a command asks for.
pub open spec fn run_of(context: RunContext<Seq<char>>) -> ActiveStartRun<Seq<char>> {
    ActiveStartRun { run_id: context.run_id, guild_id: context.guild_id }
}

/// How the admission of a start begins.
pub open spec fn admission_begins(state: StateView) -> AdmissionNext<Seq<char>> {
    if !state.accepting {
        refused(StartAdmissionError::ShuttingDown)
    } else {
        match state.active {
            Some(active) => refused(StartAdmissionError::Busy(active)),
            None => AdmissionNext::AcquireLock,
        }
    }
}

/// What happens to the shared state.
#[verifier::ext_equal]
pub enum StateChange {
    /// The server is reached at another address.
    Move { address: Seq<char> },
    Shutdown,
    /// A start gets under way, and a provider operation with it.
    Admit { run: ActiveStartRun<Seq<char>> },
    /// The start under way is forgotten, where it is the given one.
    Clear { run_id: Seq<char> },
    /// A provider operation is over.
    EndOperation,
}

/// Whether a change may happen to a state.
pub open spec fn may_change(state: StateView, change: StateChange) -> bool {
    match change {
        StateChange::Admit { .. } => admission_begins(state) is AcquireLock && state.operations < usize::MAX,
        StateChange::EndOperation => state.operations > 0,
        _ => true,
    }
}

/// The state after a change.
pub open spec fn changed(state: StateView, change: StateChange) -> StateView {
    match change {
        StateChange::Move { address } => StateView { minecraft_address: address, ..state },
        StateChange::Shutdown => StateView { accepting: false, ..state },
        StateChange::Admit { run } => StateView {
            active: Some(run),
            operations: state.operations + 1,
            ..state
        },
        StateChange::Clear { run_id } => StateView {
            active: match state.active {
                Some(active) => if active.run_id == run_id {
                    None
                } else {
                    Some(active)
                },
                None => None,
            },
            ..state
        },
        StateChange::EndOperation => StateView { operations: (state.operations - 1) as nat, ..state },
    }
}

fn refuse_unavailable(command: &str, problem: &str, error: &str) -> (r: AdmissionNext)
    ensures
        r@ == unavailable(command@, problem@, error@),
{
    AdmissionNext::Refused {
        error: StartAdmissionError::Unavailable,
        warning: Some(
            Warning {
                command: command.to_owned(),
                detail: text::cat3(problem, "; error ", terminal::clean(error).as_str()),
            },
        ),
    }
}

/// The right to the start under way. The command holds it, and so does the
/// provider's work, which may outlive the command.
#[verifier::ext_equal]
#[derive(Debug)]
pub struct ActiveStartLease<T = String> {
    pub run_id: T,
    pub holders: usize,
}

impl View for ActiveStartLease<String> {
    type V = ActiveStartLease<Seq<char>>;

    open spec fn view(&self) -> ActiveStartLease<Seq<char>> {
        ActiveStartLease { run_id: self.run_id@, holders: self.holders }
    }
}

impl ActiveStartLease<String> {
    /// The lease of an admitted start, held by its command.
    pub fn new(run_id: &str) -> (r: ActiveStartLease)
        ensures
            r@ == (ActiveStartLease { run_id: run_id@, holders: 1 }),
    {
        ActiveStartLease { run_id: run_id.to_owned(), holders: 1 }
    }

    /// The lease with one holder more.
    pub fn operation_guard(self) -> (r: ActiveStartLease)
        requires
            self.holders < usize::MAX,
        ensures
            r@ == (ActiveStartLease { holders: (self.holders + 1) as usize, ..self@ }),
    {
        ActiveStartLease { run_id: self.run_id, holders: self.holders + 1 }
    }
}

/// The address that a provider told, if it told one.
pub open spec fn told_address(end: Result<ProviderStartResult, ProviderStartFailure>) -> Option<Seq<char>> {
    match end {
        Ok(result) => result@.minecraft_address,
        Err(failure) => failure@.minecraft_address,
    }
}

impl BotState {
    /// The state of a bot that has just come up.
    pub fn new(minecraft_address: &str) -> (r: BotState)
        ensures
            r@ == (StateView {
                active: None,
                accepting: true,
                operations: 0,
                minecraft_address: minecraft_address@,
            }),
    {
        BotState {
            active_start_run: None,
            accepting_starts: true,
            provider_operations: 0,
            minecraft_address: minecraft_address.to_owned(),
        }
    }

    /// The start under way.
    pub fn active_start_run(&self) -> (r: Option<ActiveStartRun>)
        ensures
            opt_active(r) == self@.active,
    {
        match &self.active_start_run {
            Some(active) => Some(active.copied()),
            None => None,
        }
    }

    /// The address at which the server is asked for its status.
    pub fn minecraft_address(&self) -> (r: String)
        ensures
            r@ == self@.minecraft_address,
    {
        self.minecraft_address.clone()
    }

    /// Replaces the address at which the server is asked for its status.
    pub fn set_minecraft_address(&mut self, address: String)
        ensures
            final(self)@ == changed(old(self)@, StateChange::Move { address: address@ }),
    {
        self.minecraft_address = address;
    }

    /// The provider came back from a start: where it said at which address the
    /// server is reached, in a success or in a failure, that address is kept.
    pub fn after_provider(&mut self, end: &Result<ProviderStartResult, ProviderStartFailure>)
        ensures
            match told_address(*end) {
                Some(address) => final(self)@ == changed(old(self)@, StateChange::Move { address }),
                None => final(self)@ == old(self)@,
            },
    {
        let told = match end {
            Ok(result) => &result.minecraft_address,
            Err(failure) => &failure.minecraft_address,
        };
        match told {
            Some(address) => self.set_minecraft_address(address.clone()),
            None => {},
        }
    }

    /// Admits no further start.
    pub fn begin_shutdown(&mut self)
        ensures
            final(self)@ == changed(old(self)@, StateChange::Shutdown),
    {
        self.accepting_starts = false;
    }

    /// Begins the admission of a start.
    pub fn try_begin_start_run(&self) -> (r: AdmissionNext)
        ensures
            r@ == admission_begins(self@),
    {
        if !self.accepting_starts {
            return AdmissionNext::Refused {
                error: StartAdmissionError::ShuttingDown,
                warning: None,
            };
        }
        match &self.active_start_run {
            Some(active) => AdmissionNext::Refused {
                error: StartAdmissionError::Busy(active.copied()),
                warning: None,
            },
            None => AdmissionNext::AcquireLock,
        }
    }

    /// Goes on with an admission once the file lock was tried; an error is told
    /// by its message.
    pub fn after_admission_lock(&self, context: &RunContext, error: Option<&str>) -> (r: AdmissionNext)
        ensures
            r@ == match error {
                Some(error) => unavailable(
                    "start.admission"@,
                    "could not acquire start-admission lock"@,
                    error@,
                ),
                None => AdmissionNext::WriteMarker { contents: context@.run_id + "\n"@ },
            },
    {
        match error {
            Some(error) => refuse_unavailable(
                "start.admission",
                "could not acquire start-admission lock",
                error,
            ),
            None => AdmissionNext::WriteMarker {
                contents: text::cat2(context.run_id.as_str(), "\n"),
            },
        }
    }

    /// Ends an admission once the marker was written; an error is told by its
    /// message. The start is under way, and a provider operation with it, exactly
    /// where it is admitted.
    pub fn after_active_marker(&mut self, context: &RunContext, error: Option<&str>) -> (r: AdmissionNext)
        requires
            may_change(old(self)@, StateChange::Admit { run: run_of(context@) }),
        ensures
            match error {
                Some(error) => r@ == unavailable(
                    "start.marker"@,
                    "could not write active-start marker"@,
                    error@,
                ) && final(self)@ == old(self)@,
                None => r@ == AdmissionNext::<Seq<char>>::Admitted && final(self)@ == changed(
                    old(self)@,
                    StateChange::Admit { run: run_of(context@) },
                ),
            },
    {
        match error {
            Some(error) => refuse_unavailable(
                "start.marker",
                "could not write active-start marker",
                error,
            ),
            None => {
                self.active_start_run = Some(
                    ActiveStartRun {
                        run_id: context.run_id.clone(),
                        guild_id: text::copy_opt(&context.guild_id),
                    },
                );
                self.provider_operations = self.provider_operations + 1;
                AdmissionNext::Admitted
            },
        }
    }

    /// Forgets the start under way, where it is the given one.
    pub fn clear_active_start(&mut self, run_id: &str)
        ensures
            final(self)@ == changed(old(self)@, StateChange::Clear { run_id: run_id@ }),
    {
        let same = match &self.active_start_run {
            Some(active) => text::same(active.run_id.as_str(), run_id),
            None => false,
        };
        if same {
            self.active_start_run = None;
        }
    }

    /// One provider operation fewer is under way; whether that was the last.
    pub fn end_provider_operation(&mut self) -> (r: bool)
        requires
            may_change(old(self)@, StateChange::EndOperation),
        ensures
            final(self)@ == changed(old(self)@, StateChange::EndOperation),
            r == (final(self)@.operations == 0),
    {
        self.provider_operations = self.provider_operations - 1;
        self.provider_operations == 0
    }

    /// A holder of a lease is done with it. The start stays under way while
    /// another one holds the lease, and is forgotten with the last. Whether this
    /// was the last.
    pub fn release_lease(&mut self, lease: ActiveStartLease) -> (r: (ActiveStartLease, bool))
        requires
            lease.holders > 0,
        ensures
            r.0@ == (ActiveStartLease { holders: (lease.holders - 1) as usize, ..lease@ }),
            r.1 == (lease.holders == 1),
            final(self)@ == if lease.holders == 1 {
                changed(old(self)@, StateChange::Clear { run_id: lease@.run_id })
            } else {
                old(self)@
            },
    {
        let holders: usize = lease.holders - 1;
        if holders == 0 {
            self.clear_active_start(lease.run_id.as_str());
        }
        (ActiveStartLease { run_id: lease.run_id, holders }, holders == 0)
    }

    /// How many provider operations are under way.
    pub fn provider_operations(&self) -> (r: usize)
        ensures
            r == self@.operations,
    {
        self.provider_operations
    }

    /// Whether no provider operation is under way.
    pub fn is_idle(&self) -> (r: bool)
        ensures
            r == (self@.operations == 0),
    {
        self.provider_operations == 0
    }
}

/// Whether the marker of the active start is the one of that run.
pub fn marker_matches(contents: Option<&str>, run_id: &str) -> (r: bool)
    ensures
        r == match opt_str(contents) {
            Some(contents) => trim(contents) == run_id@,
            None => false,
        },
{
    match contents {
        Some(contents) => text::same(text::trimmed(contents).as_str(), run_id),
        None => false,
    }
}

/// What came of a marker that was to be removed.
#[derive(Clone, Copy, Debug, PartialEq, Eq, Structural)]
pub enum MarkerRemoval {
    Removed,
    NotFound,
    Failed,
}

/// What is wrong where the marker of an earlier start could not be removed.
pub fn stale_marker_problem(removal: MarkerRemoval) -> (r: Option<String>)
    ensures
        opt_text(r) == if removal == MarkerRemoval::Failed {
            Some("could not remove stale active-start marker"@)
        } else {
            None
        },
{
    match removal {
        MarkerRemoval::Removed | MarkerRemoval::NotFound => None,
        MarkerRemoval::Failed => Some("could not remove stale active-start marker".to_owned()),
    }
}

// ---------------------------------------------------------------------------
// Coming up
// ---------------------------------------------------------------------------

/// How the maintenance of the event file is reported.
pub open spec fn maintenance_text(maintenance: EventFileMaintenance<Seq<char>>) -> Seq<char> {
    match maintenance {
        EventFileMaintenance::RotatedUnredacted(path) => "rotated unredacted events to "@ + path,
        EventFileMaintenance::QuarantinedCorrupt(path) => "quarantined corrupt events to "@ + path,
    }
}

/// How the maintenance of the event file is reported.
pub fn maintenance_detail(maintenance: &EventFileMaintenance) -> (r: String)
    ensures
        r@ == maintenance_text(maintenance@),
{
    match maintenance {
        EventFileMaintenance::RotatedUnredacted(path) => text::cat2(
            "rotated unredacted events to ",
            path.as_str(),
        ),
        EventFileMaintenance::QuarantinedCorrupt(path) => text::cat2(
            "quarantined corrupt events to ",
            path.as_str(),
        ),
    }
}

/// Whether the bot writes to the artifact directory.
pub fn needs_writable_artifacts(config: &Config) -> (r: bool)
    ensures
        r == (config.artifact_capture != ArtifactCapture::Off || config.persist_run_events
            || config.provider is Pterodactyl),
{
    !matches!(config.artifact_capture, ArtifactCapture::Off) || config.persist_run_events
        || matches!(config.provider, ProviderConfig::Pterodactyl(_))
}

// ---------------------------------------------------------------------------
// Laws
// ---------------------------------------------------------------------------

/// A start is admitted only where none is under way and the bot is not shutting
/// down; while one is under way, or after shutdown began, none is.
pub proof fn at_most_one_start_is_under_way(state: StateView)
    ensures
        admission_begins(state) is AcquireLock <==> state.accepting && state.active is None,
        !state.accepting ==> admission_begins(state) == refused(StartAdmissionError::ShuttingDown),
        state.accepting && state.active is Some ==> admission_begins(state) == refused(
            StartAdmissionError::Busy(state.active->0),
        ),
{
}

/// The state after the first `n` of the given changes.
pub open spec fn state_after(begin: StateView, changes: Seq<StateChange>, n: int) -> StateView
    decreases n,
{
    if n <= 0 {
        begin
    } else {
        changed(state_after(begin, changes, n - 1), changes[n - 1])
    }
}

/// Whether a change may happen to the state that the earlier ones led to.
pub open spec fn may_follow(begin: StateView, changes: Seq<StateChange>, n: int) -> bool {
    may_change(state_after(begin, changes, n), changes[n])
}

/// Whether each change may happen to the state that the earlier ones led to.
pub open spec fn is_history(begin: StateView, changes: Seq<StateChange>) -> bool {
    forall|n: int| 0 <= n < changes.len() ==> #[trigger] may_follow(begin, changes, n)
}

/// Shutdown is final: whatever happens to the state afterwards, no start is
/// admitted any more.
pub proof fn shutdown_is_final(begin: StateView, changes: Seq<StateChange>, m: int, n: int)
    requires
        is_history(begin, changes),
        0 <= m < n < changes.len(),
        changes[m] is Shutdown,
    ensures
        !(changes[n] is Admit),
        !state_after(begin, changes, n).accepting,
    decreases n - m,
{
    if m + 1 < n {
        shutdown_is_final(begin, changes, m, n - 1);
    }
    assert(may_follow(begin, changes, n));
}

/// Starts do not overlap: between two that were admitted the first was
/// forgotten.
pub proof fn starts_do_not_overlap(begin: StateView, changes: Seq<StateChange>, m: int, n: int)
    requires
        is_history(begin, changes),
        0 <= m < n < changes.len(),
        changes[m] is Admit,
        changes[n] is Admit,
    ensures
        exists|k: int| m < k < n && #[trigger] changes[k] == (StateChange::Clear {
            run_id: changes[m]->run.run_id,
        }),
{
    let run = changes[m]->run;
    let cleared = StateChange::Clear { run_id: run.run_id };
    if forall|k: int| m < k < n ==> #[trigger] changes[k] != cleared {
        lemma_start_stays(begin, changes, m, n);
        assert(may_follow(begin, changes, n));
        assert(false);
    }
}

proof fn lemma_start_stays(begin: StateView, changes: Seq<StateChange>, m: int, n: int)
    requires
        is_history(begin, changes),
        0 <= m < n <= changes.len(),
        changes[m] is Admit,
        forall|k: int|
            m < k < n ==> #[trigger] changes[k] != (StateChange::Clear {
                run_id: changes[m]->run.run_id,
            }),
    ensures
        state_after(begin, changes, n).active == Some(changes[m]->run),
    decreases n - m,
{
    if m + 1 < n {
        lemma_start_stays(begin, changes, m, n - 1);
        assert(may_follow(begin, changes, n - 1));
        let last = changes[n - 1];
        if last is Clear {
            assert(last == (StateChange::Clear { run_id: last->run_id }));
        }
    }
}

} // verus!
