//! Bringing the solver's container up, and bringing it back, without touching a
//! container that somebody else runs.

use vstd::prelude::*;
use crate::pterodactyl::lifecycle::{
    container_recovery_action, recovery, ContainerRecoveryAction, ContainerSnapshot,
};
use crate::text;
use crate::text::{opt_text, same_opt};

verus! {

/// What the supervisor asks for next.
#[verifier::ext_equal]
#[derive(Debug)]
pub enum RuntimeAction<T = String> {
    EnsureOrbStack,
    CheckReady,
    Inspect { reference: T },
    ReadMarker,
    RemoveMarker,
    SecureMarker,
    WriteMarker { id: T },
    StartContainer { id: T },
    RestartContainer { id: T },
    StopContainer { id: T },
    /// Stop the container, provided that it is still the one of that ID.
    StopOwned { id: T },
    WaitReady,
    /// The work is over: with the container that is owned now, or an error.
    Finish { end: Result<Option<T>, T> },
}

/// The view of the end of the work.
pub open spec fn end_view(end: Result<Option<String>, String>) -> Result<Option<Seq<char>>, Seq<char>> {
    match end {
        Ok(owned) => Ok(opt_text(owned)),
        Err(message) => Err(message@),
    }
}

impl View for RuntimeAction<String> {
    type V = RuntimeAction<Seq<char>>;

    open spec fn view(&self) -> RuntimeAction<Seq<char>> {
        match *self {
            RuntimeAction::EnsureOrbStack => RuntimeAction::EnsureOrbStack,
            RuntimeAction::CheckReady => RuntimeAction::CheckReady,
            RuntimeAction::Inspect { reference } => RuntimeAction::Inspect { reference: reference@ },
            RuntimeAction::ReadMarker => RuntimeAction::ReadMarker,
            RuntimeAction::RemoveMarker => RuntimeAction::RemoveMarker,
            RuntimeAction::SecureMarker => RuntimeAction::SecureMarker,
            RuntimeAction::WriteMarker { id } => RuntimeAction::WriteMarker { id: id@ },
            RuntimeAction::StartContainer { id } => RuntimeAction::StartContainer { id: id@ },
            RuntimeAction::RestartContainer { id } => RuntimeAction::RestartContainer { id: id@ },
            RuntimeAction::StopContainer { id } => RuntimeAction::StopContainer { id: id@ },
            RuntimeAction::StopOwned { id } => RuntimeAction::StopOwned { id: id@ },
            RuntimeAction::WaitReady => RuntimeAction::WaitReady,
            RuntimeAction::Finish { end } => RuntimeAction::Finish { end: end_view(end) },
        }
    }
}

/// What came of an action.
#[verifier::ext_equal]
#[allow(inconsistent_fields)]
#[derive(Debug)]
pub enum RuntimeEvent<T = String> {
    Done { result: Result<(), T> },
    Looked { ready: bool },
    Inspected { result: Result<ContainerSnapshot<T>, T> },
    /// Whether there is a marker, and the container that it names.
    Marker { exists: bool, id: Result<Option<T>, T> },
}

impl View for RuntimeEvent<String> {
    type V = RuntimeEvent<Seq<char>>;

    open spec fn view(&self) -> RuntimeEvent<Seq<char>> {
        match *self {
            RuntimeEvent::Done { result: Ok(done) } => RuntimeEvent::Done { result: Ok(done) },
            RuntimeEvent::Done { result: Err(message) } => RuntimeEvent::Done { result: Err(message@) },
            RuntimeEvent::Looked { ready } => RuntimeEvent::Looked { ready },
            RuntimeEvent::Inspected { result: Ok(snapshot) } => RuntimeEvent::Inspected {
                result: Ok(snapshot@),
            },
            RuntimeEvent::Inspected { result: Err(message) } => RuntimeEvent::Inspected {
                result: Err(message@),
            },
            RuntimeEvent::Marker { exists, id } => RuntimeEvent::Marker { exists, id: end_view(id) },
        }
    }
}

/// Which outcome the supervisor waits for.
#[verifier::ext_equal]
#[derive(Debug)]
pub enum RuntimePhase<T = String> {
    // Bringing the container up.
    Orb,
    Inspecting,
    Marker { initial: ContainerSnapshot<T> },
    MarkerSettled { initial: ContainerSnapshot<T>, inherited: bool },
    Starting { id: T },
    Reinspecting { id: T },
    Marking { id: T },
    Waiting { owned: Option<T> },
    Restarting { id: T, error: T },
    WaitingAgain { id: T, error: T },
    StoppingOwned { error: T },
    // Bringing it back.
    Looking { owned: Option<T> },
    HealOrb { owned: Option<T> },
    HealInspecting { owned: Option<T> },
    HealStarted { id: T },
    HealWaiting { id: T },
    AdoptStarted { id: T },
    AdoptMarking { id: T },
    AdoptWaiting { id: T },
    // Cleaning up before an error is returned.
    StopThenFail { error: T },
    StopThenRemove { error: T },
    RemoveThenFail { error: T },
    Over,
}

impl View for RuntimePhase<String> {
    type V = RuntimePhase<Seq<char>>;

    open spec fn view(&self) -> RuntimePhase<Seq<char>> {
        match *self {
            RuntimePhase::Orb => RuntimePhase::Orb,
            RuntimePhase::Inspecting => RuntimePhase::Inspecting,
            RuntimePhase::Marker { initial } => RuntimePhase::Marker { initial: initial@ },
            RuntimePhase::MarkerSettled { initial, inherited } => RuntimePhase::MarkerSettled {
                initial: initial@,
                inherited,
            },
            RuntimePhase::Starting { id } => RuntimePhase::Starting { id: id@ },
            RuntimePhase::Reinspecting { id } => RuntimePhase::Reinspecting { id: id@ },
            RuntimePhase::Marking { id } => RuntimePhase::Marking { id: id@ },
            RuntimePhase::Waiting { owned } => RuntimePhase::Waiting { owned: opt_text(owned) },
            RuntimePhase::Restarting { id, error } => RuntimePhase::Restarting { id: id@, error: error@ },
            RuntimePhase::WaitingAgain { id, error } => RuntimePhase::WaitingAgain {
                id: id@,
                error: error@,
            },
            RuntimePhase::StoppingOwned { error } => RuntimePhase::StoppingOwned { error: error@ },
            RuntimePhase::Looking { owned } => RuntimePhase::Looking { owned: opt_text(owned) },
            RuntimePhase::HealOrb { owned } => RuntimePhase::HealOrb { owned: opt_text(owned) },
            RuntimePhase::HealInspecting { owned } => RuntimePhase::HealInspecting {
                owned: opt_text(owned),
            },
            RuntimePhase::HealStarted { id } => RuntimePhase::HealStarted { id: id@ },
            RuntimePhase::HealWaiting { id } => RuntimePhase::HealWaiting { id: id@ },
            RuntimePhase::AdoptStarted { id } => RuntimePhase::AdoptStarted { id: id@ },
            RuntimePhase::AdoptMarking { id } => RuntimePhase::AdoptMarking { id: id@ },
            RuntimePhase::AdoptWaiting { id } => RuntimePhase::AdoptWaiting { id: id@ },
            RuntimePhase::StopThenFail { error } => RuntimePhase::StopThenFail { error: error@ },
            RuntimePhase::StopThenRemove { error } => RuntimePhase::StopThenRemove { error: error@ },
            RuntimePhase::RemoveThenFail { error } => RuntimePhase::RemoveThenFail { error: error@ },
            RuntimePhase::Over => RuntimePhase::Over,
        }
    }
}

/// What a phase waits for the outcome of.
pub open spec fn runtime_awaits(phase: RuntimePhase<Seq<char>>, event: RuntimeEvent<Seq<char>>) -> bool {
    match phase {
        RuntimePhase::Looking { .. } => event is Looked,
        RuntimePhase::Inspecting | RuntimePhase::Reinspecting { .. }
        | RuntimePhase::HealInspecting { .. } => event is Inspected,
        RuntimePhase::Marker { .. } => event is Marker,
        RuntimePhase::Over => false,
        _ => event is Done,
    }
}

/// A phase and the action whose outcome it waits for.
pub type RuntimeStep<T> = (RuntimePhase<T>, RuntimeAction<T>);

/// The work is over.
pub open spec fn ends(end: Result<Option<Seq<char>>, Seq<char>>) -> RuntimeStep<Seq<char>> {
    (RuntimePhase::Over, RuntimeAction::Finish { end })
}

/// The marker is settled: start a stopped container, wait for a running one.
pub open spec fn marker_settled(initial: ContainerSnapshot<Seq<char>>, inherited: bool) -> RuntimeStep<Seq<char>> {
    if !initial.running {
        (
            RuntimePhase::Starting { id: initial.id },
            RuntimeAction::StartContainer { id: initial.id },
        )
    } else {
        (
            RuntimePhase::Waiting {
                owned: if inherited {
                    Some(initial.id)
                } else {
                    None
                },
            },
            RuntimeAction::WaitReady,
        )
    }
}

/// What the recovery of an inspected container begins with.
pub open spec fn heal(container: ContainerSnapshot<Seq<char>>, owned: Option<Seq<char>>) -> RuntimeStep<Seq<char>> {
    match recovery(container, owned) {
        ContainerRecoveryAction::RestartOwned => (
            RuntimePhase::HealStarted { id: container.id },
            RuntimeAction::RestartContainer { id: container.id },
        ),
        ContainerRecoveryAction::StartOwned => (
            RuntimePhase::HealStarted { id: container.id },
            RuntimeAction::StartContainer { id: container.id },
        ),
        ContainerRecoveryAction::StartAndAdopt => (
            RuntimePhase::AdoptStarted { id: container.id },
            RuntimeAction::StartContainer { id: container.id },
        ),
        ContainerRecoveryAction::RefuseUnownedRunning => ends(
            Err("FlareSolverrUnavailable: refusing to restart an unowned container"@),
        ),
        ContainerRecoveryAction::IdentityChanged => ends(
            Err("FlareSolverrUnavailable: owned container identity changed"@),
        ),
    }
}

/// What follows a command that succeeded.
pub open spec fn after_success(phase: RuntimePhase<Seq<char>>, container: Seq<char>) -> RuntimeStep<Seq<char>> {
    match phase {
        RuntimePhase::Orb => (RuntimePhase::Inspecting, RuntimeAction::Inspect { reference: container }),
        RuntimePhase::MarkerSettled { initial, inherited } => marker_settled(initial, inherited),
        RuntimePhase::Starting { id } => (
            RuntimePhase::Reinspecting { id },
            RuntimeAction::Inspect { reference: id },
        ),
        RuntimePhase::Marking { id } => (
            RuntimePhase::Waiting { owned: Some(id) },
            RuntimeAction::WaitReady,
        ),
        RuntimePhase::Waiting { owned } => ends(Ok(owned)),
        RuntimePhase::Restarting { id, error } => (
            RuntimePhase::WaitingAgain { id, error },
            RuntimeAction::WaitReady,
        ),
        RuntimePhase::WaitingAgain { id, .. } => ends(Ok(Some(id))),
        RuntimePhase::HealOrb { owned } => (
            RuntimePhase::HealInspecting { owned },
            RuntimeAction::Inspect { reference: container },
        ),
        RuntimePhase::HealStarted { id } => (
            RuntimePhase::HealWaiting { id },
            RuntimeAction::WaitReady,
        ),
        RuntimePhase::HealWaiting { id } => ends(Ok(Some(id))),
        RuntimePhase::AdoptStarted { id } => (
            RuntimePhase::AdoptMarking { id },
            RuntimeAction::WriteMarker { id },
        ),
        RuntimePhase::AdoptMarking { id } => (
            RuntimePhase::AdoptWaiting { id },
            RuntimeAction::WaitReady,
        ),
        RuntimePhase::AdoptWaiting { id } => ends(Ok(Some(id))),
        RuntimePhase::StoppingOwned { error } | RuntimePhase::StopThenRemove { error } => (
            RuntimePhase::RemoveThenFail { error },
            RuntimeAction::RemoveMarker,
        ),
        RuntimePhase::StopThenFail { error } | RuntimePhase::RemoveThenFail { error } => ends(
            Err(error),
        ),
        _ => arbitrary(),
    }
}

/// What follows a command that failed.
pub open spec fn after_failure(phase: RuntimePhase<Seq<char>>, message: Seq<char>) -> RuntimeStep<Seq<char>> {
    match phase {
        RuntimePhase::MarkerSettled { initial, inherited: false } => marker_settled(initial, false),
        RuntimePhase::Marking { id } | RuntimePhase::AdoptMarking { id } => (
            RuntimePhase::StopThenRemove { error: message },
            RuntimeAction::StopContainer { id },
        ),
        RuntimePhase::Waiting { owned: Some(id) } => (
            RuntimePhase::Restarting { id, error: message },
            RuntimeAction::RestartContainer { id },
        ),
        RuntimePhase::Restarting { id, error } | RuntimePhase::WaitingAgain { id, error } => (
            RuntimePhase::StoppingOwned { error },
            RuntimeAction::StopOwned { id },
        ),
        RuntimePhase::AdoptWaiting { id } => (
            RuntimePhase::StopThenRemove { error: message },
            RuntimeAction::StopOwned { id },
        ),
        RuntimePhase::StopThenRemove { error } => (
            RuntimePhase::RemoveThenFail { error },
            RuntimeAction::RemoveMarker,
        ),
        RuntimePhase::StoppingOwned { error } | RuntimePhase::StopThenFail { error }
        | RuntimePhase::RemoveThenFail { error } => ends(Err(error)),
        _ => ends(Err(message)),
    }
}

/// What follows the reading of the marker.
pub open spec fn after_marker(
    initial: ContainerSnapshot<Seq<char>>,
    exists: bool,
    id: Result<Option<Seq<char>>, Seq<char>>,
) -> RuntimeStep<Seq<char>> {
    match id {
        Err(message) => ends(Err(message)),
        Ok(named) => {
            let inherited = named == Some(initial.id);
            if inherited {
                (
                    RuntimePhase::MarkerSettled { initial, inherited: true },
                    RuntimeAction::SecureMarker,
                )
            } else if exists {
                (
                    RuntimePhase::MarkerSettled { initial, inherited: false },
                    RuntimeAction::RemoveMarker,
                )
            } else {
                marker_settled(initial, false)
            }
        },
    }
}

/// The next step of the supervisor, whose container goes by the name
/// `container`.
pub open spec fn runtime_step(
    phase: RuntimePhase<Seq<char>>,
    event: RuntimeEvent<Seq<char>>,
    container: Seq<char>,
) -> RuntimeStep<Seq<char>> {
    match (phase, event) {
        (RuntimePhase::Inspecting, RuntimeEvent::Inspected { result: Ok(initial) }) => (
            RuntimePhase::Marker { initial },
            RuntimeAction::ReadMarker,
        ),
        (RuntimePhase::Reinspecting { .. }, RuntimeEvent::Inspected { result: Ok(current) }) => (
            RuntimePhase::Marking { id: current.id },
            RuntimeAction::WriteMarker { id: current.id },
        ),
        (RuntimePhase::Reinspecting { id }, RuntimeEvent::Inspected { result: Err(message) }) => (
            RuntimePhase::StopThenFail { error: message },
            RuntimeAction::StopContainer { id },
        ),
        (RuntimePhase::HealInspecting { owned }, RuntimeEvent::Inspected { result: Ok(current) }) => heal(
            current,
            owned,
        ),
        (_, RuntimeEvent::Inspected { result: Err(message) }) => ends(Err(message)),
        (RuntimePhase::Marker { initial }, RuntimeEvent::Marker { exists, id }) => after_marker(
            initial,
            exists,
            id,
        ),
        (RuntimePhase::Looking { owned }, RuntimeEvent::Looked { ready }) => if ready {
            ends(Ok(owned))
        } else {
            (RuntimePhase::HealOrb { owned }, RuntimeAction::EnsureOrbStack)
        },
        (_, RuntimeEvent::Done { result: Ok(_) }) => after_success(phase, container),
        (_, RuntimeEvent::Done { result: Err(message) }) => after_failure(phase, message),
        _ => arbitrary(),
    }
}

// ---------------------------------------------------------------------------
// The steps
// ---------------------------------------------------------------------------

fn finish(end: Result<Option<String>, String>) -> (r: RuntimeStep<String>)
    ensures
        (r.0@, r.1@) == ends(end_view(end)),
{
    (RuntimePhase::Over, RuntimeAction::Finish { end })
}

fn settle(initial: ContainerSnapshot, inherited: bool) -> (r: RuntimeStep<String>)
    ensures
        (r.0@, r.1@) == marker_settled(initial@, inherited),
{
    if !initial.running {
        let id = initial.id.clone();
        return (RuntimePhase::Starting { id: initial.id }, RuntimeAction::StartContainer { id });
    }
    let owned = if inherited { Some(initial.id) } else { None };
    (RuntimePhase::Waiting { owned }, RuntimeAction::WaitReady)
}

fn recover(container: ContainerSnapshot, owned: Option<String>) -> (r: RuntimeStep<String>)
    ensures
        (r.0@, r.1@) == heal(container@, opt_text(owned)),
{
    let expected = match &owned {
        Some(id) => Some(id.as_str()),
        None => None,
    };
    let action = container_recovery_action(&container, expected);
    let id = container.id.clone();
    match action {
        ContainerRecoveryAction::RestartOwned => (
            RuntimePhase::HealStarted { id: container.id },
            RuntimeAction::RestartContainer { id },
        ),
        ContainerRecoveryAction::StartOwned => (
            RuntimePhase::HealStarted { id: container.id },
            RuntimeAction::StartContainer { id },
        ),
        ContainerRecoveryAction::StartAndAdopt => (
            RuntimePhase::AdoptStarted { id: container.id },
            RuntimeAction::StartContainer { id },
        ),
        ContainerRecoveryAction::RefuseUnownedRunning => finish(
            Err("FlareSolverrUnavailable: refusing to restart an unowned container".to_owned()),
        ),
        ContainerRecoveryAction::IdentityChanged => finish(
            Err("FlareSolverrUnavailable: owned container identity changed".to_owned()),
        ),
    }
}

fn succeed(phase: RuntimePhase, container: &str) -> (r: RuntimeStep<String>)
    requires
        runtime_awaits(phase@, RuntimeEvent::Done { result: Ok(()) }),
    ensures
        (r.0@, r.1@) == after_success(phase@, container@),
{
    match phase {
        RuntimePhase::Orb => (
            RuntimePhase::Inspecting,
            RuntimeAction::Inspect { reference: container.to_owned() },
        ),
        RuntimePhase::MarkerSettled { initial, inherited } => settle(initial, inherited),
        RuntimePhase::Starting { id } => {
            let reference = id.clone();
            (RuntimePhase::Reinspecting { id }, RuntimeAction::Inspect { reference })
        },
        RuntimePhase::Marking { id } => (
            RuntimePhase::Waiting { owned: Some(id) },
            RuntimeAction::WaitReady,
        ),
        RuntimePhase::Waiting { owned } => finish(Ok(owned)),
        RuntimePhase::Restarting { id, error } => (
            RuntimePhase::WaitingAgain { id, error },
            RuntimeAction::WaitReady,
        ),
        RuntimePhase::WaitingAgain { id, .. } => finish(Ok(Some(id))),
        RuntimePhase::HealOrb { owned } => (
            RuntimePhase::HealInspecting { owned },
            RuntimeAction::Inspect { reference: container.to_owned() },
        ),
        RuntimePhase::HealStarted { id } => (
            RuntimePhase::HealWaiting { id },
            RuntimeAction::WaitReady,
        ),
        RuntimePhase::HealWaiting { id } => finish(Ok(Some(id))),
        RuntimePhase::AdoptStarted { id } => {
            let mark = id.clone();
            (RuntimePhase::AdoptMarking { id }, RuntimeAction::WriteMarker { id: mark })
        },
        RuntimePhase::AdoptMarking { id } => (
            RuntimePhase::AdoptWaiting { id },
            RuntimeAction::WaitReady,
        ),
        RuntimePhase::AdoptWaiting { id } => finish(Ok(Some(id))),
        RuntimePhase::StoppingOwned { error } => (
            RuntimePhase::RemoveThenFail { error },
            RuntimeAction::RemoveMarker,
        ),
        RuntimePhase::StopThenRemove { error } => (
            RuntimePhase::RemoveThenFail { error },
            RuntimeAction::RemoveMarker,
        ),
        RuntimePhase::StopThenFail { error } => finish(Err(error)),
        RuntimePhase::RemoveThenFail { error } => finish(Err(error)),
        _ => vstd::pervasive::unreached(),
    }
}

fn fail(phase: RuntimePhase, message: String) -> (r: RuntimeStep<String>)
    ensures
        (r.0@, r.1@) == after_failure(phase@, message@),
{
    match phase {
        RuntimePhase::MarkerSettled { initial, inherited } => {
            if inherited {
                finish(Err(message))
            } else {
                settle(initial, false)
            }
        },
        RuntimePhase::Marking { id } => (
            RuntimePhase::StopThenRemove { error: message },
            RuntimeAction::StopContainer { id },
        ),
        RuntimePhase::AdoptMarking { id } => (
            RuntimePhase::StopThenRemove { error: message },
            RuntimeAction::StopContainer { id },
        ),
        RuntimePhase::Waiting { owned } => match owned {
            Some(id) => {
                let again = id.clone();
                (
                    RuntimePhase::Restarting { id, error: message },
                    RuntimeAction::RestartContainer { id: again },
                )
            },
            None => finish(Err(message)),
        },
        RuntimePhase::Restarting { id, error } => (
            RuntimePhase::StoppingOwned { error },
            RuntimeAction::StopOwned { id },
        ),
        RuntimePhase::WaitingAgain { id, error } => (
            RuntimePhase::StoppingOwned { error },
            RuntimeAction::StopOwned { id },
        ),
        RuntimePhase::AdoptWaiting { id } => (
            RuntimePhase::StopThenRemove { error: message },
            RuntimeAction::StopOwned { id },
        ),
        RuntimePhase::StopThenRemove { error } => (
            RuntimePhase::RemoveThenFail { error },
            RuntimeAction::RemoveMarker,
        ),
        RuntimePhase::StoppingOwned { error } => finish(Err(error)),
        RuntimePhase::StopThenFail { error } => finish(Err(error)),
        RuntimePhase::RemoveThenFail { error } => finish(Err(error)),
        _ => finish(Err(message)),
    }
}

fn take_marker(
    initial: ContainerSnapshot,
    exists: bool,
    id: Result<Option<String>, String>,
) -> (r: RuntimeStep<String>)
    ensures
        (r.0@, r.1@) == after_marker(initial@, exists, end_view(id)),
{
    let named = match id {
        Ok(named) => named,
        Err(message) => return finish(Err(message)),
    };
    let inherited = same_opt(&named, &Some(initial.id.clone()));
    if inherited {
        (RuntimePhase::MarkerSettled { initial, inherited: true }, RuntimeAction::SecureMarker)
    } else if exists {
        (RuntimePhase::MarkerSettled { initial, inherited: false }, RuntimeAction::RemoveMarker)
    } else {
        settle(initial, false)
    }
}

impl RuntimePhase<String> {
    /// The container is to be brought up.
    pub fn bring_up() -> (r: RuntimeStep<String>)
        ensures
            (r.0@, r.1@) == (RuntimePhase::<Seq<char>>::Orb, RuntimeAction::<Seq<char>>::EnsureOrbStack),
    {
        (RuntimePhase::Orb, RuntimeAction::EnsureOrbStack)
    }

    /// The container is to be brought back, unless it is ready after all.
    pub fn ensure_runtime_healthy(owned: Option<String>) -> (r: RuntimeStep<String>)
        ensures
            (r.0@, r.1@) == (
                RuntimePhase::Looking { owned: opt_text(owned) },
                RuntimeAction::<Seq<char>>::CheckReady,
            ),
    {
        (RuntimePhase::Looking { owned }, RuntimeAction::CheckReady)
    }

    /// Takes the outcome that the supervisor waits for to its next action.
    pub fn advance(self, event: RuntimeEvent, container: &str) -> (r: RuntimeStep<String>)
        requires
            runtime_awaits(self@, event@),
        ensures
            (r.0@, r.1@) == runtime_step(self@, event@, container@),
    {
        match (self, event) {
            (RuntimePhase::Inspecting, RuntimeEvent::Inspected { result: Ok(initial) }) => (
                RuntimePhase::Marker { initial },
                RuntimeAction::ReadMarker,
            ),
            (RuntimePhase::Reinspecting { .. }, RuntimeEvent::Inspected { result: Ok(current) }) => {
                let id = current.id.clone();
                (RuntimePhase::Marking { id: current.id }, RuntimeAction::WriteMarker { id })
            },
            (RuntimePhase::Reinspecting { id }, RuntimeEvent::Inspected { result: Err(message) }) => (
                RuntimePhase::StopThenFail { error: message },
                RuntimeAction::StopContainer { id },
            ),
            (RuntimePhase::HealInspecting { owned }, RuntimeEvent::Inspected { result: Ok(current) }) =>
                recover(current, owned),
            (_, RuntimeEvent::Inspected { result: Err(message) }) => finish(Err(message)),
            (RuntimePhase::Marker { initial }, RuntimeEvent::Marker { exists, id }) => take_marker(
                initial,
                exists,
                id,
            ),
            (RuntimePhase::Looking { owned }, RuntimeEvent::Looked { ready }) => {
                if ready {
                    finish(Ok(owned))
                } else {
                    (RuntimePhase::HealOrb { owned }, RuntimeAction::EnsureOrbStack)
                }
            },
            (phase, RuntimeEvent::Done { result: Ok(_) }) => succeed(phase, container),
            (phase, RuntimeEvent::Done { result: Err(message) }) => fail(phase, message),
            _ => vstd::pervasive::unreached(),
        }
    }
}

// ---------------------------------------------------------------------------
// What holds of every run
// ---------------------------------------------------------------------------

/// Where the supervisor stands, and what it asks for, after the given outcomes.
pub open spec fn run_to(
    begin: RuntimeStep<Seq<char>>,
    outcomes: Seq<RuntimeEvent<Seq<char>>>,
    container: Seq<char>,
) -> RuntimeStep<Seq<char>>
    decreases outcomes.len(),
{
    if outcomes.len() == 0 {
        begin
    } else {
        runtime_step(
            run_to(begin, outcomes.drop_last(), container).0,
            outcomes.last(),
            container,
        )
    }
}

/// Whether each outcome is one that the supervisor waited for.
pub open spec fn is_proper(
    begin: RuntimeStep<Seq<char>>,
    outcomes: Seq<RuntimeEvent<Seq<char>>>,
    container: Seq<char>,
) -> bool {
    forall|n: int|
        0 <= n < outcomes.len() ==> runtime_awaits(
            run_to(begin, outcomes.take(n), container).0,
            #[trigger] outcomes[n],
        )
}

/// Whether an action stops or restarts a container.
pub open spec fn disturbs(action: RuntimeAction<Seq<char>>) -> bool {
    action is RestartContainer || action is StopContainer || action is StopOwned
}

/// Whether an action shows that the container is the supervisor's own: it
/// starts the container, or secures the marker that names it.
pub open spec fn claims(action: RuntimeAction<Seq<char>>) -> bool {
    action is StartContainer || action is SecureMarker
}

/// The phases that a run reaches without having claimed a container.
spec fn is_unclaimed(phase: RuntimePhase<Seq<char>>, had: Option<Seq<char>>) -> bool {
    match phase {
        RuntimePhase::Orb | RuntimePhase::Inspecting | RuntimePhase::Marker { .. } => true,
        RuntimePhase::MarkerSettled { inherited, .. } => !inherited,
        RuntimePhase::Waiting { owned } => owned is None,
        RuntimePhase::Looking { owned } | RuntimePhase::HealOrb { owned }
        | RuntimePhase::HealInspecting { owned } => owned == had,
        RuntimePhase::HealStarted { .. } | RuntimePhase::HealWaiting { .. } => had is Some,
        RuntimePhase::Over => true,
        _ => false,
    }
}

/// A container that was running when it was first seen is stopped or restarted
/// only by its owner: in a run that began without owning it, something was
/// started, or the marker named it, before.
pub proof fn only_owned_containers_are_disturbed(
    begin: RuntimeStep<Seq<char>>,
    outcomes: Seq<RuntimeEvent<Seq<char>>>,
    container: Seq<char>,
    n: int,
)
    requires
        begin == (RuntimePhase::<Seq<char>>::Orb, RuntimeAction::<Seq<char>>::EnsureOrbStack) || begin == (
            RuntimePhase::Looking { owned: None::<Seq<char>> },
            RuntimeAction::<Seq<char>>::CheckReady,
        ),
        is_proper(begin, outcomes, container),
        0 <= n <= outcomes.len(),
        disturbs(run_to(begin, outcomes.take(n), container).1),
    ensures
        exists|m: int|
            0 <= m < n && claims((#[trigger] run_to(begin, outcomes.take(m), container)).1),
{
    lemma_unclaimed(begin, outcomes, container, n);
    let m = choose|m: int|
        0 <= m <= n && claims((#[trigger] run_to(begin, outcomes.take(m), container)).1);
    assert(m != n);
}

proof fn lemma_unclaimed(
    begin: RuntimeStep<Seq<char>>,
    outcomes: Seq<RuntimeEvent<Seq<char>>>,
    container: Seq<char>,
    n: int,
)
    requires
        begin == (RuntimePhase::<Seq<char>>::Orb, RuntimeAction::<Seq<char>>::EnsureOrbStack) || begin == (
            RuntimePhase::Looking { owned: None::<Seq<char>> },
            RuntimeAction::<Seq<char>>::CheckReady,
        ),
        is_proper(begin, outcomes, container),
        0 <= n <= outcomes.len(),
    ensures
        is_unclaimed(run_to(begin, outcomes.take(n), container).0, None) && !disturbs(
            run_to(begin, outcomes.take(n), container).1,
        ) || exists|m: int|
            0 <= m <= n && claims((#[trigger] run_to(begin, outcomes.take(m), container)).1),
    decreases n,
{
    if n > 0 {
        lemma_unclaimed(begin, outcomes, container, n - 1);
        assert(outcomes.take(n).drop_last() =~= outcomes.take(n - 1));
        let before = run_to(begin, outcomes.take(n - 1), container);
        let after = run_to(begin, outcomes.take(n), container);
        assert(runtime_awaits(before.0, outcomes[n - 1]));
        if exists|m: int|
            0 <= m <= n - 1 && claims((#[trigger] run_to(begin, outcomes.take(m), container)).1) {
            let m = choose|m: int|
                0 <= m <= n - 1 && claims((#[trigger] run_to(begin, outcomes.take(m), container)).1);
            assert(0 <= m <= n && claims(run_to(begin, outcomes.take(m), container).1));
        } else {
            assert(claims(after.1) || is_unclaimed(after.0, None) && !disturbs(after.1));
        }
    }
}

/// A recovery that owns a container restarts or starts no other one.
pub proof fn recovery_keeps_to_the_owned_container(container: ContainerSnapshot<Seq<char>>, owned: Seq<char>)
    ensures
        match heal(container, Some(owned)).1 {
            RuntimeAction::RestartContainer { id } => id == owned,
            RuntimeAction::StartContainer { id } => id == owned,
            action => action is Finish,
        },
        container.running ==> heal(container, None).1 is Finish,
{
}

} // verus!
