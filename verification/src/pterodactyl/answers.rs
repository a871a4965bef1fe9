//! What holds of all answers of the panel, of its solver and of the solver's
//! container.

use vstd::prelude::*;
use crate::json::JsonTree;
use crate::outside::{is_header_text, lossy_text};
use crate::provider::ProviderMutation;
use crate::pterodactyl::clearance::{
    clearance_of, domain_covers, has_clearance, is_cookie_char, is_cookie_value, is_first_clearance, solver_outcome, without_dots,
    FlareSolverrResponse, SolverReply,
};
use crate::pterodactyl::lifecycle::{
    bindings_of, command_failure, command_line, inspected, label, recovery, says_ready, ContainerCommand, ContainerSnapshot, DockerContainerInspection,
};
use crate::pterodactyl::supervisor::{runtime_awaits, runtime_step, RuntimeAction, RuntimeEvent, RuntimePhase};
use crate::pterodactyl::{is_challenge, is_hex_digit, is_server_reference, reply_error};
use crate::text::{
    begins, decimal, finishes, first_piece_is_what_stands_before, holds, lacks, lower, split_on, uncut_without_the_mark,
};

verus! {

// ---------------------------------------------------------------------------
// The panel
// ---------------------------------------------------------------------------

/// An unsuccessful answer is told by its code. A refusal with a challenge asks for a
/// clearance, which only a read gets. Only a server error leaves open whether the
/// change was made, and only it and a rate limit may be mended by a repetition.
pub proof fn codes_say_what_is_wrong(status: u16, challenged: bool, mutation: ProviderMutation)
    ensures
        ({
            let error = reply_error(status, challenged, mutation);
            &&& (error.error_class == "ProviderChallenge"@) ==> status == 403 && challenged
            &&& status == 403 && challenged ==> error.error_class == "ProviderChallenge"@ && error.challenge == (mutation
                == ProviderMutation::Nothing) && error.uncertain_mutation == ProviderMutation::Nothing
                && !error.retryable
            &&& error.challenge ==> status == 403 && challenged && mutation == ProviderMutation::Nothing
            &&& status == 401 ==> error.error_class == "ProviderAuthentication"@
            &&& status == 403 && !challenged ==> error.error_class == "ProviderAuthorization"@
            &&& status == 404 ==> error.error_class == "ProviderServerUnavailable"@
            &&& status == 409 ==> error.error_class == "ProviderStateConflict"@
            &&& status == 422 ==> error.error_class == "ProviderProtocol"@
            &&& status == 429 ==> error.error_class == "ProviderRateLimited"@
            &&& 500 <= status < 600 ==> error.error_class == "ProviderUnavailable"@ && error.uncertain_mutation
                == mutation && error.retryable
            &&& !(500 <= status < 600) ==> error.uncertain_mutation == ProviderMutation::Nothing && error.retryable == (
            status == 429)
            &&& (status < 400 || status >= 600) ==> error.error_class == "ProviderProtocol"@
        }),
{
    reveal_strlit("ProviderChallenge");
    reveal_strlit("ProviderAuthentication");
    reveal_strlit("ProviderAuthorization");
    reveal_strlit("ProviderServerUnavailable");
    reveal_strlit("ProviderStateConflict");
    reveal_strlit("ProviderProtocol");
    reveal_strlit("ProviderRateLimited");
    reveal_strlit("ProviderUnavailable");
    assert("ProviderChallenge"@.len() == 17 && "ProviderProtocol"@.len() == 16 && "ProviderAuthentication"@.len() == 22);
    assert("ProviderAuthorization"@.len() == 21 && "ProviderServerUnavailable"@.len() == 25);
    assert("ProviderStateConflict"@.len() == 21 && "ProviderRateLimited"@.len() == 19 && "ProviderUnavailable"@.len()
        == 19);
}

/// An answer is a challenge where its header says so, whatever its letters' case, or
/// where its text speaks of Cloudflare and of a moment to wait.
pub proof fn challenges_are_recognized(cf_mitigated: Option<Seq<char>>, body: Seq<u8>)
    ensures
        is_challenge(cf_mitigated, body) <==> {
            ||| (cf_mitigated matches Some(value) && lower(value) == "challenge"@)
            ||| (holds(lower(lossy_text(body)), "cloudflare"@) && holds(lower(lossy_text(body)), "just a moment"@))
        },
{
    reveal_strlit("challenge");
    assert(lower("challenge"@) =~= "challenge"@);
}

/// A server may be named by hexadecimal digits and hyphens, sixty-four at most.
pub proof fn references_are_short_and_plain(value: Seq<char>)
    ensures
        is_server_reference(value) <==> {
            &&& 1 <= value.len() <= 64
            &&& forall|i: int|
                0 <= i < value.len() ==> {
                    let c = #[trigger] value[i];
                    c == '-' || '0' <= c <= '9' || 'a' <= c <= 'f' || 'A' <= c <= 'F'
                }
        },
{
    if is_server_reference(value) {
        assert forall|i: int| 0 <= i < value.len() implies ({
            let c = #[trigger] value[i];
            c == '-' || '0' <= c <= '9' || 'a' <= c <= 'f' || 'A' <= c <= 'F'
        }) by {
            assert(is_hex_digit(value[i]) || value[i] == '-');
        }
    }
}

// ---------------------------------------------------------------------------
// The clearance
// ---------------------------------------------------------------------------

proof fn lemma_without_dots(dots: Seq<char>, bare: Seq<char>)
    requires
        forall|i: int| 0 <= i < dots.len() ==> #[trigger] dots[i] == '.',
        bare.len() == 0 || bare[0] != '.',
    ensures
        without_dots(dots + bare) == bare,
    decreases dots.len(),
{
    let whole = dots + bare;
    if dots.len() == 0 {
        assert(whole =~= bare);
    } else {
        assert(whole[0] == dots[0]);
        assert(whole.skip(1) =~= dots.skip(1) + bare);
        assert forall|i: int| 0 <= i < dots.skip(1).len() implies #[trigger] dots.skip(1)[i] == '.' by {
            assert(dots.skip(1)[i] == dots[i + 1]);
        }
        lemma_without_dots(dots.skip(1), bare);
    }
}

proof fn lemma_labels(scope: Seq<char>)
    ensures
        split_on(scope, '.').len() >= 2 <==> !lacks(scope, '.'),
{
    if lacks(scope, '.') {
        uncut_without_the_mark(scope, '.');
    } else {
        let at = lemma_first_dot(scope);
        let first = scope.take(at);
        assert(scope =~= first.push('.') + scope.skip(at + 1));
        first_piece_is_what_stands_before(first, '.', scope.skip(at + 1));
    }
}

proof fn lemma_first_dot(s: Seq<char>) -> (at: int)
    requires
        !lacks(s, '.'),
    ensures
        0 <= at < s.len(),
        s[at] == '.',
        lacks(s.take(at), '.'),
    decreases s.len(),
{
    if lacks(s.drop_last(), '.') {
        let i = choose|i: int| 0 <= i < s.len() && s[i] == '.';
        if i < s.len() - 1 {
            assert(s.drop_last()[i] == '.');
        }
        assert(s.take(s.len() - 1) =~= s.drop_last());
        s.len() - 1
    } else {
        let at = lemma_first_dot(s.drop_last());
        assert(s.take(at) =~= s.drop_last().take(at));
        at
    }
}

/// A cookie covers the panel where its domain, without dots before it and whatever
/// its letters' case, has two labels or more and is the panel's host or a parent of
/// it. A cookie without a domain covers nothing.
pub proof fn cookies_cover_their_domain(dots: Seq<char>, bare: Seq<char>, host: Seq<char>)
    requires
        forall|i: int| 0 <= i < dots.len() ==> #[trigger] dots[i] == '.',
        bare.len() == 0 || bare[0] != '.',
    ensures
        domain_covers(Some(dots + bare), host) <==> !lacks(lower(bare), '.') && (lower(host) == lower(bare) || finishes(
            lower(host),
            "."@ + lower(bare),
        )),
        !domain_covers(None, host),
{
    lemma_without_dots(dots, bare);
    lemma_labels(lower(bare));
}

/// A clearance is taken from the first clearance cookie of a solved page, where the
/// page was reached, the cookie covers the panel and has a value that may be sent, and
/// the user agent may be sent too. Nothing else gives one, and no failure to get one
/// leaves anything in doubt.
pub proof fn clearances_are_taken_from_solved_pages(response: FlareSolverrResponse, host: Seq<char>, at: int)
    ensures
        ({
            let result = clearance_of(response, host);
            &&& result matches Err(failure) ==> failure.uncertain_mutation == ProviderMutation::Nothing
                && !failure.retryable
            &&& response.status@ != "ok"@ ==> result is Err
            &&& response.solution is None ==> result is Err
            &&& response.solution matches Some(solution) ==> {
                &&& solution.status != 200 ==> result is Err
                &&& !has_clearance(solution.cookies@) ==> result is Err
                &&& is_first_clearance(solution.cookies@, at) ==> {
                    let cookie = solution.cookies@[at]@;
                    let fits = response.status@ == "ok"@ && solution.status == 200 && domain_covers(cookie.domain, host)
                        && is_cookie_value(cookie.value) && is_header_text(solution.user_agent@) && is_header_text(
                        "cf_clearance="@ + cookie.value,
                    );
                    &&& fits <==> result is Ok
                    &&& result matches Ok(clearance) ==> clearance.user_agent == solution.user_agent@
                        && clearance.cookie_header == "cf_clearance="@ + cookie.value && clearance.expires_at
                        == cookie.expires
                }
            }
        }),
{
    if let Some(solution) = response.solution {
        if is_first_clearance(solution.cookies@, at) {
            let first = choose|first: int| #[trigger] is_first_clearance(solution.cookies@, first);
            assert(first == at) by {
                if first < at {
                    assert(solution.cookies@[first].name@ != "cf_clearance"@);
                }
                if at < first {
                    assert(solution.cookies@[at].name@ != "cf_clearance"@);
                }
            }
        }
    }
}

/// Only a solver that could not be reached, or that answered with an error, counts as
/// unavailable and may be asked again; any other reply is taken as it is.
pub proof fn only_unavailable_solvers_are_asked_again(reply: SolverReply, host: Seq<char>)
    ensures
        solver_outcome(reply, host) matches Err(failure) ==> {
            &&& failure.uncertain_mutation == ProviderMutation::Nothing
            &&& (reply is Unreached || reply is Refused) ==> failure.error_class == "FlareSolverrUnavailable"@
                && failure.retryable
            &&& reply is NoUrl ==> failure.error_class == "FlareSolverrConfiguration"@ && !failure.retryable
            &&& (reply is Body || reply is Garbled) ==> failure.error_class == "FlareSolverrProtocol"@
                && !failure.retryable
        },
        !(reply is Answer) ==> solver_outcome(reply, host) is Err,
        reply matches SolverReply::Answer(response) ==> solver_outcome(reply, host) == clearance_of(response, host),
{
}

// ---------------------------------------------------------------------------
// The container
// ---------------------------------------------------------------------------

/// Whether a container is the one that was set up for the solver.
pub open spec fn matches_profile(found: DockerContainerInspection, host_port: u16) -> bool {
    let bindings = bindings_of(found.port_bindings@, "8191/tcp"@);
    &&& bindings.len() == 1
    &&& bindings[0].host_ip@ == "127.0.0.1"@
    &&& bindings[0].host_port@ == decimal(host_port as nat)
    &&& begins(found.image@, "ghcr.io/flaresolverr/flaresolverr@sha256:"@)
    &&& label(found.labels@, "com.docker.compose.service"@) == Some("flaresolverr"@)
    &&& found.restart_policy@ == "no"@
}

/// A cookie's value may be sent where it is of visible ASCII, without quotes, commas,
/// semicolons and backslashes.
pub proof fn cookie_values_are_plain(value: Seq<char>)
    ensures
        is_cookie_value(value) <==> value.len() > 0 && forall|i: int|
            0 <= i < value.len() ==> {
                let c = #[trigger] value[i];
                '!' <= c <= '~' && c != '"' && c != ',' && c != ';' && c != '\\'
            },
{
    if is_cookie_value(value) {
        assert forall|i: int| 0 <= i < value.len() implies ({
            let c = #[trigger] value[i];
            '!' <= c <= '~' && c != '"' && c != ',' && c != ';' && c != '\\'
        }) by {
            assert(is_cookie_char(value[i]));
        }
    }
}

/// A container is taken for the solver only where it is the one that was set up: bound
/// to the local port alone, of the pinned image, of that service, and not restarted by
/// itself. Its ID is a hexadecimal number.
pub proof fn only_the_secured_container_is_taken(list: Seq<DockerContainerInspection>, host_port: u16)
    ensures
        inspected(None, host_port) is Err,
        list.len() == 0 ==> inspected(Some(list), host_port) is Err,
        inspected(Some(list), host_port) matches Ok(snapshot) ==> {
            let found = list[0];
            &&& list.len() > 0
            &&& snapshot.id == found.id@
            &&& snapshot.running == found.running
            &&& found.id@.len() > 0
            &&& forall|i: int| 0 <= i < found.id@.len() ==> is_hex_digit(#[trigger] found.id@[i])
            &&& matches_profile(found, host_port)
        },
        list.len() > 0 && matches_profile(list[0], host_port) && list[0].id@.len() > 0 && (forall|i: int|
            0 <= i < list[0].id@.len() ==> is_hex_digit(#[trigger] list[0].id@[i])) ==> inspected(Some(list), host_port)
            is Ok,
{
}

/// A container is brought back by what is owned: the owned one is restarted where it
/// runs and started where not; one of another ID is left alone; and where none is
/// owned, a running one is left alone and a stopped one is started and owned.
pub proof fn containers_are_brought_back_by_their_owner(
    container: ContainerSnapshot<Seq<char>>,
    owned: Option<Seq<char>>,
)
    ensures
        ({
            let action = recovery(container, owned);
            let mine = owned == Some(container.id);
            &&& action is RestartOwned <==> mine && container.running
            &&& action is StartOwned <==> mine && !container.running
            &&& action is IdentityChanged <==> owned is Some && !mine
            &&& action is RefuseUnownedRunning <==> owned is None && container.running
            &&& action is StartAndAdopt <==> owned is None && !container.running
        }),
{
}

/// The container is brought up in order: the machine, a look, the marker. A marker of
/// another container goes; the own one is secured. A stopped container is started,
/// looked at again and marked. Then it is waited for, and owned where it was started or
/// marked before.
pub proof fn containers_are_brought_up_in_order(
    initial: ContainerSnapshot<Seq<char>>,
    exists: bool,
    named: Option<Seq<char>>,
    current: ContainerSnapshot<Seq<char>>,
    container: Seq<char>,
)
    ensures
        ({
            let done = RuntimeEvent::<Seq<char>>::Done { result: Ok(()) };
            let up = runtime_step(RuntimePhase::Orb, done, container);
            let looked = runtime_step(
                RuntimePhase::Inspecting,
                RuntimeEvent::Inspected { result: Ok(initial) },
                container,
            );
            let read = runtime_step(
                RuntimePhase::Marker { initial },
                RuntimeEvent::Marker { exists, id: Ok(named) },
                container,
            );
            let own = named == Some(initial.id);
            let settled = if own || exists {
                runtime_step(read.0, done, container)
            } else {
                read
            };
            let again = runtime_step(settled.0, done, container);
            let mark = runtime_step(
                RuntimePhase::Reinspecting { id: initial.id },
                RuntimeEvent::Inspected { result: Ok(current) },
                container,
            );
            let marked = runtime_step(mark.0, done, container);
            &&& up.1 == (RuntimeAction::Inspect { reference: container })
            &&& looked.1 is ReadMarker
            &&& own ==> read.1 is SecureMarker
            &&& !own && exists ==> read.1 is RemoveMarker
            &&& initial.running ==> settled.1 is WaitReady && settled.0 == (RuntimePhase::Waiting {
                owned: if own {
                    Some(initial.id)
                } else {
                    None
                },
            })
            &&& !initial.running ==> settled.1 == (RuntimeAction::StartContainer { id: initial.id }) && again.1 == (
            RuntimeAction::Inspect { reference: initial.id })
            &&& mark.1 == (RuntimeAction::WriteMarker { id: current.id })
            &&& marked.1 is WaitReady && marked.0 == (RuntimePhase::Waiting { owned: Some(current.id) })
        }),
{
}

/// A container that is ready is the end, with what is owned. One that does not get
/// ready is restarted once where it is owned, and else given up; where the restart does
/// not help, it is stopped, its marker goes, and the first error is told.
pub proof fn unready_containers_are_restarted_once(
    owned: Option<Seq<char>>,
    id: Seq<char>,
    error: Seq<char>,
    message: Seq<char>,
    container: Seq<char>,
)
    ensures
        ({
            let done = RuntimeEvent::<Seq<char>>::Done { result: Ok(()) };
            let failed = RuntimeEvent::<Seq<char>>::Done { result: Err(message) };
            let ready = runtime_step(RuntimePhase::Waiting { owned }, done, container);
            let unready = runtime_step(RuntimePhase::Waiting { owned }, failed, container);
            let restarted = runtime_step(RuntimePhase::Restarting { id, error }, done, container);
            let helped = runtime_step(RuntimePhase::WaitingAgain { id, error }, done, container);
            let lost = runtime_step(RuntimePhase::WaitingAgain { id, error }, failed, container);
            let stopped = runtime_step(RuntimePhase::StoppingOwned { error }, done, container);
            let removed = runtime_step(RuntimePhase::RemoveThenFail { error }, done, container);
            &&& ready.1 == (RuntimeAction::Finish { end: Ok(owned) })
            &&& owned is None ==> unready.1 == (RuntimeAction::Finish { end: Err(message) })
            &&& owned matches Some(mine) ==> unready.1 == (RuntimeAction::RestartContainer { id: mine }) && unready.0 == (
            RuntimePhase::Restarting { id: mine, error: message })
            &&& restarted.1 is WaitReady && restarted.0 == (RuntimePhase::WaitingAgain { id, error })
            &&& helped.1 == (RuntimeAction::Finish { end: Ok(Some(id)) })
            &&& lost.1 == (RuntimeAction::StopOwned { id }) && lost.0 == (RuntimePhase::StoppingOwned { error })
            &&& stopped.1 is RemoveMarker && stopped.0 == (RuntimePhase::RemoveThenFail { error })
            &&& removed.1 == (RuntimeAction::Finish { end: Err(error) })
        }),
{
}

/// A solver that does not answer is brought back: the machine, a look, and what the
/// owner may do about the container. Where that is done, the container is waited for and
/// owned; a container that was started for the first time is marked before.
pub proof fn unanswering_solvers_are_brought_back(
    owned: Option<Seq<char>>,
    current: ContainerSnapshot<Seq<char>>,
    container: Seq<char>,
)
    ensures
        ({
            let done = RuntimeEvent::<Seq<char>>::Done { result: Ok(()) };
            let fine = runtime_step(RuntimePhase::Looking { owned }, RuntimeEvent::Looked { ready: true }, container);
            let down = runtime_step(RuntimePhase::Looking { owned }, RuntimeEvent::Looked { ready: false }, container);
            let up = runtime_step(down.0, done, container);
            let seen = runtime_step(up.0, RuntimeEvent::Inspected { result: Ok(current) }, container);
            let one = runtime_step(seen.0, done, container);
            let two = runtime_step(one.0, done, container);
            let three = runtime_step(two.0, done, container);
            let mine = owned == Some(current.id);
            &&& fine.1 == (RuntimeAction::Finish { end: Ok(owned) })
            &&& down.1 is EnsureOrbStack
            &&& up.1 == (RuntimeAction::Inspect { reference: container })
            &&& mine && current.running ==> seen.1 == (RuntimeAction::RestartContainer { id: current.id })
            &&& mine && !current.running ==> seen.1 == (RuntimeAction::StartContainer { id: current.id })
            &&& mine ==> one.1 is WaitReady && two.1 == (RuntimeAction::Finish { end: Ok(Some(current.id)) })
            &&& owned is Some && !mine ==> seen.1 == (RuntimeAction::<Seq<char>>::Finish {
                end: Err("FlareSolverrUnavailable: owned container identity changed"@),
            })
            &&& owned is None && current.running ==> seen.1 == (RuntimeAction::<Seq<char>>::Finish {
                end: Err("FlareSolverrUnavailable: refusing to restart an unowned container"@),
            })
            &&& owned is None && !current.running ==> {
                &&& seen.1 == (RuntimeAction::StartContainer { id: current.id })
                &&& one.1 == (RuntimeAction::WriteMarker { id: current.id })
                &&& two.1 is WaitReady
                &&& three.1 == (RuntimeAction::Finish { end: Ok(Some(current.id)) })
            }
        }),
{
    containers_are_brought_back_by_their_owner(current, owned);
}

/// A step that fails ends the work with its error, once what was begun is undone: a
/// container that was started but could not be marked, or that did not get ready, is
/// stopped and its marker goes.
pub proof fn failed_steps_are_undone(
    phase: RuntimePhase<Seq<char>>,
    message: Seq<char>,
    container: Seq<char>,
)
    requires
        runtime_awaits(phase, RuntimeEvent::Done { result: Err(message) }),
    ensures
        ({
            let (next, action) = runtime_step(phase, RuntimeEvent::Done { result: Err(message) }, container);
            match phase {
                RuntimePhase::Orb | RuntimePhase::Starting { .. } | RuntimePhase::HealOrb { .. }
                | RuntimePhase::HealStarted { .. } | RuntimePhase::HealWaiting { .. }
                | RuntimePhase::AdoptStarted { .. } => action == (RuntimeAction::Finish { end: Err(message) }),
                RuntimePhase::Marking { id } | RuntimePhase::AdoptMarking { id } => action == (
                RuntimeAction::StopContainer { id }) && next == (RuntimePhase::StopThenRemove { error: message }),
                RuntimePhase::AdoptWaiting { id } => action == (RuntimeAction::StopOwned { id }) && next == (
                RuntimePhase::StopThenRemove { error: message }),
                RuntimePhase::StopThenRemove { error } => action is RemoveMarker && next == (
                RuntimePhase::RemoveThenFail { error }),
                RuntimePhase::StopThenFail { error } | RuntimePhase::RemoveThenFail { error }
                | RuntimePhase::StoppingOwned { error } => action == (RuntimeAction::Finish { end: Err(error) }),
                RuntimePhase::Restarting { id, error } => action == (RuntimeAction::StopOwned { id }) && next == (
                RuntimePhase::StoppingOwned { error }),
                _ => true,
            }
        }),
{
}

/// Each command to the container's runtime is its own word, given the container, and a
/// running container gets ten seconds to stop.
pub proof fn commands_are_their_own_words(reference: Seq<char>)
    ensures
        command_line(ContainerCommand::Inspect, reference) == seq!["inspect"@, reference],
        command_line(ContainerCommand::Start, reference) == seq!["start"@, reference],
        command_line(ContainerCommand::Stop, reference) == seq!["stop"@, "--time"@, "10"@, reference],
        command_line(ContainerCommand::Restart, reference) == seq!["restart"@, "--time"@, "10"@, reference],
        command_failure(ContainerCommand::Stop) == "FlareSolverrCleanupFailed: container could not be stopped"@,
        command_failure(ContainerCommand::Start) == "FlareSolverrUnavailable: container could not be started"@,
        command_failure(ContainerCommand::Restart) == "FlareSolverrUnavailable: unhealthy container could not be restarted"@,
        command_failure(ContainerCommand::Inspect) == "FlareSolverrUnavailable: configured container could not be inspected"@,
{
}

/// The solver is ready where it says so in its own words.
pub proof fn solvers_are_ready_where_they_say_so(document: Option<JsonTree>)
    ensures
        says_ready(document) <==> (document matches Some(tree) && tree.text_member("msg"@) == Some(
            "FlareSolverr is ready!"@,
        )),
{
}

} // verus!
