//! The rules by which starts are admitted and locks are taken.

use vstd::prelude::*;
use crate::state::lock::{
    first_line, hex_digit, lock_step, owner_pid, LockAction, LockEvent, LockFlow,
};
use crate::provider::{ProviderStartFailure, ProviderStartResult};
use crate::run_history::RunContext;
use crate::state::{admission_begins, changed, run_of, told_address, AdmissionNext, StartAdmissionError, StateChange, StateView};
use crate::text::{lacks, parse_number};

verus! {

/// A start is admitted only while starts are accepted and none is under way; a refusal
/// names the start under way, and a shutdown goes before it.
pub proof fn one_start_is_admitted_at_a_time(state: StateView)
    ensures
        admission_begins(state) is AcquireLock <==> state.accepting && state.active is None,
        !state.accepting ==> (admission_begins(state) matches AdmissionNext::Refused { error, warning } && error
            is ShuttingDown && warning is None),
        state.accepting && state.active is Some ==> (admission_begins(state) matches AdmissionNext::Refused {
            error,
            warning,
        } && error == (StartAdmissionError::Busy(state.active->0)) && warning is None),
{
}

/// A change of the state changes what it is about, and nothing else.
pub proof fn changes_change_what_they_are_about(state: StateView, change: StateChange)
    ensures
        ({
            let after = changed(state, change);
            &&& match change {
                StateChange::Move { address } => after.minecraft_address == address,
                _ => after.minecraft_address == state.minecraft_address,
            }
            &&& match change {
                StateChange::Shutdown => !after.accepting,
                _ => after.accepting == state.accepting,
            }
            &&& match change {
                StateChange::Admit { run } => after.active == Some(run),
                StateChange::Clear { run_id } => after.active == (if state.active matches Some(active) && active.run_id
                    == run_id {
                    None
                } else {
                    state.active
                }),
                _ => after.active == state.active,
            }
            &&& match change {
                StateChange::Admit { .. } => after.operations == state.operations + 1,
                StateChange::EndOperation => state.operations > 0 ==> after.operations + 1 == state.operations,
                _ => after.operations == state.operations,
            }
        }),
{
}

/// A lock that nobody holds is taken. One that is there is looked into behind a second
/// lock: a file that is gone, or whose owner is dead and which was removed, is taken
/// then; and in every other case the lock is not.
pub proof fn locks_are_taken_from_nobody_or_the_dead(
    flow: LockFlow,
    event: LockEvent<Seq<char>>,
    purpose: Seq<char>,
)
    requires
        crate::state::lock::lock_awaits(flow, event),
    ensures
        ({
            let (next, action) = lock_step(flow, event, purpose);
            match (flow, event) {
                (LockFlow::Publishing, LockEvent::Published) => action is Held,
                (LockFlow::Publishing, LockEvent::AlreadyExists) => action is PublishReclaim && next is Serializing,
                (LockFlow::Serializing, LockEvent::Published) => action is Inspect && next is Inspecting,
                (LockFlow::Inspecting, LockEvent::Missing) => action is Publish && next is Recovering,
                (LockFlow::Inspecting, LockEvent::RegularFile) => action is Read && next is Reading,
                (LockFlow::Reading, LockEvent::Contents { contents }) => match owner_pid(contents) {
                    Some(pid) => action == (LockAction::<Seq<char>>::AskAlive { pid: pid as u32 }) && next is Asking,
                    None => action is Fail,
                },
                (LockFlow::Asking, LockEvent::Dead) => action is Remove && next is Removing,
                (LockFlow::Asking, LockEvent::Alive) => action is Fail,
                (LockFlow::Removing, LockEvent::Removed) => action is Publish && next is Recovering,
                (LockFlow::Recovering, LockEvent::Published) => action is Held,
                _ => action is Fail,
            }
        }),
        lock_step(flow, event, purpose).1 is Held <==> (flow is Publishing || flow is Recovering) && event is Published,
        lock_step(flow, event, purpose).1 is Held || lock_step(flow, event, purpose).1 is Fail <==> lock_step(
            flow,
            event,
            purpose,
        ).0 is Over,
{
}

/// The owner of a lock is the positive number on its first line, where there is one.
pub proof fn owners_stand_on_the_first_line(line: Seq<char>, rest: Seq<char>)
    requires
        lacks(line, '\n'),
        line.len() > 0,
        line.last() != '\r',
    ensures
        first_line(line.push('\n') + rest) == Some(line),
        first_line(line) == Some(line),
        first_line(line.push('\r').push('\n') + rest) == Some(line),
        owner_pid(line.push('\n') + rest) == (match parse_number(line, 2_147_483_647) {
            Some(pid) => if pid > 0 {
                Some(pid)
            } else {
                None
            },
            None => None,
        }),
        owner_pid(Seq::empty()) is None,
{
    let one = line.push('\n') + rest;
    crate::text::lemma_first_index(one, '\n', line.len() as int);
    assert(one.take(line.len() as int) =~= line);
    let two = line.push('\r').push('\n') + rest;
    assert forall|i: int| 0 <= i < line.len() + 1 implies (#[trigger] two[i]) != '\n' by {
        if i < line.len() {
            assert(two[i] == line[i]);
        }
    }
    crate::text::lemma_first_index(two, '\n', line.len() as int + 1);
    assert(two.take(line.len() as int) =~= line);
    lemma_no_index(line, '\n');
    assert(line.take(line.len() as int) =~= line);
}

proof fn lemma_no_index(s: Seq<char>, c: char)
    requires
        lacks(s, c),
    ensures
        crate::text::first_index(s, c) == s.len(),
    decreases s.len(),
{
    if s.len() > 0 {
        let rest = s.skip(1);
        assert forall|i: int| 0 <= i < rest.len() implies #[trigger] rest[i] != c by {
            assert(rest[i] == s[i + 1]);
        }
        assert(s[0] != c);
        lemma_no_index(rest, c);
    }
}

/// Hexadecimal digits are told apart.
pub proof fn hexadecimal_digits_differ(one: nat, other: nat)
    requires
        one < 16,
        other < 16,
        one != other,
    ensures
        hex_digit(one) != hex_digit(other),
        ('0' <= hex_digit(one) <= '9') || ('a' <= hex_digit(one) <= 'f'),
{
}

/// The address that the provider told is kept, whether its start succeeded or failed.
pub proof fn told_addresses_are_those_of_the_end(result: ProviderStartResult, failure: ProviderStartFailure)
    ensures
        told_address(Ok(result)) == result@.minecraft_address,
        told_address(Err(failure)) == failure@.minecraft_address,
{
}

/// A start is known by its run and its guild.
pub proof fn starts_are_known_by_their_run(context: RunContext<Seq<char>>)
    ensures
        run_of(context).run_id == context.run_id,
        run_of(context).guild_id == context.guild_id,
{
}

} // verus!
