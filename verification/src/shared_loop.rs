//! Several synchronisations of one to-device loop at a time, by whoever shares it.
use crate::to_device;
use crate::to_device::{LoopState, Operation, Plan};
use crate::to_device_runs;
use crate::to_device_runs::{Outcome, Progress};
use vstd::prelude::*;

verus! {

/// A loop and the synchronisations of it, each known by a number: the state that they
/// all share, the one that holds the response handling lock, and the step that is
/// due for each.
pub struct SharedLoop<E> {
    pub state: LoopState,
    pub lock: Option<int>,
    pub plans: Map<int, Plan<E>>,
}

/// What happens to a shared loop.
pub enum Turn<E> {
    /// A synchronisation starts, with [`to_device::ToDeviceLoop::sync_once`].
    Starts(int),
    /// This comes of the step that was due for a synchronisation, which goes on with
    /// [`to_device_runs::advance`].
    Advances(int, Outcome<E>),
    /// The caller of a synchronisation gives it up. The handling of a response is in
    /// a task of its own and goes on.
    IsCancelled(int),
    /// The session is invalidated, with
    /// [`to_device::ToDeviceLoop::invalidate_session`].
    InvalidatesSession,
}

impl<E> SharedLoop<E> {
    /// A loop before any synchronisation.
    pub open spec fn idle(state: LoopState) -> Self {
        SharedLoop { state, lock: None, plans: Map::empty() }
    }

    /// How far a synchronisation has come.
    pub open spec fn progress(self, id: int) -> Progress<E> {
        Progress { state: self.state, plan: self.plans[id] }
    }

    /// Whether this can happen. The response handling lock can only be taken while
    /// nobody holds it.
    pub open spec fn allows(self, turn: Turn<E>) -> bool {
        match turn {
            Turn::Starts(id) => !self.plans.contains_key(id),
            Turn::Advances(id, outcome) => {
                &&& self.plans.contains_key(id)
                &&& self.progress(id).awaits(outcome)
                &&& outcome is HandlingBegun ==> self.lock is None
            },
            Turn::IsCancelled(id) => self.plans.contains_key(id),
            Turn::InvalidatesSession => true,
        }
    }

    /// The loop after this has happened.
    pub open spec fn next(self, turn: Turn<E>) -> Self {
        match turn {
            Turn::Starts(id) => SharedLoop {
                plans: self.plans.insert(id, to_device::plan_start(self.state)),
                ..self
            },
            Turn::Advances(id, outcome) => {
                let after = self.progress(id).next(outcome);
                SharedLoop {
                    state: after.state,
                    lock: match outcome {
                        Outcome::HandlingBegun => Some(id),
                        Outcome::HandlingEnded => None,
                        _ => self.lock,
                    },
                    plans: self.plans.insert(id, after.plan),
                }
            },
            Turn::IsCancelled(id) => if self.progress(id).handles_response() {
                self
            } else {
                SharedLoop { plans: self.plans.remove(id), ..self }
            },
            Turn::InvalidatesSession => SharedLoop { state: self.state.invalidated(), ..self },
        }
    }

    /// Whether a synchronisation is handling a response.
    pub open spec fn is_handling(self, id: int) -> bool {
        self.plans.contains_key(id) && to_device_runs::holds_handling_lock(self.plans[id])
    }
}

/// The loop after a history of turns, the oldest first.
pub open spec fn after_turns<E>(state: LoopState, turns: Seq<Turn<E>>) -> SharedLoop<E>
    decreases turns.len(),
{
    if turns.len() == 0 {
        SharedLoop::idle(state)
    } else {
        after_turns(state, turns.drop_last()).next(turns.last())
    }
}

/// Whether each turn of a history can happen when its turn comes.
pub open spec fn is_history<E>(state: LoopState, turns: Seq<Turn<E>>) -> bool
    decreases turns.len(),
{
    turns.len() > 0 ==> {
        &&& is_history(state, turns.drop_last())
        &&& after_turns(state, turns.drop_last()).allows(turns.last())
    }
}

/// The synchronisation that is handling a response is the one that holds the lock.
proof fn handler_holds_lock<E>(state: LoopState, turns: Seq<Turn<E>>, id: int)
    requires
        is_history(state, turns),
    ensures
        after_turns(state, turns).is_handling(id) <==> after_turns(state, turns).lock == Some(id),
    decreases turns.len(),
{
    if turns.len() > 0 {
        handler_holds_lock(state, turns.drop_last(), id);
        if let Turn::Advances(other, _) = turns.last() {
            handler_holds_lock(state, turns.drop_last(), other);
        }
    }
}

/// Responses are handled one at a time: there are never two synchronisations of a
/// loop that are handling one.
pub proof fn responses_are_handled_one_at_a_time<E>(
    state: LoopState,
    turns: Seq<Turn<E>>,
    a: int,
    b: int,
)
    requires
        is_history(state, turns),
        after_turns(state, turns).is_handling(a),
        after_turns(state, turns).is_handling(b),
    ensures
        a == b,
{
    handler_holds_lock(state, turns, a);
    handler_holds_lock(state, turns, b);
}

/// When no synchronisation is handling a response, nothing keeps the next one from
/// beginning to.
pub proof fn handling_can_begin<E>(state: LoopState, turns: Seq<Turn<E>>, id: int)
    requires
        is_history(state, turns),
        forall|other: int| !#[trigger] after_turns(state, turns).is_handling(other),
        after_turns(state, turns).plans.contains_key(id),
        after_turns(state, turns).plans[id] is Handle,
    ensures
        after_turns(state, turns).allows(Turn::Advances(id, Outcome::HandlingBegun)),
{
    if let Some(holder) = after_turns(state, turns).lock {
        handler_holds_lock(state, turns, holder);
        assert(after_turns(state, turns).is_handling(holder));
    }
}

/// All synchronisations see the same state: what one of them does to it, the others
/// meet. Seen from another synchronisation, a turn leaves the step that is due for
/// it as it was, and changes the state by one operation or not at all.
pub proof fn turn_is_an_operation_to_others<E>(before: SharedLoop<E>, turn: Turn<E>, id: int)
    requires
        before.allows(turn),
        before.plans.contains_key(id),
        !(turn matches Turn::Advances(other, _) && other == id),
        !(turn matches Turn::IsCancelled(other) && other == id),
    ensures
        exists|operations: Seq<Operation>|
            operations.len() <= 1 && before.next(turn).progress(id) == #[trigger] before.progress(
                id,
            ).after_others(operations),
{
    let after = before.next(turn);
    reveal_with_fuel(to_device::apply_all, 2);
    let none = Seq::<Operation>::empty();
    assert(before.progress(id).after_others(none).state == before.state);
    match turn {
        Turn::Starts(_) | Turn::IsCancelled(_) => {
            assert(after.progress(id) == before.progress(id).after_others(none));
        },
        Turn::InvalidatesSession => {
            let one = seq![Operation::InvalidateSession];
            assert(one.drop_last() =~= none);
            assert(after.progress(id) == before.progress(id).after_others(one));
        },
        Turn::Advances(other, outcome) => {
            match (before.plans[other], outcome) {
                (Plan::ReadCache(_), Outcome::CacheRead(Ok(entry))) => {
                    let one = seq![Operation::Restore(entry)];
                    assert(one.drop_last() =~= none);
                    assert(after.progress(id) == before.progress(id).after_others(one));
                },
                (Plan::Process(response), Outcome::Processed(Ok(()))) => {
                    let one = seq![Operation::Handle(response)];
                    assert(one.drop_last() =~= none);
                    assert(after.progress(id) == before.progress(id).after_others(one));
                },
                _ => {
                    assert(after.progress(id) == before.progress(id).after_others(none));
                },
            }
        },
    }
}

/// Whatever those who share a loop do, its token never goes from set to unset, and it
/// stays the same loop.
pub proof fn shared_loop_keeps_token_and_identity<E>(
    state: LoopState,
    turns: Seq<Turn<E>>,
    more: Turn<E>,
)
    ensures
        ({
            let before = after_turns(state, turns).state;
            let after = after_turns(state, turns).next(more).state;
            &&& before.since_token is Some ==> after.since_token is Some
            &&& after.connection_id == state.connection_id
            &&& after.e2e_encryption == state.e2e_encryption
            &&& after.homeserver == state.homeserver
            &&& after.storage_key == state.storage_key
        }),
    decreases turns.len(),
{
    if turns.len() > 0 {
        shared_loop_keeps_token_and_identity(state, turns.drop_last(), turns.last());
    }
}

/// While a synchronisation is handling a response, no other takes one in: the
/// position marker stays as it is but for the session being invalidated.
pub proof fn handling_is_not_overtaken<E>(
    state: LoopState,
    turns: Seq<Turn<E>>,
    id: int,
    turn: Turn<E>,
)
    requires
        is_history(state, turns),
        after_turns(state, turns).is_handling(id),
        after_turns(state, turns).allows(turn),
        !(turn matches Turn::Advances(other, _) && other == id),
        !(turn is InvalidatesSession),
    ensures
        after_turns(state, turns).next(turn).state.pos == after_turns(state, turns).state.pos,
{
    if let Turn::Advances(other, _) = turn {
        if after_turns(state, turns).is_handling(other) {
            responses_are_handled_one_at_a_time(state, turns, id, other);
        }
    }
}

/// To cancel a synchronisation never leaves a response half handled: the loop's state
/// stays as it is, whoever is handling a response goes on with it, and holds the
/// lock until then.
pub proof fn cancellation_leaves_handling_alone<E>(
    state: LoopState,
    turns: Seq<Turn<E>>,
    cancelled: int,
    id: int,
)
    requires
        is_history(state, turns),
        after_turns(state, turns).allows(Turn::IsCancelled(cancelled)),
    ensures
        ({
            let before = after_turns(state, turns);
            let after = before.next(Turn::IsCancelled(cancelled));
            &&& after.state == before.state
            &&& after.is_handling(id) == before.is_handling(id)
            &&& after.is_handling(id) ==> after.plans[id] == before.plans[id]
            &&& after.is_handling(id) <==> after.lock == Some(id)
        }),
{
    handler_holds_lock(state, turns, id);
}

} // verus!
