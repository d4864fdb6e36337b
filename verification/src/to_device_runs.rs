//! Runs of a to-device synchronisation, and what holds of every run.
use crate::sliding_sync;
use crate::sliding_sync::{Response, ResponseView};
use crate::to_device;
use crate::to_device::{
    CachedEntry, CachedEntryView, LoopState, Operation, Plan, SyncOnce, ToDeviceLoop,
};
use vstd::prelude::*;

verus! {

/// What comes of a step.
#[derive(Debug)]
pub enum SyncOnceEvent<E> {
    /// Of [`SyncOnce::ReadCache`].
    CacheRead(Result<CachedEntry, E>),
    /// Of [`SyncOnce::InvalidateCache`].
    CacheInvalidated(Result<(), E>),
    /// Of [`SyncOnce::Send`]; `outgoing` is what came of the client's outgoing
    /// encryption requests, if they were sent along.
    Received { outgoing: Option<Result<(), E>>, response: Result<Response, E> },
    /// Of [`SyncOnce::Handle`]: the response handling lock has been taken.
    HandlingBegun,
    /// Of [`SyncOnce::Process`].
    Processed(Result<(), E>),
    /// Of [`SyncOnce::WriteCache`].
    CacheWritten(Result<(), E>),
    /// Of [`SyncOnce::Release`]: the response handling lock has been given back.
    HandlingEnded,
}

/// What a [`SyncOnceEvent`] says.
pub enum Outcome<E> {
    CacheRead(Result<CachedEntryView, E>),
    CacheInvalidated(Result<(), E>),
    Received(Option<Result<(), E>>, Result<ResponseView, E>),
    HandlingBegun,
    Processed(Result<(), E>),
    CacheWritten(Result<(), E>),
    HandlingEnded,
}

impl<E> View for SyncOnceEvent<E> {
    type V = Outcome<E>;

    open spec fn view(&self) -> Outcome<E> {
        match *self {
            SyncOnceEvent::CacheRead(read) => Outcome::CacheRead(to_device::view_of_result(read)),
            SyncOnceEvent::CacheInvalidated(invalidated) => Outcome::CacheInvalidated(invalidated),
            SyncOnceEvent::Received { outgoing, response } => Outcome::Received(
                outgoing,
                to_device::view_of_result(response),
            ),
            SyncOnceEvent::HandlingBegun => Outcome::HandlingBegun,
            SyncOnceEvent::Processed(processed) => Outcome::Processed(processed),
            SyncOnceEvent::CacheWritten(written) => Outcome::CacheWritten(written),
            SyncOnceEvent::HandlingEnded => Outcome::HandlingEnded,
        }
    }
}

/// A point in a synchronisation: the loop's state, and the step that is due.
pub struct Progress<E> {
    pub state: LoopState,
    pub plan: Plan<E>,
}

impl<E> Progress<E> {
    /// The point at which a synchronisation starts.
    pub open spec fn start(state: LoopState) -> Self {
        Progress { state, plan: to_device::plan_start(state) }
    }

    /// Whether the step that is due can have this come of it.
    pub open spec fn awaits(self, outcome: Outcome<E>) -> bool {
        match self.plan {
            Plan::ReadCache(_) => outcome is CacheRead,
            Plan::InvalidateCache(_) => outcome is CacheInvalidated,
            Plan::Send(_) => outcome is Received,
            Plan::Handle(_) => outcome is HandlingBegun,
            Plan::Process(_) => outcome is Processed,
            Plan::WriteCache(_, _) => outcome is CacheWritten,
            Plan::Release(_) => outcome is HandlingEnded,
            Plan::Done(_) => false,
        }
    }

    /// The next point, when this came of the step that was due.
    pub open spec fn next(self, outcome: Outcome<E>) -> Self {
        match (self.plan, outcome) {
            (Plan::ReadCache(_), Outcome::CacheRead(read)) => {
                let state = to_device::state_after_read(self.state, read);
                Progress { state, plan: to_device::plan_after_read(state, read) }
            },
            (Plan::InvalidateCache(_), Outcome::CacheInvalidated(_)) => Progress {
                plan: Plan::Send(self.state),
                ..self
            },
            (Plan::Send(_), Outcome::Received(_, response)) => Progress {
                plan: to_device::plan_after_response(response),
                ..self
            },
            (Plan::Handle(response), Outcome::HandlingBegun) => Progress {
                plan: Plan::Process(response),
                ..self
            },
            (Plan::Process(response), Outcome::Processed(processed)) => {
                let state = to_device::state_after_processing(self.state, response, processed);
                Progress { state, plan: to_device::plan_after_processing(state, processed) }
            },
            (Plan::WriteCache(_, _), Outcome::CacheWritten(written)) => Progress {
                plan: Plan::Release(written),
                ..self
            },
            (Plan::Release(outcome), Outcome::HandlingEnded) => Progress {
                plan: Plan::Done(outcome),
                ..self
            },
            _ => self,
        }
    }

    /// The most steps that can be taken from here, this one counted.
    pub open spec fn steps_left(self) -> nat {
        match self.plan {
            Plan::ReadCache(_) => 7,
            Plan::InvalidateCache(_) => 6,
            Plan::Send(_) => 5,
            Plan::Handle(_) => 4,
            Plan::Process(_) => 3,
            Plan::WriteCache(_, _) => 2,
            Plan::Release(_) => 1,
            Plan::Done(_) => 0,
        }
    }

    /// Whether the step that is due belongs to the handling of a response.
    pub open spec fn handles_response(self) -> bool {
        self.plan is Handle || holds_handling_lock(self.plan)
    }

    /// The same point, after others have done this to the loop.
    pub open spec fn after_others(self, operations: Seq<Operation>) -> Self {
        Progress { state: to_device::apply_all(self.state, operations), ..self }
    }
}

/// Whether the response handling lock is held while this is due.
pub open spec fn holds_handling_lock<E>(plan: Plan<E>) -> bool {
    plan is Process || plan is WriteCache || plan is Release
}

/// The plan that this step carries out, when it is taken in this state.
pub open spec fn plan_of<E>(step: SyncOnce<E>, state: LoopState) -> Plan<E> {
    match step {
        SyncOnce::ReadCache { key } => Plan::ReadCache(key@),
        SyncOnce::InvalidateCache { key } => Plan::InvalidateCache(key@),
        SyncOnce::Send { .. } => Plan::Send(state),
        SyncOnce::Handle(response) => Plan::Handle(response@),
        SyncOnce::Process(response) => Plan::Process(response@),
        SyncOnce::WriteCache { key, entry } => Plan::WriteCache(
            key@,
            sliding_sync::text(entry.since_token),
        ),
        SyncOnce::Release(outcome) => Plan::Release(outcome),
        SyncOnce::Done(outcome) => Plan::Done(outcome),
    }
}

/// Goes on with a synchronisation: takes the step that was due and what came of it,
/// and gives the step that is due then. What cannot have come of the step changes
/// nothing.
pub fn advance<E>(
    to_device_loop: &mut ToDeviceLoop,
    step: SyncOnce<E>,
    event: SyncOnceEvent<E>,
) -> (next: SyncOnce<E>)
    ensures
        ({
            let state = old(to_device_loop)@;
            let before = Progress { state, plan: plan_of(step, state) };
            let after = before.next(event@);
            &&& final(to_device_loop)@ == after.state
            &&& if before.awaits(event@) {
                next.follows(after.plan)
            } else {
                next == step
            }
        }),
{
    match (step, event) {
        (SyncOnce::ReadCache { .. }, SyncOnceEvent::CacheRead(read)) => {
            to_device_loop.cache_read(read)
        },
        (SyncOnce::InvalidateCache { .. }, SyncOnceEvent::CacheInvalidated(_)) => {
            to_device_loop.cache_invalidated()
        },
        (SyncOnce::Send { .. }, SyncOnceEvent::Received { outgoing: _, response }) => {
            ToDeviceLoop::response_received(response)
        },
        (SyncOnce::Handle(response), SyncOnceEvent::HandlingBegun) => {
            ToDeviceLoop::handling_begun(response)
        },
        (SyncOnce::Process(response), SyncOnceEvent::Processed(processed)) => {
            to_device_loop.response_processed(response, processed)
        },
        (SyncOnce::WriteCache { .. }, SyncOnceEvent::CacheWritten(written)) => {
            ToDeviceLoop::cache_written(written)
        },
        (SyncOnce::Release(outcome), SyncOnceEvent::HandlingEnded) => {
            ToDeviceLoop::handling_ended(outcome)
        },
        (step, _) => step,
    }
}

/// A step that follows the plan of a point carries that plan out: the same can come
/// of it, and leads to the same next point.
pub proof fn step_carries_out_its_plan<E>(
    point: Progress<E>,
    step: SyncOnce<E>,
    outcome: Outcome<E>,
)
    requires
        step.follows(point.plan),
    ensures
        (Progress { state: point.state, plan: plan_of(step, point.state) }).awaits(outcome)
            == point.awaits(outcome),
        point.awaits(outcome) ==> (Progress {
            state: point.state,
            plan: plan_of(step, point.state),
        }).next(outcome) == point.next(outcome),
{
}

/// Every synchronisation comes to an end: whatever comes of a step, fewer steps are
/// left than before.
pub proof fn synchronisation_comes_to_an_end<E>(point: Progress<E>, outcome: Outcome<E>)
    requires
        point.awaits(outcome),
    ensures
        point.next(outcome).steps_left() < point.steps_left() <= 7,
{
}

/// The handling of a response begins when the response is received, and is not left
/// before the synchronisation is done.
pub proof fn handling_runs_to_the_end<E>(point: Progress<E>, outcome: Outcome<E>)
    requires
        point.awaits(outcome),
    ensures
        point.handles_response() ==> point.next(outcome).handles_response() || point.next(
            outcome,
        ).plan is Done,
        !point.handles_response() ==> (point.next(outcome).handles_response()
            <==> (outcome matches Outcome::Received(_, response) && response is Ok)),
{
}

/// Only the handling of a response takes the position marker from it, and only
/// reading the store and handling a response touch the token.
pub proof fn only_handling_moves_the_position<E>(point: Progress<E>, outcome: Outcome<E>)
    ensures
        !point.handles_response() ==> point.next(outcome).state.pos == point.state.pos,
        !point.handles_response() && !(point.plan is ReadCache) ==> point.next(outcome).state
            == point.state,
{
}

/// The response handling lock is taken when handling begins, held until it ends, and
/// given back then: a synchronisation neither starts nor is done with it.
pub proof fn handling_lock_is_given_back<E>(
    state: LoopState,
    point: Progress<E>,
    outcome: Outcome<E>,
)
    requires
        point.awaits(outcome),
    ensures
        holds_handling_lock(point.next(outcome).plan) <==> if holds_handling_lock(point.plan) {
            !(outcome is HandlingEnded)
        } else {
            outcome is HandlingBegun
        },
        !holds_handling_lock(Progress::<E>::start(state).plan),
        point.next(outcome).plan is Done ==> !holds_handling_lock(point.plan)
            || outcome is HandlingEnded,
{
}

/// What comes of the work that a synchronisation asks for, should it ask for it.
pub struct Outcomes<E> {
    pub read: Result<CachedEntryView, E>,
    pub invalidated: Result<(), E>,
    pub outgoing: Option<Result<(), E>>,
    pub response: Result<ResponseView, E>,
    pub processed: Result<(), E>,
    pub written: Result<(), E>,
}

impl<E> Outcomes<E> {
    /// What comes of the step that is due at this point.
    pub open spec fn of(self, point: Progress<E>) -> Outcome<E> {
        match point.plan {
            Plan::ReadCache(_) => Outcome::CacheRead(self.read),
            Plan::InvalidateCache(_) => Outcome::CacheInvalidated(self.invalidated),
            Plan::Send(_) => Outcome::Received(self.outgoing, self.response),
            Plan::Handle(_) => Outcome::HandlingBegun,
            Plan::Process(_) => Outcome::Processed(self.processed),
            Plan::WriteCache(_, _) => Outcome::CacheWritten(self.written),
            _ => Outcome::HandlingEnded,
        }
    }

    /// Whether a synchronisation of a loop in this state comes to handle a response.
    pub open spec fn bring_response(self, state: LoopState) -> bool {
        (state.storage_key is Some ==> self.read is Ok) && self.response is Ok
    }
}

/// What others do to a loop during a synchronisation: `others(i)` is what they do
/// while the step after the first `i` is being taken.
pub type Others = spec_fn(nat) -> Seq<Operation>;

/// Others that leave the loop alone.
pub open spec fn nobody() -> Others {
    |i: nat| Seq::empty()
}

/// The point that a synchronisation is at after this many steps.
pub open spec fn point_after<E>(
    state: LoopState,
    outcomes: Outcomes<E>,
    others: Others,
    steps: nat,
) -> Progress<E>
    decreases steps,
{
    if steps == 0 {
        Progress::start(state)
    } else {
        let before = point_after(state, outcomes, others, (steps - 1) as nat);
        before.after_others(others((steps - 1) as nat)).next(outcomes.of(before))
    }
}

/// The point that a synchronisation ends at.
pub open spec fn synchronised<E>(
    state: LoopState,
    outcomes: Outcomes<E>,
    others: Others,
) -> Progress<E> {
    point_after(state, outcomes, others, 7)
}

/// How many steps a synchronisation takes before it processes the response, if it
/// comes to that.
pub open spec fn steps_before_processing<E>(state: LoopState, outcomes: Outcomes<E>) -> nat {
    if state.storage_key is None {
        2
    } else if outcomes.read matches Ok(entry) && entry is Corrupted {
        4
    } else {
        3
    }
}

/// A synchronisation and the others leave the loop the same loop.
proof fn same_loop<E>(state: LoopState, outcomes: Outcomes<E>, others: Others, steps: nat)
    ensures
        ({
            let point = point_after(state, outcomes, others, steps);
            let met = point.after_others(others(steps));
            &&& point.state.storage_key == state.storage_key
            &&& point.state.connection_id == state.connection_id
            &&& met.state.storage_key == state.storage_key
            &&& met.state.connection_id == state.connection_id
        }),
    decreases steps,
{
    if steps > 0 {
        same_loop(state, outcomes, others, (steps - 1) as nat);
    }
    to_device::loop_keeps_its_identity(
        point_after(state, outcomes, others, steps).state,
        others(steps),
    );
}

/// One step of a synchronisation.
proof fn one_step<E>(state: LoopState, outcomes: Outcomes<E>, others: Others, steps: nat)
    ensures
        ({
            let before = point_after(state, outcomes, others, steps);
            let met = before.after_others(others(steps));
            &&& met.state.cache_key() == state.cache_key()
            &&& point_after(state, outcomes, others, steps + 1) == met.next(outcomes.of(before))
        }),
{
    same_loop(state, outcomes, others, steps);
}

/// The first steps of a synchronisation.
proof fn first_steps<E>(state: LoopState, outcomes: Outcomes<E>, others: Others)
    ensures
        ({
            let n = steps_before_processing(state, outcomes);
            &&& outcomes.bring_response(state) ==> point_after(state, outcomes, others, n).plan
                == Plan::<E>::Process(outcomes.response->Ok_0)
            &&& !outcomes.bring_response(state) ==> point_after(state, outcomes, others, n).plan
                == Plan::<E>::Done(
                if state.storage_key is Some && outcomes.read is Err {
                    Err(outcomes.read->Err_0)
                } else {
                    Err(outcomes.response->Err_0)
                },
            )
        }),
{
    one_step(state, outcomes, others, 0);
    one_step(state, outcomes, others, 1);
    one_step(state, outcomes, others, 2);
    one_step(state, outcomes, others, 3);
}

/// A synchronisation that is done stays done.
proof fn done_stays_done<E>(
    state: LoopState,
    outcomes: Outcomes<E>,
    others: Others,
    earlier: nat,
    later: nat,
)
    requires
        earlier <= later,
        point_after(state, outcomes, others, earlier).plan is Done,
    ensures
        point_after(state, outcomes, others, later).plan == point_after(
            state,
            outcomes,
            others,
            earlier,
        ).plan,
    decreases later,
{
    if earlier < later {
        done_stays_done(state, outcomes, others, earlier, (later - 1) as nat);
    }
}

/// A synchronisation fails with the first failure on its way and succeeds if there
/// is none, whatever others do to the loop meanwhile. The store counts only for a
/// loop that is saved. An entry of no use is no failure, and neither is it if that
/// entry cannot be removed or if the client's outgoing encryption requests fail.
pub proof fn synchronisation_reports_first_failure<E>(
    state: LoopState,
    outcomes: Outcomes<E>,
    others: Others,
)
    ensures
        synchronised(state, outcomes, others).plan == Plan::Done(
            if state.storage_key is Some && outcomes.read is Err {
                Err(outcomes.read->Err_0)
            } else if outcomes.response is Err {
                Err(outcomes.response->Err_0)
            } else if outcomes.processed is Err {
                outcomes.processed
            } else if state.storage_key is Some {
                outcomes.written
            } else {
                Ok(())
            },
        ),
{
    let n = steps_before_processing(state, outcomes);
    first_steps(state, outcomes, others);
    if outcomes.bring_response(state) {
        one_step(state, outcomes, others, n);
        one_step(state, outcomes, others, n + 1);
        one_step(state, outcomes, others, n + 2);
        done_stays_done(
            state,
            outcomes,
            others,
            if state.storage_key is Some && outcomes.processed is Ok {
                n + 3
            } else {
                n + 2
            },
            7,
        );
    } else {
        done_stays_done(state, outcomes, others, n, 7);
    }
}

/// Neither what comes of the client's outgoing encryption requests nor what comes of
/// removing an entry of no use makes a difference to a synchronisation, at any point
/// of it.
pub proof fn side_work_does_not_matter<E>(
    state: LoopState,
    outcomes: Outcomes<E>,
    others: Others,
    outgoing: Option<Result<(), E>>,
    invalidated: Result<(), E>,
    steps: nat,
)
    ensures
        point_after(state, Outcomes { outgoing, invalidated, ..outcomes }, others, steps)
            == point_after(state, outcomes, others, steps),
    decreases steps,
{
    if steps > 0 {
        side_work_does_not_matter(
            state,
            outcomes,
            others,
            outgoing,
            invalidated,
            (steps - 1) as nat,
        );
    }
}

/// What has come of the steps before is known from the step that is due.
proof fn plan_tells_what_came<E>(
    state: LoopState,
    outcomes: Outcomes<E>,
    others: Others,
    steps: nat,
)
    ensures
        ({
            let plan = point_after(state, outcomes, others, steps).plan;
            &&& plan is ReadCache ==> steps == 0 && state.storage_key is Some
            &&& plan is InvalidateCache || plan is Send ==> (state.storage_key is Some
                ==> outcomes.read is Ok)
            &&& plan matches Plan::Handle(response) ==> outcomes.bring_response(state)
                && outcomes.response == Ok::<ResponseView, E>(response)
            &&& plan matches Plan::Process(response) ==> outcomes.bring_response(state)
                && outcomes.response == Ok::<ResponseView, E>(response)
        }),
    decreases steps,
{
    if steps > 0 {
        plan_tells_what_came(state, outcomes, others, (steps - 1) as nat);
        same_loop(state, outcomes, others, (steps - 1) as nat);
    }
}

/// The steps left only become fewer.
proof fn steps_become_fewer<E>(
    state: LoopState,
    outcomes: Outcomes<E>,
    others: Others,
    earlier: nat,
    later: nat,
)
    requires
        earlier < later,
    ensures
        ({
            let before = point_after(state, outcomes, others, earlier).steps_left();
            let after = point_after(state, outcomes, others, later).steps_left();
            after < before || after == before == 0
        }),
    decreases later,
{
    if earlier + 1 < later {
        steps_become_fewer(state, outcomes, others, earlier, (later - 1) as nat);
    }
}

/// A response that is received is processed in exactly one step of the
/// synchronisation, and none is if none is received.
pub proof fn response_is_processed_once<E>(
    state: LoopState,
    outcomes: Outcomes<E>,
    others: Others,
    steps: nat,
)
    ensures
        point_after(state, outcomes, others, steps).plan is Process <==> outcomes.bring_response(
            state,
        ) && steps == steps_before_processing(state, outcomes),
        point_after(state, outcomes, others, steps).plan matches Plan::Process(response)
            ==> outcomes.response == Ok::<ResponseView, E>(response),
{
    plan_tells_what_came(state, outcomes, others, steps);
    let n = steps_before_processing(state, outcomes);
    if outcomes.bring_response(state) {
        first_steps(state, outcomes, others);
        if steps < n {
            steps_become_fewer(state, outcomes, others, steps, n);
        } else if n < steps {
            steps_become_fewer(state, outcomes, others, n, steps);
        }
    }
}

/// A response is taken in entirely or not at all, on top of whatever the loop has
/// come to be when it has been processed: the step that processes it leaves the loop
/// with all that it says, or as it was if the client failed to process it. Other
/// than that a synchronisation only takes over what the store holds, as its first
/// step.
pub proof fn response_is_taken_in_entirely<E>(
    state: LoopState,
    outcomes: Outcomes<E>,
    others: Others,
    steps: nat,
)
    ensures
        ({
            let before = point_after(state, outcomes, others, steps);
            let met = before.after_others(others(steps)).state;
            let after = point_after(state, outcomes, others, steps + 1).state;
            after == if outcomes.bring_response(state) && steps == steps_before_processing(
                state,
                outcomes,
            ) {
                to_device::state_after_processing(
                    met,
                    outcomes.response->Ok_0,
                    outcomes.processed,
                )
            } else if state.storage_key is Some && steps == 0 {
                to_device::state_after_read(met, outcomes.read)
            } else {
                met
            }
        }),
{
    plan_tells_what_came(state, outcomes, others, steps);
    response_is_processed_once(state, outcomes, others, steps);
}

/// If nobody else touches the loop, it is left with what the store held, and on top
/// of that with what the response says if that was received and processed, even if
/// it could not be saved then.
pub proof fn undisturbed_synchronisation<E>(state: LoopState, outcomes: Outcomes<E>)
    ensures
        ({
            let start = if state.storage_key is Some {
                to_device::state_after_read(state, outcomes.read)
            } else {
                state
            };
            synchronised(state, outcomes, nobody()).state == if outcomes.bring_response(state)
                && outcomes.processed is Ok {
                start.handled(outcomes.response->Ok_0)
            } else {
                start
            }
        }),
{
    reveal_with_fuel(point_after, 8);
}

/// A request is that of the state that the loop had when the request became due:
/// what the store holds has been taken over by then.
pub proof fn request_is_up_to_date<E>(
    state: LoopState,
    outcomes: Outcomes<E>,
    others: Others,
    steps: nat,
)
    ensures
        point_after(state, outcomes, others, steps).plan matches Plan::Send(sent) ==> {
            &&& sent == point_after(state, outcomes, others, steps).state
            &&& state.storage_key is Some ==> steps > 0
            &&& state.storage_key is Some && steps == 1 ==> sent == to_device::state_after_read(
                to_device::apply_all(state, others(0)),
                outcomes.read,
            )
        },
{
    if steps > 0 {
        plan_tells_what_came(state, outcomes, others, (steps - 1) as nat);
        same_loop(state, outcomes, others, (steps - 1) as nat);
    }
    if steps == 1 {
        reveal_with_fuel(point_after, 2);
    }
}

/// When a response has been received and processed, a saved loop writes the token
/// that it then has: a loop of the same connection that starts anew looks under the
/// key that was written, and asks for to-device messages from the same token.
pub proof fn synchronised_token_survives_restart<E>(
    state: LoopState,
    outcomes: Outcomes<E>,
    others: Others,
)
    requires
        state.storage_key is Some,
        outcomes.bring_response(state),
        outcomes.processed is Ok,
    ensures
        ({
            let processed = point_after(
                state,
                outcomes,
                others,
                steps_before_processing(state, outcomes) + 1,
            );
            let anew = LoopState { since_token: None, pos: None, ..state };
            &&& processed.plan matches Plan::WriteCache(key, token)
            &&& to_device::plan_start::<E>(anew) == Plan::<E>::ReadCache(key)
            &&& anew.restored(CachedEntryView::Saved(token)).request().to_device_since
                == processed.state.request().to_device_since
        }),
{
    let n = steps_before_processing(state, outcomes);
    response_is_processed_once(state, outcomes, others, n);
    same_loop(state, outcomes, others, n);
}

} // verus!
