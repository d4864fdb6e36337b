//! Runs of a notification stream, and what holds of every run.
use crate::notifications;
use crate::notifications::{AfterUnlock, LockError, NotificationSync, SdkError, SyncStep};
use crate::sliding_sync::UpdateSummary;
use vstd::prelude::*;

verus! {

/// What comes of a step.
#[derive(Debug)]
pub enum SyncEvent<E, C> {
    /// Of [`SyncStep::TryLockStoreOnce`].
    LockTried(Result<bool, LockError<E, C>>),
    /// Of [`SyncStep::SpinLockStore`].
    Locked(Result<(), LockError<E, C>>),
    /// Of [`SyncStep::NextUpdate`].
    Update(Option<Result<UpdateSummary, SdkError<E>>>),
    /// Of [`SyncStep::UnlockStore`].
    Unlocked(Result<(), LockError<E, C>>),
    /// Of [`SyncStep::YieldUpdate`]: the stream is polled again.
    Resumed,
}

/// A moment in a run: what is left of the iterations, and the step that is due.
pub struct Moment<E, C> {
    pub left: Option<nat>,
    pub step: SyncStep<E, C>,
}

impl<E, C> Moment<E, C> {
    /// The moment at which an iteration begins.
    pub open spec fn start(left: Option<nat>) -> Self {
        Moment {
            left: notifications::left_after_start(left),
            step: notifications::step_at_start(left),
        }
    }

    /// Whether the step that is due can have this come of it.
    pub open spec fn awaits(self, event: SyncEvent<E, C>) -> bool {
        match self.step {
            SyncStep::TryLockStoreOnce => event is LockTried,
            SyncStep::SpinLockStore { .. } => event is Locked,
            SyncStep::NextUpdate { .. } => event is Update,
            SyncStep::UnlockStore(_) => event is Unlocked,
            SyncStep::YieldUpdate => event is Resumed,
            SyncStep::Fail(_) => false,
            SyncStep::End => false,
        }
    }

    /// The next moment, when this came of the step that was due.
    pub open spec fn next(self, event: SyncEvent<E, C>) -> Self {
        match (self.step, event) {
            (SyncStep::TryLockStoreOnce, SyncEvent::LockTried(locked)) => Moment {
                step: notifications::step_after_try_lock(locked),
                ..self
            },
            (SyncStep::SpinLockStore { .. }, SyncEvent::Locked(locked)) => Moment {
                step: notifications::step_after_lock(locked),
                ..self
            },
            (SyncStep::NextUpdate { must_unlock }, SyncEvent::Update(update)) => Moment {
                step: notifications::step_after_update(must_unlock, update),
                ..self
            },
            (SyncStep::UnlockStore(after), SyncEvent::Unlocked(unlocked)) => Moment {
                step: notifications::step_after_unlock(after, unlocked),
                ..self
            },
            (SyncStep::YieldUpdate, SyncEvent::Resumed) => Moment::start(self.left),
            _ => self,
        }
    }
}

/// Goes on with a stream: takes the step that was due and what came of it, and gives
/// the step that is due then. What cannot have come of the step changes nothing.
pub fn advance<E, C>(
    sync: &mut NotificationSync,
    step: SyncStep<E, C>,
    event: SyncEvent<E, C>,
) -> (next: SyncStep<E, C>)
    ensures
        (Moment { left: final(sync)@, step: next }) == (Moment { left: old(sync)@, step }).next(
            event,
        ),
{
    match (step, event) {
        (SyncStep::TryLockStoreOnce, SyncEvent::LockTried(locked)) => {
            NotificationSync::store_lock_tried(locked)
        },
        (SyncStep::SpinLockStore { .. }, SyncEvent::Locked(locked)) => {
            NotificationSync::store_locked(locked)
        },
        (SyncStep::NextUpdate { must_unlock }, SyncEvent::Update(update)) => {
            NotificationSync::update_received(must_unlock, update)
        },
        (SyncStep::UnlockStore(after), SyncEvent::Unlocked(unlocked)) => {
            NotificationSync::store_unlocked(after, unlocked)
        },
        (SyncStep::YieldUpdate, SyncEvent::Resumed) => sync.sync(),
        (step, _) => step,
    }
}

/// Whether these are the moments of a run of a stream, and these the events between
/// them. `supply[0]` is what was left of the iterations when it started, and
/// `supply[i + 1]` what is left of them when `events[i]` comes: other streams of the
/// same source may have changed that since `moments[i]`.
pub open spec fn is_run<E, C>(
    supply: Seq<Option<nat>>,
    moments: Seq<Moment<E, C>>,
    events: Seq<SyncEvent<E, C>>,
) -> bool {
    &&& moments.len() == events.len() + 1
    &&& supply.len() == moments.len()
    &&& moments[0] == Moment::<E, C>::start(supply[0])
    &&& forall|i: int|
        #![trigger moments[i], events[i]]
        0 <= i < events.len() ==> moments[i].awaits(events[i]) && moments[i + 1] == (Moment {
            left: supply[i + 1],
            step: moments[i].step,
        }).next(events[i])
}

/// What is left of the iterations after this many calls for the next one, by
/// whichever streams.
pub open spec fn left_after_starts(left: Option<nat>, starts: nat) -> Option<nat>
    decreases starts,
{
    if starts == 0 {
        left
    } else {
        notifications::left_after_start(left_after_starts(left, (starts - 1) as nat))
    }
}

/// Whether other streams can have left this of what was left before.
pub open spec fn is_left_by_others(before: Option<nat>, after: Option<nat>) -> bool {
    exists|starts: nat| after == #[trigger] left_after_starts(before, starts)
}

/// Whether all that other streams do to the iterations during a run is to call for
/// the next one.
pub open spec fn is_shared_supply<E, C>(
    supply: Seq<Option<nat>>,
    moments: Seq<Moment<E, C>>,
) -> bool {
    forall|i: int|
        #![trigger moments[i]]
        0 <= i < moments.len() - 1 ==> is_left_by_others(moments[i].left, supply[i + 1])
}

/// How many iterations other streams have begun during a run.
pub open spec fn taken_by_others<E, C>(
    supply: Seq<Option<nat>>,
    moments: Seq<Moment<E, C>>,
) -> int
    decreases moments.len(),
{
    if moments.len() <= 1 {
        0
    } else {
        taken_by_others(supply.drop_last(), moments.drop_last()) + (
        moments.drop_last().last().left->0 - supply.last()->0)
    }
}

/// Whether the store's lock is taken with this event.
pub open spec fn takes_lock<E, C>(event: SyncEvent<E, C>) -> bool {
    match event {
        SyncEvent::LockTried(Ok(locked)) => locked,
        SyncEvent::Locked(Ok(())) => true,
        _ => false,
    }
}

/// Whether the store's lock is held at this moment, and not being given back.
pub open spec fn holds_lock<E, C>(moment: Moment<E, C>) -> bool {
    moment.step matches SyncStep::NextUpdate { must_unlock } && must_unlock
}

/// Whether the store's lock is being given back at this moment.
pub open spec fn gives_lock_back<E, C>(moment: Moment<E, C>) -> bool {
    moment.step is UnlockStore
}

/// Whether an iteration is beginning at this moment.
pub open spec fn begins_iteration<E, C>(moment: Moment<E, C>) -> bool {
    moment.step is TryLockStoreOnce || moment.step is SpinLockStore
}

/// Whether an update is yielded at this moment.
pub open spec fn yields_update<E, C>(moment: Moment<E, C>) -> bool {
    moment.step is YieldUpdate
}

/// Whether an iteration is under way at this moment, that may still yield an update.
pub open spec fn is_under_way<E, C>(moment: Moment<E, C>) -> bool {
    match moment.step {
        SyncStep::UnlockStore(after) => after is Continue,
        SyncStep::YieldUpdate => false,
        SyncStep::Fail(_) => false,
        SyncStep::End => false,
        _ => true,
    }
}

/// Whether nothing is in the way of the stream with this event.
pub open spec fn goes_well<E, C>(event: SyncEvent<E, C>) -> bool {
    match event {
        SyncEvent::LockTried(locked) => locked is Ok,
        SyncEvent::Locked(locked) => locked is Ok,
        SyncEvent::Update(update) => update matches Some(update) && update is Ok,
        SyncEvent::Unlocked(unlocked) => unlocked is Ok,
        SyncEvent::Resumed => true,
    }
}

/// Whether nothing is in the way of the stream in the whole run.
pub open spec fn is_undisturbed<E, C>(events: Seq<SyncEvent<E, C>>) -> bool {
    forall|i: int| 0 <= i < events.len() ==> goes_well(#[trigger] events[i])
}

/// How many of the elements have the property.
pub open spec fn count<A>(elements: Seq<A>, property: spec_fn(A) -> bool) -> nat
    decreases elements.len(),
{
    if elements.len() == 0 {
        0
    } else {
        count(elements.drop_last(), property) + if property(elements.last()) {
            1nat
        } else {
            0
        }
    }
}

/// A run without its last event is a run.
pub proof fn shorter_run<E, C>(
    supply: Seq<Option<nat>>,
    moments: Seq<Moment<E, C>>,
    events: Seq<SyncEvent<E, C>>,
)
    requires
        is_run(supply, moments, events),
        events.len() > 0,
    ensures
        is_run(supply.drop_last(), moments.drop_last(), events.drop_last()),
        moments.drop_last().last().awaits(events.last()),
        moments.last() == (Moment {
            left: supply.last(),
            step: moments.drop_last().last().step,
        }).next(events.last()),
        is_shared_supply(supply, moments) ==> is_shared_supply(
            supply.drop_last(),
            moments.drop_last(),
        ) && is_left_by_others(moments.drop_last().last().left, supply.last()),
{
    let n = events.len() - 1;
    assert(moments[n].awaits(events[n]) && moments[n + 1] == (Moment {
        left: supply[n + 1],
        step: moments[n].step,
    }).next(events[n]));
    let (s, m, e) = (supply.drop_last(), moments.drop_last(), events.drop_last());
    assert forall|i: int| #![trigger m[i], e[i]] 0 <= i < e.len() implies m[i].awaits(e[i]) && m[i
        + 1] == (Moment { left: s[i + 1], step: m[i].step }).next(e[i]) by {
        assert(moments[i].awaits(events[i]) && moments[i + 1] == (Moment {
            left: supply[i + 1],
            step: moments[i].step,
        }).next(events[i]));
    }
    if is_shared_supply(supply, moments) {
        assert forall|i: int| #![trigger m[i]] 0 <= i < m.len() - 1 implies is_left_by_others(
            m[i].left,
            s[i + 1],
        ) by {
            assert(is_left_by_others(moments[i].left, supply[i + 1]));
        }
    }
}

/// The store's lock is given back as often as it is taken, but for the one that is
/// held while the stream waits for an update. So it is never held while the
/// stream is idle or when it is over.
pub proof fn lock_is_given_back<E, C>(
    supply: Seq<Option<nat>>,
    moments: Seq<Moment<E, C>>,
    events: Seq<SyncEvent<E, C>>,
)
    requires
        is_run(supply, moments, events),
    ensures
        count(events, |event: SyncEvent<E, C>| takes_lock(event)) == count(
            moments,
            |moment: Moment<E, C>| gives_lock_back(moment),
        ) + if holds_lock(moments.last()) {
            1nat
        } else {
            0
        },
    decreases events.len(),
{
    reveal_with_fuel(count, 2);
    if events.len() > 0 {
        shorter_run(supply, moments, events);
        lock_is_given_back(supply.drop_last(), moments.drop_last(), events.drop_last());
    }
}

/// What other streams leave of a fixed number of iterations is no more than there
/// was, and without a limit they leave none.
proof fn others_only_take<E, C>(before: Option<nat>, after: Option<nat>)
    requires
        is_left_by_others(before, after),
    ensures
        before is Some <==> after is Some,
        before is Some ==> after->0 <= before->0,
{
    let starts = choose|starts: nat| after == #[trigger] left_after_starts(before, starts);
    match before {
        Some(iterations) => supply_is_shared::<E, C>(iterations, starts),
        None => no_limit_stays(starts),
    }
}

/// Without a limit there is none after any number of calls.
proof fn no_limit_stays(starts: nat)
    ensures
        left_after_starts(None, starts) is None,
    decreases starts,
{
    if starts > 0 {
        no_limit_stays((starts - 1) as nat);
    }
}

/// With a fixed number of iterations, what the stream has begun, what other streams
/// have begun and what is left always add up to it, and every iteration waits for the
/// lock.
pub proof fn fixed_iterations_are_counted<E, C>(
    iterations: nat,
    supply: Seq<Option<nat>>,
    moments: Seq<Moment<E, C>>,
    events: Seq<SyncEvent<E, C>>,
)
    requires
        is_run(supply, moments, events),
        supply[0] == Some(iterations),
        is_shared_supply(supply, moments),
    ensures
        moments.last().left matches Some(left) && count(
            moments,
            |moment: Moment<E, C>| begins_iteration(moment),
        ) + taken_by_others(supply, moments) + left == iterations,
        taken_by_others(supply, moments) >= 0,
        !(moments.last().step is TryLockStoreOnce),
        moments.last().step matches SyncStep::SpinLockStore { limit } ==> limit == Some(
            notifications::SPIN_LOCK_LIMIT,
        ),
    decreases events.len(),
{
    reveal_with_fuel(count, 2);
    if events.len() > 0 {
        shorter_run(supply, moments, events);
        fixed_iterations_are_counted(
            iterations,
            supply.drop_last(),
            moments.drop_last(),
            events.drop_last(),
        );
        others_only_take::<E, C>(moments.drop_last().last().left, supply.last());
    }
}

/// Without a limit there never is one, and no iteration waits for the lock.
pub proof fn unlimited_iterations_stay_so<E, C>(
    supply: Seq<Option<nat>>,
    moments: Seq<Moment<E, C>>,
    events: Seq<SyncEvent<E, C>>,
)
    requires
        is_run(supply, moments, events),
        supply[0] is None,
        is_shared_supply(supply, moments),
    ensures
        moments.last().left is None,
        !(moments.last().step is SpinLockStore),
    decreases events.len(),
{
    if events.len() > 0 {
        shorter_run(supply, moments, events);
        unlimited_iterations_stay_so(
            supply.drop_last(),
            moments.drop_last(),
            events.drop_last(),
        );
        others_only_take::<E, C>(moments.drop_last().last().left, supply.last());
    }
}

/// In a run that nothing gets in the way of there is no error, the lock is only
/// given back after an update, and the stream only ends for want of iterations.
proof fn undisturbed_run<E, C>(
    supply: Seq<Option<nat>>,
    moments: Seq<Moment<E, C>>,
    events: Seq<SyncEvent<E, C>>,
)
    requires
        is_run(supply, moments, events),
        is_undisturbed(events),
    ensures
        !(moments.last().step is Fail),
        moments.last().step matches SyncStep::UnlockStore(after) ==> after is Continue,
        moments.last().step is End ==> moments.last().left == Some(0nat),
    decreases events.len(),
{
    if events.len() > 0 {
        shorter_run(supply, moments, events);
        undisturbed_run(supply.drop_last(), moments.drop_last(), events.drop_last());
        assert(goes_well(events[events.len() - 1]));
    }
}

/// An iteration yields at most one update, and exactly one unless something gets in
/// its way.
pub proof fn iteration_yields_one_update<E, C>(
    supply: Seq<Option<nat>>,
    moments: Seq<Moment<E, C>>,
    events: Seq<SyncEvent<E, C>>,
)
    requires
        is_run(supply, moments, events),
    ensures
        ({
            let begun = count(moments, |moment: Moment<E, C>| begins_iteration(moment));
            let yielded = count(moments, |moment: Moment<E, C>| yields_update(moment));
            let under_way: nat = if is_under_way(moments.last()) {
                1
            } else {
                0
            };
            &&& yielded + under_way <= begun
            &&& is_undisturbed(events) ==> yielded + under_way == begun
        }),
    decreases events.len(),
{
    reveal_with_fuel(count, 2);
    if events.len() > 0 {
        shorter_run(supply, moments, events);
        iteration_yields_one_update(supply.drop_last(), moments.drop_last(), events.drop_last());
        if is_undisturbed(events) {
            undisturbed_run(supply, moments, events);
            undisturbed_run(supply.drop_last(), moments.drop_last(), events.drop_last());
        }
    }
}

/// A stream with a fixed number of iterations that nothing gets in the way of ends
/// when the updates that it has yielded and the iterations that other streams have
/// begun come to that number, and not before. So it yields that many updates if it
/// is alone.
pub proof fn fixed_iterations_are_all_yielded<E, C>(
    iterations: nat,
    supply: Seq<Option<nat>>,
    moments: Seq<Moment<E, C>>,
    events: Seq<SyncEvent<E, C>>,
)
    requires
        is_run(supply, moments, events),
        supply[0] == Some(iterations),
        is_shared_supply(supply, moments),
        is_undisturbed(events),
    ensures
        moments.last().step is End <==> count(
            moments,
            |moment: Moment<E, C>| yields_update(moment),
        ) + taken_by_others(supply, moments) == iterations && !(moments.last().step is YieldUpdate),
{
    fixed_iterations_are_counted(iterations, supply, moments, events);
    iteration_yields_one_update(supply, moments, events);
    undisturbed_run(supply, moments, events);
}

/// If no other stream calls for an iteration during a run, none is taken by others.
pub proof fn lone_stream_has_all_iterations<E, C>(
    supply: Seq<Option<nat>>,
    moments: Seq<Moment<E, C>>,
)
    requires
        supply.len() == moments.len(),
        forall|i: int|
            #![trigger moments[i]]
            0 <= i < moments.len() - 1 ==> supply[i + 1] == moments[i].left,
    ensures
        is_shared_supply(supply, moments),
        taken_by_others(supply, moments) == 0,
    decreases moments.len(),
{
    assert forall|i: int|
        #![trigger moments[i]]
        0 <= i < moments.len() - 1 implies is_left_by_others(moments[i].left, supply[i + 1]) by {
        assert(supply[i + 1] == left_after_starts(moments[i].left, 0));
    }
    if moments.len() > 1 {
        let (s, m) = (supply.drop_last(), moments.drop_last());
        assert forall|i: int| #![trigger m[i]] 0 <= i < m.len() - 1 implies s[i + 1]
            == m[i].left by {
            assert(supply[i + 1] == moments[i].left);
        }
        lone_stream_has_all_iterations(s, m);
        assert(supply[moments.len() - 2 + 1] == moments[moments.len() - 2].left);
    }
}

/// Nothing follows an error or the end. So a stream yields updates, at most one
/// error after them, and no more.
pub proof fn failure_and_end_are_last<E, C>(
    supply: Seq<Option<nat>>,
    moments: Seq<Moment<E, C>>,
    events: Seq<SyncEvent<E, C>>,
    i: int,
)
    requires
        is_run(supply, moments, events),
        0 <= i < moments.len(),
        moments[i].step is Fail || moments[i].step is End,
    ensures
        i == moments.len() - 1,
{
    if i < events.len() {
        assert(moments[i].awaits(events[i]));
    }
}

/// A stream without a limit does not end by itself: if it has ended, the sliding
/// sync underneath had no next update.
pub proof fn unlimited_stream_ends_when_stopped<E, C>(
    supply: Seq<Option<nat>>,
    moments: Seq<Moment<E, C>>,
    events: Seq<SyncEvent<E, C>>,
)
    requires
        is_run(supply, moments, events),
        supply[0] is None,
        is_shared_supply(supply, moments),
        moments.last().step is End || moments.last().step == SyncStep::<E, C>::UnlockStore(
            AfterUnlock::End,
        ),
    ensures
        events.contains(SyncEvent::Update(None)),
    decreases events.len(),
{
    if events.len() > 0 {
        shorter_run(supply, moments, events);
        let before = moments.drop_last();
        unlimited_iterations_stay_so(supply.drop_last(), before, events.drop_last());
        others_only_take::<E, C>(before.last().left, supply.last());
        if before.last().step is UnlockStore {
            unlimited_stream_ends_when_stopped(supply.drop_last(), before, events.drop_last());
            let i = choose|i: int|
                0 <= i < events.drop_last().len() && events.drop_last()[i] == SyncEvent::<
                    E,
                    C,
                >::Update(None);
            assert(events[i] == SyncEvent::<E, C>::Update(None));
        } else {
            assert(events[events.len() - 1] == SyncEvent::<E, C>::Update(None));
        }
    }
}

/// A stream that waits for an update when the sliding sync underneath is stopped
/// ends without yielding anything; if it holds the store's lock it gives it back
/// first, and a failure of that is what it fails with.
pub proof fn stop_releases_lock<E, C>(
    moment: Moment<E, C>,
    must_unlock: bool,
    unlocked: Result<(), LockError<E, C>>,
)
    requires
        moment.step == (SyncStep::<E, C>::NextUpdate { must_unlock }),
    ensures
        ({
            let stopped = moment.next(SyncEvent::Update(None));
            if must_unlock {
                &&& gives_lock_back(stopped)
                &&& match unlocked {
                    Ok(()) => stopped.next(SyncEvent::Unlocked(unlocked)).step is End,
                    Err(_) => stopped.next(SyncEvent::Unlocked(unlocked)).step is Fail,
                }
            } else {
                stopped.step is End
            }
        }),
{
}

/// All streams together get the fixed number of iterations: the calls up to it
/// begin one, every later call ends its stream.
pub proof fn supply_is_shared<E, C>(iterations: nat, earlier: nat)
    ensures
        left_after_starts(Some(iterations), earlier) == Some(
            (if earlier < iterations {
                iterations - earlier
            } else {
                0
            }) as nat,
        ),
        notifications::step_at_start::<E, C>(left_after_starts(Some(iterations), earlier)) is End
            <==> earlier >= iterations,
    decreases earlier,
{
    if earlier > 0 {
        supply_is_shared::<E, C>(iterations, (earlier - 1) as nat);
    }
}

} // verus!
