//! What the model of a notification stream amounts to, in plain values.
use crate::notification_runs;
use crate::notification_runs::{Moment, SyncEvent};
use crate::notification_sync;
use crate::notification_sync::{
    Client, ListenerLoop, ListenerStep, NotificationSync, NotificationSyncStartup, Termination,
};
use crate::notifications;
use crate::notifications::{
    AfterUnlock, CryptoStoreError, Error, LockError, NotificationSyncMode, NotificationSyncSetup,
    SdkError, SyncStep,
};
use crate::sliding_sync::UpdateSummary;
use vstd::prelude::*;

verus! {

/// Whatever the identifier and the mode, the sliding sync is kept in the store, and has
/// the to-device extension, from the start, and the encryption extension switched on.
pub proof fn every_setup_asks_for_messages_and_keys(
    setup: NotificationSyncSetup,
    id: Seq<char>,
    mode: NotificationSyncMode,
)
    requires
        setup.is_for(id, mode),
    ensures
        setup.config.id@ == id,
        setup.config.caching,
        setup.config.to_device.enabled == Some(true),
        setup.config.to_device.since is None,
        setup.config.e2ee.enabled == Some(true),
        setup.mode == mode,
{
}

/// The sliding sync does not depend on the mode: two setups of one identifier have the
/// same configuration.
pub proof fn configuration_is_the_same_in_every_mode(
    a: NotificationSyncSetup,
    b: NotificationSyncSetup,
    id: Seq<char>,
    mode_a: NotificationSyncMode,
    mode_b: NotificationSyncMode,
)
    requires
        a.is_for(id, mode_a),
        b.is_for(id, mode_b),
    ensures
        a.config.id@ == b.config.id@,
        a.config.caching == b.config.caching,
        a.config.to_device == b.config.to_device,
        a.config.e2ee == b.config.e2ee,
{
}

/// A fixed number of iterations is that number, and without an end there is no limit.
pub proof fn mode_fixes_the_iterations(iterations: u8)
    ensures
        NotificationSyncMode::RunFixedIterations(iterations).iterations() == Some(
            iterations as nat,
        ),
        NotificationSyncMode::NeverStop.iterations() is None,
{
}

/// The setup fails if the sliding sync cannot be built, with that error, and if the
/// lock cannot be enabled, with that error. That a lock has been set before is no
/// failure of enabling it.
pub proof fn setup_fails_with_its_error<E, C>(error: SdkError<E>, other: E)
    ensures
        notifications::built_outcome::<E, C>(Ok(())) is Ok,
        notifications::built_outcome::<E, C>(Err(error)) == Err::<(), Error<E, C>>(
            Error::SlidingSync(error),
        ),
        notifications::lock_outcome::<E, C>(Ok(())) is Ok,
        notifications::lock_outcome::<E, C>(Err(SdkError::BadCryptoStoreState)) is Ok,
        notifications::lock_outcome::<E, C>(Err(SdkError::Other(other))) == Err::<
            (),
            Error<E, C>,
        >(Error::ClientError(SdkError::Other(other))),
{
}

/// An error is passed on as what it is.
pub proof fn errors_are_passed_on<E, C>(sdk: SdkError<E>, store: CryptoStoreError<C>)
    ensures
        <Error<E, C> as vstd::std_specs::convert::FromSpec<SdkError<E>>>::from_spec(sdk)
            == Error::<E, C>::SlidingSync(sdk),
        <Error<E, C> as vstd::std_specs::convert::FromSpec<CryptoStoreError<C>>>::from_spec(store)
            == Error::<E, C>::CryptoStore(store),
        <Error<E, C> as vstd::std_specs::convert::FromSpec<LockError<E, C>>>::from_spec(
            LockError::Sdk(sdk),
        ) == Error::<E, C>::SlidingSync(sdk),
        <Error<E, C> as vstd::std_specs::convert::FromSpec<LockError<E, C>>>::from_spec(
            LockError::CryptoStore(store),
        ) == Error::<E, C>::CryptoStore(store),
{
}

/// An iteration begins exactly if one is left. With a fixed number it waits for the
/// lock, up to the limit, and uses one up; without an end it tries the lock once and
/// uses none up.
pub proof fn iteration_begins_while_one_is_left<E, C>(left: nat)
    ensures
        Moment::<E, C>::start(None) == (Moment::<E, C> {
            left: None,
            step: SyncStep::TryLockStoreOnce,
        }),
        Moment::<E, C>::start(Some(0nat)) == (Moment::<E, C> {
            left: Some(0nat),
            step: SyncStep::End,
        }),
        Moment::<E, C>::start(Some(left + 1)) == (Moment::<E, C> {
            left: Some(left),
            step: SyncStep::SpinLockStore { limit: Some(60000u32) },
        }),
{
}

/// A stream is only told to begin an iteration when it is resumed after an update, and
/// nothing else changes what is left of them.
pub proof fn only_resuming_uses_iterations_up<E, C>(
    moment: Moment<E, C>,
    event: SyncEvent<E, C>,
)
    ensures
        moment.step is YieldUpdate && event is Resumed ==> moment.next(event) == Moment::<
            E,
            C,
        >::start(moment.left),
        !(moment.step is YieldUpdate && event is Resumed) ==> moment.next(event).left
            == moment.left,
{
}

/// With the lock taken, or tried without an error, the stream waits for an update, and
/// remembers whether there is a lock to be given back.
pub proof fn lock_leads_to_the_update<E, C>(
    left: Option<nat>,
    limit: Option<u32>,
    locked: bool,
    taken: Result<(), LockError<E, C>>,
)
    requires
        taken is Ok,
    ensures
        (Moment { left, step: SyncStep::<E, C>::TryLockStoreOnce }).next(
            SyncEvent::LockTried(Ok(locked)),
        ) == (Moment { left, step: SyncStep::<E, C>::NextUpdate { must_unlock: locked } }),
        (Moment { left, step: SyncStep::<E, C>::SpinLockStore { limit } }).next(
            SyncEvent::Locked(taken),
        ) == (Moment { left, step: SyncStep::<E, C>::NextUpdate { must_unlock: true } }),
{
}

/// Where an event of a run leads.
proof fn event_leads_on<E, C>(
    supply: Seq<Option<nat>>,
    moments: Seq<Moment<E, C>>,
    events: Seq<SyncEvent<E, C>>,
    i: int,
)
    requires
        notification_runs::is_run(supply, moments, events),
        0 <= i < events.len(),
    ensures
        moments[i].awaits(events[i]),
        moments[i + 1] == (Moment { left: supply[i + 1], step: moments[i].step }).next(events[i]),
{
    assert(moments[i].awaits(events[i]));
}

/// An update is only waited for after the lock has been asked for: with a fixed number
/// of iterations it has been got just before, and without an end it has been tried
/// just before. What has been got is to be given back, and nothing else is.
pub proof fn update_is_awaited_under_the_lock<E, C>(
    supply: Seq<Option<nat>>,
    moments: Seq<Moment<E, C>>,
    events: Seq<SyncEvent<E, C>>,
    i: int,
)
    requires
        notification_runs::is_run(supply, moments, events),
        0 <= i < moments.len(),
        moments[i].step is NextUpdate,
    ensures
        i > 0,
        moments[i].step matches SyncStep::NextUpdate { must_unlock } && match moments[i - 1].step {
            SyncStep::SpinLockStore { .. } => must_unlock && (
            events[i - 1] matches SyncEvent::Locked(locked) && locked is Ok),
            SyncStep::TryLockStoreOnce => events[i - 1] == SyncEvent::<E, C>::LockTried(
                Ok(must_unlock),
            ),
            _ => false,
        },
{
    if i > 0 {
        event_leads_on(supply, moments, events, i - 1);
    }
}

/// With a fixed number of iterations an update is only ever waited for while the lock
/// is held.
pub proof fn fixed_iterations_hold_the_lock<E, C>(
    iterations: nat,
    supply: Seq<Option<nat>>,
    moments: Seq<Moment<E, C>>,
    events: Seq<SyncEvent<E, C>>,
    i: int,
)
    requires
        notification_runs::is_run(supply, moments, events),
        supply[0] == Some(iterations),
        notification_runs::is_shared_supply(supply, moments),
        0 <= i < moments.len(),
        moments[i].step is NextUpdate,
    ensures
        i > 0,
        events[i - 1] matches SyncEvent::Locked(locked) && locked is Ok,
        moments[i].step == (SyncStep::<E, C>::NextUpdate { must_unlock: true }),
    decreases events.len(),
{
    update_is_awaited_under_the_lock(supply, moments, events, i);
    if i == moments.len() - 1 {
        notification_runs::shorter_run(supply, moments, events);
        notification_runs::fixed_iterations_are_counted(
            iterations,
            supply.drop_last(),
            moments.drop_last(),
            events.drop_last(),
        );
    } else {
        notification_runs::shorter_run(supply, moments, events);
        fixed_iterations_hold_the_lock(
            iterations,
            supply.drop_last(),
            moments.drop_last(),
            events.drop_last(),
            i,
        );
    }
}

/// When the lock cannot be taken, or not be given back, the stream fails with that
/// very error, and is over: it waits for no update, and yields none.
pub proof fn lock_failure_fails_the_stream<E, C>(
    supply: Seq<Option<nat>>,
    moments: Seq<Moment<E, C>>,
    events: Seq<SyncEvent<E, C>>,
    i: int,
    error: LockError<E, C>,
)
    requires
        notification_runs::is_run(supply, moments, events),
        0 <= i < events.len(),
        events[i] == SyncEvent::<E, C>::LockTried(Err(error)) || events[i] == SyncEvent::<
            E,
            C,
        >::Locked(Err(error)) || events[i] == SyncEvent::<E, C>::Unlocked(Err(error)),
    ensures
        moments[i + 1].step == SyncStep::<E, C>::Fail(
            match error {
                LockError::Sdk(error) => Error::SlidingSync(error),
                LockError::CryptoStore(error) => Error::CryptoStore(error),
            },
        ),
        i + 1 == moments.len() - 1,
{
    event_leads_on(supply, moments, events, i);
    notification_runs::failure_and_end_are_last(supply, moments, events, i + 1);
}

/// When the sliding sync fails, the stream gives the lock back if it holds it, then
/// fails with that very error unless giving the lock back failed, and is over. It
/// yields no update in between.
pub proof fn update_failure_fails_the_stream<E, C>(
    supply: Seq<Option<nat>>,
    moments: Seq<Moment<E, C>>,
    events: Seq<SyncEvent<E, C>>,
    i: int,
    error: SdkError<E>,
)
    requires
        notification_runs::is_run(supply, moments, events),
        0 <= i < events.len(),
        events[i] == SyncEvent::<E, C>::Update(Some(Err(error))),
    ensures
        moments[i].step == (SyncStep::<E, C>::NextUpdate { must_unlock: false })
            ==> moments[i + 1].step == SyncStep::<E, C>::Fail(Error::SlidingSync(error)) && i + 1
            == moments.len() - 1,
        moments[i].step == (SyncStep::<E, C>::NextUpdate { must_unlock: true }) ==> {
            &&& moments[i + 1].step == SyncStep::<E, C>::UnlockStore(AfterUnlock::Fail(error))
            &&& i + 1 < events.len() ==> {
                &&& (events[i + 1] matches SyncEvent::Unlocked(unlocked) && unlocked is Ok)
                    ==> moments[i + 2].step == SyncStep::<E, C>::Fail(Error::SlidingSync(error))
                &&& moments[i + 2].step is Fail
                &&& i + 2 == moments.len() - 1
            }
        },
        moments[i].step is NextUpdate,
{
    event_leads_on(supply, moments, events, i);
    if moments[i].step == (SyncStep::<E, C>::NextUpdate { must_unlock: false }) {
        notification_runs::failure_and_end_are_last(supply, moments, events, i + 1);
    } else if i + 1 < events.len() {
        event_leads_on(supply, moments, events, i + 1);
        notification_runs::failure_and_end_are_last(supply, moments, events, i + 2);
    }
}

/// When the sliding sync is over, the stream gives the lock back if it holds it and is
/// over too, without an error of its own.
pub proof fn end_of_updates_ends_the_stream<E, C>(
    supply: Seq<Option<nat>>,
    moments: Seq<Moment<E, C>>,
    events: Seq<SyncEvent<E, C>>,
    i: int,
)
    requires
        notification_runs::is_run(supply, moments, events),
        0 <= i < events.len(),
        events[i] == SyncEvent::<E, C>::Update(None),
    ensures
        moments[i].step == (SyncStep::<E, C>::NextUpdate { must_unlock: false })
            ==> moments[i + 1].step is End,
        moments[i].step == (SyncStep::<E, C>::NextUpdate { must_unlock: true }) ==> {
            &&& moments[i + 1].step == SyncStep::<E, C>::UnlockStore(AfterUnlock::End)
            &&& i + 1 < events.len() && (events[i + 1] matches SyncEvent::Unlocked(unlocked)
                && unlocked is Ok) ==> moments[i + 2].step is End
        },
        moments[i].step is NextUpdate,
{
    event_leads_on(supply, moments, events, i);
    if i + 1 < events.len() {
        event_leads_on(supply, moments, events, i + 1);
    }
}

/// An update that the sliding sync gives is yielded, once the lock has been given back
/// where it is held.
pub proof fn update_is_yielded<E, C>(
    supply: Seq<Option<nat>>,
    moments: Seq<Moment<E, C>>,
    events: Seq<SyncEvent<E, C>>,
    i: int,
    update: UpdateSummary,
)
    requires
        notification_runs::is_run(supply, moments, events),
        0 <= i < events.len(),
        events[i] == SyncEvent::<E, C>::Update(Some(Ok(update))),
    ensures
        moments[i].step == (SyncStep::<E, C>::NextUpdate { must_unlock: false })
            ==> moments[i + 1].step is YieldUpdate,
        moments[i].step == (SyncStep::<E, C>::NextUpdate { must_unlock: true }) ==> {
            &&& moments[i + 1].step == SyncStep::<E, C>::UnlockStore(AfterUnlock::Continue)
            &&& i + 1 < events.len() && (events[i + 1] matches SyncEvent::Unlocked(unlocked)
                && unlocked is Ok) ==> moments[i + 2].step is YieldUpdate
        },
        moments[i].step is NextUpdate,
{
    event_leads_on(supply, moments, events, i);
    if i + 1 < events.len() {
        event_leads_on(supply, moments, events, i + 1);
    }
}

/// Nothing is yielded that the sliding sync has not given: before an update is yielded
/// there was one, and if the lock was held it has been given back in between.
pub proof fn yielded_update_was_given<E, C>(
    supply: Seq<Option<nat>>,
    moments: Seq<Moment<E, C>>,
    events: Seq<SyncEvent<E, C>>,
    i: int,
)
    requires
        notification_runs::is_run(supply, moments, events),
        0 <= i < moments.len(),
        moments[i].step is YieldUpdate || moments[i].step == SyncStep::<E, C>::UnlockStore(
            AfterUnlock::Continue,
        ),
    ensures
        i > 0,
        moments[i].step is YieldUpdate ==> {
            ||| events[i - 1] matches SyncEvent::Update(Some(Ok(_))) && moments[i - 1].step == (
            SyncStep::<E, C>::NextUpdate { must_unlock: false })
            ||| {
                &&& i > 1
                &&& events[i - 1] matches SyncEvent::Unlocked(unlocked) && unlocked is Ok
                &&& events[i - 2] matches SyncEvent::Update(Some(Ok(_)))
                &&& moments[i - 2].step == (SyncStep::<E, C>::NextUpdate { must_unlock: true })
            }
        },
        moments[i].step is UnlockStore ==> {
            &&& events[i - 1] matches SyncEvent::Update(Some(Ok(_)))
            &&& moments[i - 1].step == (SyncStep::<E, C>::NextUpdate { must_unlock: true })
        },
    decreases i,
{
    if i > 0 {
        event_leads_on(supply, moments, events, i - 1);
        if moments[i - 1].step is UnlockStore {
            yielded_update_was_given(supply, moments, events, i - 1);
        }
    }
}

/// What cannot have come of a step changes nothing, and nothing follows an error or
/// the end.
pub proof fn foreign_event_changes_nothing<E, C>(moment: Moment<E, C>, event: SyncEvent<E, C>)
    requires
        match moment.step {
            SyncStep::TryLockStoreOnce => !(event is LockTried),
            SyncStep::SpinLockStore { .. } => !(event is Locked),
            SyncStep::NextUpdate { .. } => !(event is Update),
            SyncStep::UnlockStore(_) => !(event is Unlocked),
            SyncStep::YieldUpdate => !(event is Resumed),
            SyncStep::Fail(_) => true,
            SyncStep::End => true,
        },
    ensures
        moment.next(event) == moment,
        !moment.awaits(event),
{
}

/// The message of an error that wraps another ends with that one's; only a failure of
/// the sliding sync has words of its own before it.
pub proof fn message_carries_the_wrapped_one<E, C>(
    sdk: SdkError<E>,
    store: CryptoStoreError<C>,
    inner: Seq<char>,
)
    ensures
        notifications::message_of(Error::<E, C>::SlidingSync(sdk), inner)
            == "Something wrong happened in sliding sync: "@ + inner,
        notifications::message_of(Error::<E, C>::CryptoStore(store), inner) == inner,
        notifications::message_of(Error::<E, C>::ClientError(sdk), inner) == inner,
        notifications::message_of(Error::<E, C>::AuthenticationRequired, inner)
            == "The client was not authenticated"@,
        notifications::message_of(Error::<E, C>::ReloadCryptoStoreError, inner)
            == "The crypto store state couldn't be reloaded"@,
{
}

/// A loop goes on after an update, on behalf of the same listener, and terminates with
/// the stream's own error or without one where the stream has ended.
pub proof fn loop_terminates_with_the_stream<L, E, C>(listener: L, error: Error<E, C>)
    ensures
        notification_sync::step_after_item::<L, E, C>(listener, Some(Ok(())))
            == ListenerStep::<L, E, C>::Poll(ListenerLoop { listener }),
        notification_sync::step_after_item::<L, E, C>(listener, Some(Err(error)))
            == ListenerStep::<L, E, C>::Terminated(
            Termination { listener, error: Some(error) },
        ),
        notification_sync::step_after_item::<L, E, C>(listener, None) == ListenerStep::<
            L,
            E,
            C,
        >::Terminated(Termination { listener, error: None }),
{
}

/// Whatever is done with a listener before its loop terminates hands it on as it is.
/// This holds of listeners of any type, also of such as cannot be told anything: so
/// none of it tells the listener.
pub proof fn nobody_is_told_before_termination<L, E, C, S>(
    client: Client<S>,
    id: String,
    num_iters: u8,
    listener: L,
    set_up: Result<notifications::NotificationSync, Error<E, C>>,
    started: Result<(NotificationSync, ListenerLoop<L>), Error<E, C>>,
    listening: ListenerLoop<L>,
    item: Option<Result<(), Error<E, C>>>,
    step: ListenerStep<L, E, C>,
    startup: NotificationSyncStartup<S, L>,
) where S: Clone
    ensures
        call_ensures(Client::<S>::main_notification_sync::<L>, (&client, id, listener), startup)
            ==> startup.listener == listener,
        call_ensures(
            Client::<S>::nse_notification_loop::<L>,
            (&client, id, listener, num_iters),
            startup,
        ) ==> startup.listener == listener,
        call_ensures(NotificationSync::start::<L>, (listener,), listening) ==> listening.listener
            == listener,
        call_ensures(NotificationSync::started::<L, E, C>, (listener, set_up), started) ==> {
            &&& started is Ok == set_up is Ok
            &&& started matches Ok((_, listening)) ==> listening.listener == listener
        },
        call_ensures(ListenerLoop::<L>::streamed::<E, C>, (listening, item), step) ==> match step {
            ListenerStep::Poll(same) => same.listener == listening.listener,
            ListenerStep::Terminated(termination) => termination.listener == listening.listener
                && notification_sync::is_final(item),
        },
{
}

} // verus!
