//! Notifications for an embedding application.
use crate::notification_runs;
use crate::notification_runs::{Moment, SyncEvent};
use crate::notifications;
use crate::notifications::{Error, NotificationSyncMode, NotificationSyncSetup, SdkError, SyncStep};
use vstd::prelude::*;

verus! {

/// The application's side of a notification sync.
///
/// Of all that carries a listener only [`Termination::notify`] asks for this trait.
/// The rest takes a listener of any type, and so cannot tell it anything.
pub trait NotificationSyncListener: Sync + Send {
    /// Called whenever the notification sync loop terminates, and must be
    /// restarted.
    fn did_terminate(&self);
}

/// A box tells the listener inside.
impl<T: NotificationSyncListener + ?Sized> NotificationSyncListener for Box<T> {
    fn did_terminate(&self)
        ensures
            call_ensures(T::did_terminate, (&**self,), ()),
    {
        (**self).did_terminate()
    }
}

/// Full context for the notification sync loop.
#[derive(Debug)]
pub struct NotificationSync {
    pub sync: notifications::NotificationSync,
}

/// The loop that follows a stream of notification updates until it is over.
#[derive(Debug, PartialEq, Eq)]
pub struct ListenerLoop<L> {
    pub listener: L,
}

/// The termination of a [`ListenerLoop`], of which the listener is still to be told.
/// The stream ended, or failed with the error.
#[derive(Debug, PartialEq, Eq)]
pub struct Termination<L, E, C> {
    pub listener: L,
    pub error: Option<Error<E, C>>,
}

/// What a [`ListenerLoop`] needs done next.
#[derive(Debug, PartialEq, Eq)]
pub enum ListenerStep<L, E, C> {
    /// Poll the stream; go on with [`ListenerLoop::streamed`].
    Poll(ListenerLoop<L>),
    /// Tell the listener, with [`Termination::notify`]. The stream is not polled any
    /// more.
    Terminated(Termination<L, E, C>),
}

/// What follows when a stream gives this. The sliding sync underneath has done its
/// retries before it fails, so an error is as final as the end.
pub open spec fn step_after_item<L, E, C>(
    listener: L,
    item: Option<Result<(), Error<E, C>>>,
) -> ListenerStep<L, E, C> {
    match item {
        Some(Ok(())) => ListenerStep::Poll(ListenerLoop { listener }),
        Some(Err(error)) => ListenerStep::Terminated(Termination { listener, error: Some(error) }),
        None => ListenerStep::Terminated(Termination { listener, error: None }),
    }
}

impl<L> ListenerLoop<L> {
    /// Goes on when the stream has been polled.
    pub fn streamed<E, C>(self, item: Option<Result<(), Error<E, C>>>) -> (next: ListenerStep<
        L,
        E,
        C,
    >)
        ensures
            next == step_after_item(self.listener, item),
            next == match item {
                Some(Ok(())) => ListenerStep::<L, E, C>::Poll(
                    (ListenerLoop { listener: self.listener }),
                ),
                Some(Err(error)) => ListenerStep::Terminated(
                    (Termination { listener: self.listener, error: Some(error) }),
                ),
                None => ListenerStep::Terminated(
                    (Termination { listener: self.listener, error: None }),
                ),
            },
    {
        let listener = self.listener;
        match item {
            Some(Ok(())) => ListenerStep::Poll(ListenerLoop { listener }),
            Some(Err(error)) => {
                ListenerStep::Terminated(Termination { listener, error: Some(error) })
            },
            None => ListenerStep::Terminated(Termination { listener, error: None }),
        }
    }
}

impl<L: NotificationSyncListener, E, C> Termination<L, E, C> {
    /// Tells the listener that the loop has terminated. This uses the termination
    /// up, so that the listener is not told twice.
    pub fn notify(self) -> (error: Option<Error<E, C>>)
        ensures
            call_ensures(L::did_terminate, (&self.listener,), ()),
            error == self.error,
    {
        self.listener.did_terminate();
        self.error
    }
}

impl NotificationSync {
    /// Starts to follow a stream on behalf of the listener: the stream is to be
    /// polled.
    pub fn start<L>(listener: L) -> (listening: ListenerLoop<L>)
        ensures
            listening.listener == listener,
    {
        ListenerLoop { listener }
    }

    /// Completes the start, given what came of the setup: there is a
    /// `NotificationSync` then, and a loop to be run beside it. If the setup failed
    /// there is neither, and the listener is not called.
    pub fn started<L, E, C>(
        listener: L,
        set_up: Result<notifications::NotificationSync, Error<E, C>>,
    ) -> (started: Result<(NotificationSync, ListenerLoop<L>), Error<E, C>>)
        ensures
            match set_up {
                Ok(sync) => {
                    &&& started matches Ok((notification_sync, listening))
                    &&& notification_sync.sync == sync
                    &&& listening.listener == listener
                },
                Err(error) => started == Err::<(NotificationSync, ListenerLoop<L>), Error<E, C>>(
                    error,
                ),
            },
    {
        match set_up {
            Ok(sync) => {
                let listening = NotificationSync::start(listener);
                Ok((NotificationSync { sync }, listening))
            },
            Err(error) => Err(error),
        }
    }

    /// Completes a stop, given what came of stopping the sliding sync underneath.
    /// Returns the error that is worth a note in the log.
    pub fn stop<E, C>(&self, stopped: Result<(), SdkError<E>>) -> (to_log: Option<Error<E, C>>)
        ensures
            to_log == match stopped {
                Ok(()) => None,
                Err(error) => Some(Error::<E, C>::SlidingSync(error)),
            },
    {
        match self.sync.stop(stopped) {
            Ok(()) => None,
            Err(error) => Some(error),
        }
    }
}

/// The application's handle on a client; `C` is the client itself.
#[derive(Debug)]
pub struct Client<C> {
    pub inner: C,
}

/// A [`NotificationSync`] in the making: the setup is to be carried through with the
/// client, and [`NotificationSync::started`] goes on from there.
#[derive(Debug)]
pub struct NotificationSyncStartup<C, L> {
    /// The client that it is made with.
    pub client: C,
    pub setup: NotificationSyncSetup,
    pub listener: L,
}

impl<C: Clone> Client<C> {
    fn notification_sync<L>(
        &self,
        id: String,
        listener: L,
        mode: NotificationSyncMode,
    ) -> (startup: NotificationSyncStartup<C, L>)
        ensures
            cloned(self.inner, startup.client),
            startup.setup.is_for(id@, mode),
            startup.setup.config.id == id,
            startup.setup.config.caching,
            startup.setup.config.to_device.enabled == Some(true),
            startup.setup.config.to_device.since is None,
            startup.setup.config.e2ee.enabled == Some(true),
            startup.setup.mode == mode,
            startup.listener == listener,
    {
        NotificationSyncStartup {
            client: self.inner.clone(),
            setup: notifications::NotificationSync::new(id, mode),
            listener,
        }
    }

    /// Begins a notification sync for the application itself, that goes on until
    /// it is stopped or fails.
    pub fn main_notification_sync<L>(
        &self,
        id: String,
        listener: L,
    ) -> (startup: NotificationSyncStartup<C, L>)
        ensures
            cloned(self.inner, startup.client),
            startup.setup.is_for(id@, NotificationSyncMode::NeverStop),
            startup.setup.config.id == id,
            startup.setup.config.caching,
            startup.setup.config.to_device.enabled == Some(true),
            startup.setup.config.to_device.since is None,
            startup.setup.config.e2ee.enabled == Some(true),
            startup.setup.mode == NotificationSyncMode::NeverStop,
            startup.listener == listener,
    {
        self.notification_sync(id, listener, NotificationSyncMode::NeverStop)
    }

    /// Begins a notification sync for a dedicated notification process, that ends
    /// after a number of iterations.
    pub fn nse_notification_loop<L>(
        &self,
        id: String,
        listener: L,
        num_iters: u8,
    ) -> (startup: NotificationSyncStartup<C, L>)
        ensures
            cloned(self.inner, startup.client),
            startup.setup.is_for(id@, NotificationSyncMode::RunFixedIterations(num_iters)),
            startup.setup.config.id == id,
            startup.setup.config.caching,
            startup.setup.config.to_device.enabled == Some(true),
            startup.setup.config.to_device.since is None,
            startup.setup.config.e2ee.enabled == Some(true),
            startup.setup.mode == NotificationSyncMode::RunFixedIterations(num_iters),
            startup.listener == listener,
    {
        self.notification_sync(id, listener, NotificationSyncMode::RunFixedIterations(num_iters))
    }
}

/// What a stream gives whoever polls it, over the moments of a run.
pub open spec fn items<E, C>(moments: Seq<Moment<E, C>>) -> Seq<Option<Result<(), Error<E, C>>>>
    decreases moments.len(),
{
    if moments.len() == 0 {
        Seq::empty()
    } else {
        let before = items(moments.drop_last());
        match moments.last().step {
            SyncStep::YieldUpdate => before.push(Some(Ok(()))),
            SyncStep::Fail(error) => before.push(Some(Err(error))),
            SyncStep::End => before.push(None),
            _ => before,
        }
    }
}

/// Whether a stream is over when it gives this.
pub open spec fn is_final<E, C>(item: Option<Result<(), Error<E, C>>>) -> bool {
    !(item matches Some(item) && item is Ok)
}

/// Whether these are the steps of a loop on behalf of this listener, and these the
/// items that it has taken from its stream between them. It only takes an item when
/// its step is to poll.
pub open spec fn is_listening<L, E, C>(
    listener: L,
    steps: Seq<ListenerStep<L, E, C>>,
    taken: Seq<Option<Result<(), Error<E, C>>>>,
) -> bool {
    &&& steps.len() == taken.len() + 1
    &&& steps[0] == ListenerStep::<L, E, C>::Poll(ListenerLoop { listener })
    &&& forall|i: int|
        #![trigger steps[i], taken[i]]
        0 <= i < taken.len() ==> steps[i] is Poll && steps[i + 1] == step_after_item(
            listener,
            taken[i],
        )
}

/// How often the listener is told that the loop has terminated, over these steps.
pub open spec fn times_told<L, E, C>(steps: Seq<ListenerStep<L, E, C>>) -> nat {
    notification_runs::count(steps, |step: ListenerStep<L, E, C>| step is Terminated)
}

/// Every step of a loop is the listener's, and terminates exactly if the item before
/// it was final.
proof fn steps_follow_items<L, E, C>(
    listener: L,
    steps: Seq<ListenerStep<L, E, C>>,
    taken: Seq<Option<Result<(), Error<E, C>>>>,
    i: int,
)
    requires
        is_listening(listener, steps, taken),
        0 <= i < steps.len(),
    ensures
        match steps[i] {
            ListenerStep::Poll(listening) => listening.listener == listener,
            ListenerStep::Terminated(termination) => termination.listener == listener,
        },
        steps[i] is Terminated <==> i > 0 && is_final(taken[i - 1]),
{
    if i > 0 {
        assert(steps[i - 1] is Poll && steps[i - 1 + 1] == step_after_item(
            listener,
            taken[i - 1],
        ));
    }
}

/// After a loop has terminated it takes no further item.
pub proof fn termination_is_last<L, E, C>(
    listener: L,
    steps: Seq<ListenerStep<L, E, C>>,
    taken: Seq<Option<Result<(), Error<E, C>>>>,
    i: int,
)
    requires
        is_listening(listener, steps, taken),
        0 <= i < steps.len(),
        steps[i] is Terminated,
    ensures
        i == taken.len(),
{
    if i < taken.len() {
        assert(steps[i] is Poll && steps[i + 1] == step_after_item(listener, taken[i]));
    }
}

/// As long as a loop only polls, the listener has not been told.
proof fn polling_tells_nobody<L, E, C>(steps: Seq<ListenerStep<L, E, C>>)
    requires
        forall|i: int| 0 <= i < steps.len() ==> (#[trigger] steps[i]) is Poll,
    ensures
        times_told(steps) == 0,
    decreases steps.len(),
{
    if steps.len() > 0 {
        assert(steps[steps.len() - 1] is Poll);
        polling_tells_nobody(steps.drop_last());
    }
}

/// The listener is told exactly once if the last item taken was the end or an error,
/// after all items before it, each of them an update; and it has not been told if
/// only updates were taken.
pub proof fn listener_is_told_once<L, E, C>(
    listener: L,
    steps: Seq<ListenerStep<L, E, C>>,
    taken: Seq<Option<Result<(), Error<E, C>>>>,
)
    requires
        is_listening(listener, steps, taken),
    ensures
        times_told(steps) == if taken.len() > 0 && is_final(taken.last()) {
            1nat
        } else {
            0
        },
        forall|i: int| 0 <= i < taken.len() - 1 ==> !is_final(#[trigger] taken[i]),
        steps.last() matches ListenerStep::Terminated(termination) ==> termination.listener
            == listener,
{
    assert forall|i: int| 0 <= i < taken.len() implies (#[trigger] steps[i]) is Poll by {
        assert(steps[i] is Poll && steps[i + 1] == step_after_item(listener, taken[i]));
    }
    assert forall|i: int| 0 <= i < taken.len() - 1 implies !is_final(#[trigger] taken[i]) by {
        steps_follow_items(listener, steps, taken, i + 1);
    }
    polling_tells_nobody(steps.drop_last());
    steps_follow_items(listener, steps, taken, taken.len() as int);
}

/// A loop that has been left to run, on a stream that gives these items, has told
/// its listener exactly once if one of them is the end or an error, and not at all
/// if they are all updates. It has taken the items up to the first that is final,
/// and no other.
pub proof fn listener_is_told_iff_stream_is_over<L, E, C>(
    listener: L,
    steps: Seq<ListenerStep<L, E, C>>,
    taken: Seq<Option<Result<(), Error<E, C>>>>,
    given: Seq<Option<Result<(), Error<E, C>>>>,
)
    requires
        is_listening(listener, steps, taken),
        // It takes the items in the order in which they are given.
        taken.is_prefix_of(given),
        // It has been left to run: it has terminated, or there is nothing to take.
        steps.last() is Terminated || taken == given,
    ensures
        times_told(steps) == if exists|i: int| 0 <= i < given.len() && is_final(#[trigger] given[i]) {
            1nat
        } else {
            0
        },
        forall|i: int| 0 <= i < taken.len() - 1 ==> !is_final(#[trigger] taken[i]),
        taken.len() == given.len() || is_final(taken.last()),
{
    listener_is_told_once(listener, steps, taken);
    steps_follow_items(listener, steps, taken, taken.len() as int);
    let n = taken.len() as int;
    if n > 0 && is_final(taken.last()) {
        assert(given[n - 1] == taken[n - 1]);
    } else {
        assert(taken == given);
        assert forall|i: int| 0 <= i < given.len() implies !is_final(#[trigger] given[i]) by {
            if i == n - 1 {
                assert(taken.last() == given[i]);
            } else {
                assert(!is_final(taken[i]));
            }
        }
    }
}

/// What a run of a stream gives is final only where the run is over, and last.
proof fn items_of_run<E, C>(
    supply: Seq<Option<nat>>,
    moments: Seq<Moment<E, C>>,
    events: Seq<SyncEvent<E, C>>,
)
    requires
        notification_runs::is_run(supply, moments, events),
    ensures
        ({
            let given = items(moments);
            let over = moments.last().step is Fail || moments.last().step is End;
            &&& forall|i: int| 0 <= i < given.len() - 1 ==> !is_final(#[trigger] given[i])
            &&& over <==> given.len() > 0 && is_final(given.last())
        }),
    decreases events.len(),
{
    reveal_with_fuel(items, 2);
    if events.len() > 0 {
        notification_runs::shorter_run(supply, moments, events);
        items_of_run(supply.drop_last(), moments.drop_last(), events.drop_last());
        let before = items(moments.drop_last());
        let given = items(moments);
        assert forall|i: int| 0 <= i < given.len() - 1 implies !is_final(#[trigger] given[i]) by {
            if i < before.len() - 1 {
                assert(!is_final(before[i]));
            } else if i < before.len() {
                assert(before.last() == given[i]);
            }
        }
    }
}

/// A loop that has been left to run on a stream takes everything that the stream
/// gives, and has told its listener exactly once if the stream has ended or failed,
/// and not at all while the stream goes on.
pub proof fn listener_is_told_of_the_end<L, E, C>(
    listener: L,
    steps: Seq<ListenerStep<L, E, C>>,
    taken: Seq<Option<Result<(), Error<E, C>>>>,
    supply: Seq<Option<nat>>,
    moments: Seq<Moment<E, C>>,
    events: Seq<SyncEvent<E, C>>,
)
    requires
        notification_runs::is_run(supply, moments, events),
        is_listening(listener, steps, taken),
        taken.is_prefix_of(items(moments)),
        steps.last() is Terminated || taken == items(moments),
    ensures
        times_told(steps) == if moments.last().step is Fail || moments.last().step is End {
            1nat
        } else {
            0
        },
        taken == items(moments),
{
    let given = items(moments);
    items_of_run(supply, moments, events);
    listener_is_told_iff_stream_is_over(listener, steps, taken, given);
    if given.len() > 0 && is_final(given.last()) {
        assert(is_final(given[given.len() - 1]));
    }
    let n = taken.len() as int;
    if n < given.len() {
        steps_follow_items(listener, steps, taken, n);
        assert(given[n - 1] == taken[n - 1]);
    }
    assert(taken =~= given);
}

} // verus!
