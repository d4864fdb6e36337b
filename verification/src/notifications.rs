//! Notification API.
//!
//! A stream of updates for whoever wants to show notifications, be it the
//! application itself or a dedicated notification process.
//!
//! Underneath is a sliding sync without lists, with the encryption and to-device
//! extensions switched on: that is enough to keep the encryption keys up to date
//! and so to decrypt the messages that are notified. As several processes may
//! share one encryption store, each iteration takes the store's cross-process
//! lock and gives it back.
use crate::sliding_sync::{E2EEConfig, ToDeviceConfig, UpdateSummary};
use vstd::prelude::*;
use vstd::string::*;

verus! {

/// How long a stream goes on.
#[derive(Clone, Copy, Debug, PartialEq, Eq, Structural)]
pub enum NotificationSyncMode {
    /// It ends after this many iterations.
    RunFixedIterations(u8),
    /// It goes on until it is stopped or fails.
    NeverStop,
}

impl NotificationSyncMode {
    /// How many iterations this allows; `None` is no limit.
    pub open spec fn iterations(self) -> Option<nat> {
        match self {
            NotificationSyncMode::RunFixedIterations(iterations) => Some(iterations as nat),
            NotificationSyncMode::NeverStop => None,
        }
    }
}

/// The limit that goes with waiting for the store's lock.
pub const SPIN_LOCK_LIMIT: u32 = 60000;

/// An error of the client. `E` holds the errors that are only passed on.
#[derive(Debug, PartialEq, Eq)]
pub enum SdkError<E> {
    /// The encryption store is not in the state that the operation needs; so the
    /// client answers when a cross-process lock is set a second time.
    BadCryptoStoreState,
    Other(E),
}

/// An error of the encryption store.
#[derive(Debug, PartialEq, Eq)]
pub struct CryptoStoreError<C>(pub C);

/// An error of an operation on the store's cross-process lock.
#[derive(Debug, PartialEq, Eq)]
pub enum LockError<E, C> {
    Sdk(SdkError<E>),
    CryptoStore(CryptoStoreError<C>),
}

/// Errors for the [`NotificationSync`].
#[derive(Debug, PartialEq, Eq)]
pub enum Error<E, C> {
    SlidingSync(SdkError<E>),
    AuthenticationRequired,
    CryptoStore(CryptoStoreError<C>),
    ReloadCryptoStoreError,
    ClientError(SdkError<E>),
}

impl<E, C> From<SdkError<E>> for Error<E, C> {
    fn from(error: SdkError<E>) -> (r: Self) {
        Error::SlidingSync(error)
    }
}

impl<E, C> vstd::std_specs::convert::FromSpecImpl<SdkError<E>> for Error<E, C> {
    open spec fn obeys_from_spec() -> bool {
        true
    }

    open spec fn from_spec(error: SdkError<E>) -> Self {
        Error::SlidingSync(error)
    }
}

impl<E, C> From<CryptoStoreError<C>> for Error<E, C> {
    fn from(error: CryptoStoreError<C>) -> (r: Self) {
        Error::CryptoStore(error)
    }
}

impl<E, C> vstd::std_specs::convert::FromSpecImpl<CryptoStoreError<C>> for Error<E, C> {
    open spec fn obeys_from_spec() -> bool {
        true
    }

    open spec fn from_spec(error: CryptoStoreError<C>) -> Self {
        Error::CryptoStore(error)
    }
}

impl<E, C> From<LockError<E, C>> for Error<E, C> {
    fn from(error: LockError<E, C>) -> (r: Self) {
        match error {
            LockError::Sdk(error) => Error::from(error),
            LockError::CryptoStore(error) => Error::from(error),
        }
    }
}

impl<E, C> vstd::std_specs::convert::FromSpecImpl<LockError<E, C>> for Error<E, C> {
    open spec fn obeys_from_spec() -> bool {
        true
    }

    open spec fn from_spec(error: LockError<E, C>) -> Self {
        match error {
            LockError::Sdk(error) => Error::SlidingSync(error),
            LockError::CryptoStore(error) => Error::CryptoStore(error),
        }
    }
}

/// The message for an error, given the message of the error that it wraps.
pub open spec fn message_of<E, C>(error: Error<E, C>, inner: Seq<char>) -> Seq<char> {
    match error {
        Error::SlidingSync(_) => "Something wrong happened in sliding sync: "@ + inner,
        Error::AuthenticationRequired => "The client was not authenticated"@,
        Error::CryptoStore(_) => inner,
        Error::ReloadCryptoStoreError => "The crypto store state couldn't be reloaded"@,
        Error::ClientError(_) => inner,
    }
}

impl<E, C> Error<E, C> {
    /// The error's message. `inner` is the message of the wrapped error, for the
    /// errors that wrap one.
    pub fn message(&self, inner: &str) -> (message: String)
        ensures
            message@ == message_of(*self, inner@),
            message@ == match *self {
                Error::SlidingSync(_) => "Something wrong happened in sliding sync: "@ + inner@,
                Error::AuthenticationRequired => "The client was not authenticated"@,
                Error::CryptoStore(_) => inner@,
                Error::ReloadCryptoStoreError => "The crypto store state couldn't be reloaded"@,
                Error::ClientError(_) => inner@,
            },
    {
        match self {
            Error::SlidingSync(_) => {
                let mut message = "Something wrong happened in sliding sync: ".to_owned();
                message.append(inner);
                message
            },
            Error::AuthenticationRequired => "The client was not authenticated".to_owned(),
            Error::CryptoStore(_) => inner.to_owned(),
            Error::ReloadCryptoStoreError => {
                "The crypto store state couldn't be reloaded".to_owned()
            },
            Error::ClientError(_) => inner.to_owned(),
        }
    }
}

/// What the sliding sync under a [`NotificationSync`] is built with. It has no
/// lists.
#[derive(Debug)]
pub struct SlidingSyncConfig {
    /// The identifier of the sliding sync.
    pub id: String,
    /// Whether its state is kept in the store.
    pub caching: bool,
    pub to_device: ToDeviceConfig,
    pub e2ee: E2EEConfig,
}

/// A [`NotificationSync`] in the making: the sliding sync is to be built next.
#[derive(Debug)]
pub struct NotificationSyncSetup {
    pub config: SlidingSyncConfig,
    pub mode: NotificationSyncMode,
}

/// A [`NotificationSync`] in the making: the store's cross-process lock is to be
/// enabled next, with the given value.
#[derive(Debug)]
pub struct StoreLockSetup {
    pub lock_value: String,
    pub mode: NotificationSyncMode,
}

/// What comes of building the sliding sync: on to the lock, unless that failed.
pub open spec fn built_outcome<E, C>(built: Result<(), SdkError<E>>) -> Result<(), Error<E, C>> {
    match built {
        Ok(()) => Ok(()),
        Err(error) => Err(Error::SlidingSync(error)),
    }
}

/// What comes of enabling the store's lock. A lock that had been set to something
/// before is sufficient as long as it uniquely identifies the process; any other
/// error is fatal.
pub open spec fn lock_outcome<E, C>(enabled: Result<(), SdkError<E>>) -> Result<(), Error<E, C>> {
    match enabled {
        Ok(()) => Ok(()),
        Err(SdkError::BadCryptoStoreState) => Ok(()),
        Err(SdkError::Other(error)) => Err(Error::ClientError(SdkError::Other(error))),
    }
}

impl NotificationSyncSetup {
    /// Whether this makes a `NotificationSync` of this identifier and mode: with a
    /// sliding sync that is kept in the store and has both extensions switched on.
    pub open spec fn is_for(self, id: Seq<char>, mode: NotificationSyncMode) -> bool {
        &&& self.config.id@ == id
        &&& self.config.caching
        &&& self.config.to_device.enabled == Some(true)
        &&& self.config.to_device.since is None
        &&& self.config.e2ee.enabled == Some(true)
        &&& self.mode == mode
    }

    /// Goes on after the sliding sync has been built, or could not be.
    pub fn sliding_sync_built<E, C>(self, built: Result<(), SdkError<E>>) -> (next: Result<
        StoreLockSetup,
        Error<E, C>,
    >)
        ensures
            match built_outcome::<E, C>(built) {
                Ok(()) => {
                    &&& next matches Ok(setup)
                    &&& setup.lock_value@ == self.config.id@
                    &&& setup.mode == self.mode
                },
                Err(error) => next == Err::<StoreLockSetup, Error<E, C>>(error),
            },
            match built {
                Ok(()) => next == Ok::<StoreLockSetup, Error<E, C>>(
                    (StoreLockSetup { lock_value: self.config.id, mode: self.mode }),
                ),
                Err(error) => next == Err::<StoreLockSetup, Error<E, C>>(
                    Error::SlidingSync(error),
                ),
            },
    {
        match built {
            Ok(()) => Ok(StoreLockSetup { lock_value: self.config.id, mode: self.mode }),
            Err(error) => Err(Error::from(error)),
        }
    }
}

impl StoreLockSetup {
    /// Goes on after the store's lock has been enabled, or could not be.
    pub fn store_lock_enabled<E, C>(self, enabled: Result<(), SdkError<E>>) -> (next: Result<
        NotificationSync,
        Error<E, C>,
    >)
        ensures
            match lock_outcome::<E, C>(enabled) {
                Ok(()) => next matches Ok(sync) && sync@ == self.mode.iterations(),
                Err(error) => next == Err::<NotificationSync, Error<E, C>>(error),
            },
            match (enabled, self.mode) {
                (Err(SdkError::Other(error)), _) => next == Err::<NotificationSync, Error<E, C>>(
                    Error::ClientError(SdkError::Other(error)),
                ),
                (_, NotificationSyncMode::RunFixedIterations(iterations)) => {
                    next matches Ok(sync) && sync@ == Some(iterations as nat)
                },
                (_, NotificationSyncMode::NeverStop) => next matches Ok(sync) && sync@ is None,
            },
    {
        match enabled {
            Ok(()) | Err(SdkError::BadCryptoStoreState) => {
                let num_attempts: i32 = match self.mode {
                    NotificationSyncMode::RunFixedIterations(iterations) => iterations as i32,
                    NotificationSyncMode::NeverStop => -1,
                };
                Ok(NotificationSync { num_attempts })
            },
            Err(error) => Err(Error::ClientError(error)),
        }
    }
}

/// A source of streams of notification updates. Its streams share one supply of
/// iterations; its view is what is left of it, `None` being no limit.
#[derive(Debug)]
pub struct NotificationSync {
    num_attempts: i32,
}

impl View for NotificationSync {
    type V = Option<nat>;

    closed spec fn view(&self) -> Option<nat> {
        if self.num_attempts < 0 {
            None
        } else {
            Some(self.num_attempts as nat)
        }
    }
}

/// What is to be done once the store's lock has been given back.
#[derive(Debug, PartialEq, Eq)]
pub enum AfterUnlock<E> {
    /// Yield the update and go on.
    Continue,
    /// Yield the error and end.
    Fail(SdkError<E>),
    /// End.
    End,
}

/// What a stream needs done next.
#[derive(Debug, PartialEq, Eq)]
pub enum SyncStep<E, C> {
    /// Try to take the store's lock, without waiting for it; go on with
    /// [`NotificationSync::store_lock_tried`].
    TryLockStoreOnce,
    /// Take the store's lock, waiting for it up to the limit; go on with
    /// [`NotificationSync::store_locked`].
    SpinLockStore { limit: Option<u32> },
    /// Wait for the next update of the sliding sync; go on with
    /// [`NotificationSync::update_received`].
    NextUpdate { must_unlock: bool },
    /// Give the store's lock back; go on with [`NotificationSync::store_unlocked`].
    UnlockStore(AfterUnlock<E>),
    /// Yield that there was an update; go on with [`NotificationSync::sync`] when
    /// the stream is polled again.
    YieldUpdate,
    /// Yield the error. The stream is over then.
    Fail(Error<E, C>),
    /// The stream is over.
    End,
}

/// The step that an iteration begins with, given what is left of the iterations.
pub open spec fn step_at_start<E, C>(left: Option<nat>) -> SyncStep<E, C> {
    match left {
        None => SyncStep::TryLockStoreOnce,
        Some(left) => if left == 0 {
            SyncStep::End
        } else {
            SyncStep::SpinLockStore { limit: Some(SPIN_LOCK_LIMIT) }
        },
    }
}

/// What is left of the iterations once one has begun.
pub open spec fn left_after_start(left: Option<nat>) -> Option<nat> {
    match left {
        None => None,
        Some(left) => if left == 0 {
            Some(0)
        } else {
            Some((left - 1) as nat)
        },
    }
}

/// The step after a try to take the lock: without the lock the stream goes on too,
/// but has nothing to give back.
pub open spec fn step_after_try_lock<E, C>(locked: Result<bool, LockError<E, C>>) -> SyncStep<
    E,
    C,
> {
    match locked {
        Ok(locked) => SyncStep::NextUpdate { must_unlock: locked },
        Err(LockError::Sdk(error)) => SyncStep::Fail(Error::SlidingSync(error)),
        Err(LockError::CryptoStore(error)) => SyncStep::Fail(Error::CryptoStore(error)),
    }
}

/// The step after the lock has been waited for.
pub open spec fn step_after_lock<E, C>(locked: Result<(), LockError<E, C>>) -> SyncStep<E, C> {
    match locked {
        Ok(()) => SyncStep::NextUpdate { must_unlock: true },
        Err(LockError::Sdk(error)) => SyncStep::Fail(Error::SlidingSync(error)),
        Err(LockError::CryptoStore(error)) => SyncStep::Fail(Error::CryptoStore(error)),
    }
}

/// What an update means for the stream.
pub open spec fn meaning_of_update<E>(
    update: Option<Result<UpdateSummary, SdkError<E>>>,
) -> AfterUnlock<E> {
    match update {
        Some(Ok(_)) => AfterUnlock::Continue,
        Some(Err(error)) => AfterUnlock::Fail(error),
        None => AfterUnlock::End,
    }
}

/// The step that acts on an update, with no lock left to give back.
pub open spec fn step_without_lock<E, C>(after: AfterUnlock<E>) -> SyncStep<E, C> {
    match after {
        AfterUnlock::Continue => SyncStep::YieldUpdate,
        AfterUnlock::Fail(error) => SyncStep::Fail(Error::SlidingSync(error)),
        AfterUnlock::End => SyncStep::End,
    }
}

/// The step after an update.
pub open spec fn step_after_update<E, C>(
    must_unlock: bool,
    update: Option<Result<UpdateSummary, SdkError<E>>>,
) -> SyncStep<E, C> {
    if must_unlock {
        SyncStep::UnlockStore(meaning_of_update(update))
    } else {
        step_without_lock(meaning_of_update(update))
    }
}

/// The step after the lock has been given back.
pub open spec fn step_after_unlock<E, C>(
    after: AfterUnlock<E>,
    unlocked: Result<(), LockError<E, C>>,
) -> SyncStep<E, C> {
    match unlocked {
        Ok(()) => step_without_lock(after),
        Err(LockError::Sdk(error)) => SyncStep::Fail(Error::SlidingSync(error)),
        Err(LockError::CryptoStore(error)) => SyncStep::Fail(Error::CryptoStore(error)),
    }
}

/// Which parts of an update are not empty though they should be: the sliding sync
/// under a [`NotificationSync`] asks for neither lists nor rooms.
#[derive(Clone, Copy, Debug, PartialEq, Eq, Structural)]
pub struct UnexpectedContent {
    pub lists: bool,
    pub rooms: bool,
}

impl NotificationSync {
    #[verifier::type_invariant]
    spec fn supply_is_counted(self) -> bool {
        -1 <= self.num_attempts <= 255
    }

    /// Begins to make a `NotificationSync`.
    ///
    /// The `id` becomes the identifier of the sliding sync underneath, and the
    /// value of the store's cross-process lock. It must not be the name of another
    /// sliding sync.
    pub fn new(id: String, mode: NotificationSyncMode) -> (setup: NotificationSyncSetup)
        ensures
            setup.is_for(id@, mode),
            setup.config.id == id,
            setup.config.caching,
            setup.config.to_device.enabled == Some(true),
            setup.config.to_device.since is None,
            setup.config.e2ee.enabled == Some(true),
            setup.mode == mode,
    {
        NotificationSyncSetup {
            config: SlidingSyncConfig {
                id,
                caching: true,
                to_device: ToDeviceConfig { enabled: Some(true), since: None },
                e2ee: E2EEConfig { enabled: Some(true) },
            },
            mode,
        }
    }

    /// Begins an iteration of a stream: called when the stream is first polled, and
    /// when it is polled again after [`SyncStep::YieldUpdate`].
    /// [`crate::notification_runs::advance`] leads from one step to the next.
    pub fn sync<E, C>(&mut self) -> (next: SyncStep<E, C>)
        ensures
            next == step_at_start::<E, C>(old(self)@),
            final(self)@ == left_after_start(old(self)@),
            match old(self)@ {
                None => next == SyncStep::<E, C>::TryLockStoreOnce && final(self)@ is None,
                Some(left) => if left == 0 {
                    next == SyncStep::<E, C>::End && final(self)@ == Some(0nat)
                } else {
                    next == (SyncStep::<E, C>::SpinLockStore { limit: Some(60000u32) })
                        && final(self)@ == Some((left - 1) as nat)
                },
            },
    {
        proof {
            use_type_invariant(&*self);
        }
        let num_attempts: i32 = self.num_attempts;
        if num_attempts == 0 {
            // If the previous iteration was the last one, stop now.
            return SyncStep::End;
        }
        if num_attempts > 0 {
            // If there is a finite number of iterations, this is one less.
            self.num_attempts = num_attempts - 1;
        }
        if num_attempts == -1 {
            SyncStep::TryLockStoreOnce
        } else {
            SyncStep::SpinLockStore { limit: Some(SPIN_LOCK_LIMIT) }
        }
    }

    /// Goes on after [`SyncStep::TryLockStoreOnce`].
    pub fn store_lock_tried<E, C>(locked: Result<bool, LockError<E, C>>) -> (next: SyncStep<E, C>)
        ensures
            next == step_after_try_lock(locked),
            next == match locked {
                Ok(locked) => SyncStep::<E, C>::NextUpdate { must_unlock: locked },
                Err(LockError::Sdk(error)) => SyncStep::Fail(Error::SlidingSync(error)),
                Err(LockError::CryptoStore(error)) => SyncStep::Fail(Error::CryptoStore(error)),
            },
    {
        match locked {
            Ok(locked) => SyncStep::NextUpdate { must_unlock: locked },
            Err(error) => SyncStep::Fail(Error::from(error)),
        }
    }

    /// Goes on after [`SyncStep::SpinLockStore`].
    pub fn store_locked<E, C>(locked: Result<(), LockError<E, C>>) -> (next: SyncStep<E, C>)
        ensures
            next == step_after_lock(locked),
            next == match locked {
                Ok(()) => SyncStep::<E, C>::NextUpdate { must_unlock: true },
                Err(LockError::Sdk(error)) => SyncStep::Fail(Error::SlidingSync(error)),
                Err(LockError::CryptoStore(error)) => SyncStep::Fail(Error::CryptoStore(error)),
            },
    {
        match locked {
            Ok(()) => SyncStep::NextUpdate { must_unlock: true },
            Err(error) => SyncStep::Fail(Error::from(error)),
        }
    }

    /// Goes on after [`SyncStep::NextUpdate`].
    pub fn update_received<E, C>(
        must_unlock: bool,
        update: Option<Result<UpdateSummary, SdkError<E>>>,
    ) -> (next: SyncStep<E, C>)
        ensures
            next == step_after_update::<E, C>(must_unlock, update),
            next == match (must_unlock, update) {
                (true, Some(Ok(_))) => SyncStep::<E, C>::UnlockStore(AfterUnlock::Continue),
                (true, Some(Err(error))) => SyncStep::UnlockStore(AfterUnlock::Fail(error)),
                (true, None) => SyncStep::UnlockStore(AfterUnlock::End),
                (false, Some(Ok(_))) => SyncStep::YieldUpdate,
                (false, Some(Err(error))) => SyncStep::Fail(Error::SlidingSync(error)),
                (false, None) => SyncStep::End,
            },
    {
        let after = match update {
            Some(Ok(_)) => AfterUnlock::Continue,
            Some(Err(error)) => AfterUnlock::Fail(error),
            None => AfterUnlock::End,
        };
        if must_unlock {
            SyncStep::UnlockStore(after)
        } else {
            Self::lock_given_back(after)
        }
    }

    /// Goes on after [`SyncStep::UnlockStore`].
    pub fn store_unlocked<E, C>(
        after: AfterUnlock<E>,
        unlocked: Result<(), LockError<E, C>>,
    ) -> (next: SyncStep<E, C>)
        ensures
            next == step_after_unlock(after, unlocked),
            next == match (unlocked, after) {
                (Err(LockError::Sdk(error)), _) => SyncStep::<E, C>::Fail(
                    Error::SlidingSync(error),
                ),
                (Err(LockError::CryptoStore(error)), _) => SyncStep::Fail(
                    Error::CryptoStore(error),
                ),
                (Ok(()), AfterUnlock::Continue) => SyncStep::YieldUpdate,
                (Ok(()), AfterUnlock::Fail(error)) => SyncStep::Fail(Error::SlidingSync(error)),
                (Ok(()), AfterUnlock::End) => SyncStep::End,
            },
    {
        match unlocked {
            Ok(()) => Self::lock_given_back(after),
            Err(error) => SyncStep::Fail(Error::from(error)),
        }
    }

    fn lock_given_back<E, C>(after: AfterUnlock<E>) -> (next: SyncStep<E, C>)
        ensures
            next == step_without_lock::<E, C>(after),
    {
        match after {
            AfterUnlock::Continue => SyncStep::YieldUpdate,
            AfterUnlock::Fail(error) => SyncStep::Fail(Error::from(error)),
            AfterUnlock::End => SyncStep::End,
        }
    }

    /// What is odd about an update and worth a warning.
    pub fn unexpected_content(update: &UpdateSummary) -> (unexpected: UnexpectedContent)
        ensures
            unexpected.lists == (update.lists@.len() > 0),
            unexpected.rooms == (update.rooms@.len() > 0),
    {
        UnexpectedContent { lists: update.lists.len() > 0, rooms: update.rooms.len() > 0 }
    }

    /// Completes a stop, given what came of stopping the sliding sync underneath.
    ///
    /// A stopped sliding sync has no next update, so a stream that waits for one
    /// gives the store's lock back and ends.
    pub fn stop<E, C>(&self, stopped: Result<(), SdkError<E>>) -> (outcome: Result<
        (),
        Error<E, C>,
    >)
        ensures
            match stopped {
                Ok(()) => outcome is Ok,
                Err(error) => outcome == Err::<(), Error<E, C>>(Error::SlidingSync(error)),
            },
    {
        match stopped {
            Ok(()) => Ok(()),
            Err(error) => Err(Error::from(error)),
        }
    }
}

/// A `NotificationSync` comes about exactly if the sliding sync was built and the
/// store's lock is set, be it since now or since before. It fails with what failed
/// first.
pub proof fn setup_needs_sliding_sync_and_lock<E, C>(
    built: Result<(), SdkError<E>>,
    enabled: Result<(), SdkError<E>>,
)
    ensures
        (match built_outcome::<E, C>(built) {
            Ok(()) => lock_outcome::<E, C>(enabled),
            failed => failed,
        }) == match (built, enabled) {
            (Err(error), _) => Err(Error::<E, C>::SlidingSync(error)),
            (Ok(()), Err(SdkError::Other(error))) => Err(
                Error::<E, C>::ClientError(SdkError::Other(error)),
            ),
            (Ok(()), _) => Ok(()),
        },
{
}

} // verus!
