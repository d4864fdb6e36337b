use matrix_sync::notifications::{
    AfterUnlock, CryptoStoreError, Error, LockError, NotificationSync, NotificationSyncMode,
    SdkError, SyncStep,
};
use matrix_sync::sliding_sync::UpdateSummary;

type Step = SyncStep<&'static str, u8>;
type Lock<T> = Result<T, LockError<&'static str, u8>>;
type Failure = Error<&'static str, u8>;
type Update = Option<Result<UpdateSummary, SdkError<&'static str>>>;

fn notification_sync(mode: NotificationSyncMode) -> NotificationSync {
    let setup = NotificationSync::new("id".to_owned(), mode);
    let setup = setup.sliding_sync_built::<&str, u8>(Ok(())).unwrap();
    setup.store_lock_enabled::<&str, u8>(Ok(())).unwrap()
}

fn empty_update() -> Update {
    Some(Ok(UpdateSummary { lists: vec![], rooms: vec![] }))
}

/// Follows a stream in which nothing goes wrong; gives the number of updates it
/// yields, stopping at `most`, and how often the lock was taken and given back.
fn follow(sync: &mut NotificationSync, most: usize, lock_is_free: bool) -> (usize, usize, usize) {
    let (mut updates, mut taken, mut given_back) = (0, 0, 0);
    let mut step: Step = sync.sync();
    loop {
        step = match step {
            SyncStep::TryLockStoreOnce => {
                if lock_is_free {
                    taken += 1;
                }
                NotificationSync::store_lock_tried(Ok(lock_is_free))
            }
            SyncStep::SpinLockStore { limit } => {
                assert_eq!(limit, Some(60000));
                taken += 1;
                NotificationSync::store_locked(Ok(()))
            }
            SyncStep::NextUpdate { must_unlock } => {
                NotificationSync::update_received(must_unlock, empty_update())
            }
            SyncStep::UnlockStore(after) => {
                given_back += 1;
                NotificationSync::store_unlocked(after, Ok(()))
            }
            SyncStep::YieldUpdate => {
                updates += 1;
                if updates == most {
                    return (updates, taken, given_back);
                }
                sync.sync()
            }
            SyncStep::Fail(error) => panic!("unexpected {:?}", error),
            SyncStep::End => return (updates, taken, given_back),
        }
    }
}

#[test]
fn setup_asks_for_both_extensions() {
    let setup = NotificationSync::new("id".to_owned(), NotificationSyncMode::NeverStop);
    assert_eq!(setup.config.id, "id");
    assert!(setup.config.caching);
    assert_eq!(setup.config.to_device.enabled, Some(true));
    assert_eq!(setup.config.to_device.since, None);
    assert_eq!(setup.config.e2ee.enabled, Some(true));
    let setup = setup.sliding_sync_built::<&str, u8>(Ok(())).unwrap();
    assert_eq!(setup.lock_value, "id");
    assert_eq!(setup.mode, NotificationSyncMode::NeverStop);
}

#[test]
fn setup_fails_without_sliding_sync() {
    let setup = NotificationSync::new("id".to_owned(), NotificationSyncMode::NeverStop);
    let failure = setup.sliding_sync_built::<&str, u8>(Err(SdkError::Other("no"))).unwrap_err();
    assert_eq!(failure, Failure::SlidingSync(SdkError::Other("no")));
    let setup = NotificationSync::new("id".to_owned(), NotificationSyncMode::NeverStop);
    let failure =
        setup.sliding_sync_built::<&str, u8>(Err(SdkError::BadCryptoStoreState)).unwrap_err();
    assert_eq!(failure, Failure::SlidingSync(SdkError::BadCryptoStoreState));
}

#[test]
fn setup_is_content_with_an_earlier_lock() {
    let setup = NotificationSync::new("id".to_owned(), NotificationSyncMode::RunFixedIterations(1));
    let setup = setup.sliding_sync_built::<&str, u8>(Ok(())).unwrap();
    let mut sync =
        setup.store_lock_enabled::<&str, u8>(Err(SdkError::BadCryptoStoreState)).unwrap();
    assert_eq!(follow(&mut sync, usize::MAX, true).0, 1);
}

#[test]
fn setup_fails_without_lock() {
    let setup = NotificationSync::new("id".to_owned(), NotificationSyncMode::NeverStop);
    let setup = setup.sliding_sync_built::<&str, u8>(Ok(())).unwrap();
    let failure = setup.store_lock_enabled::<&str, u8>(Err(SdkError::Other("no"))).unwrap_err();
    assert_eq!(failure, Failure::ClientError(SdkError::Other("no")));
}

#[test]
fn fixed_iterations_yield_that_many_updates() {
    for iterations in [0u8, 1, 2, 255] {
        let mode = NotificationSyncMode::RunFixedIterations(iterations);
        let n = iterations as usize;
        assert_eq!(follow(&mut notification_sync(mode), usize::MAX, true), (n, n, n));
    }
}

#[test]
fn streams_share_the_iterations() {
    let mut sync = notification_sync(NotificationSyncMode::RunFixedIterations(3));
    assert_eq!(follow(&mut sync, 2, true).0, 2);
    assert_eq!(follow(&mut sync, usize::MAX, true).0, 1);
    assert_eq!(follow(&mut sync, usize::MAX, true).0, 0);
    let step: Step = sync.sync();
    assert_eq!(step, SyncStep::End);
}

#[test]
fn unlimited_stream_goes_on() {
    let mut sync = notification_sync(NotificationSyncMode::NeverStop);
    assert_eq!(follow(&mut sync, 1000, true), (1000, 1000, 1000));
    // Without the lock it goes on too, and has nothing to give back.
    assert_eq!(follow(&mut sync, 1000, false), (1000, 0, 0));
    let step: Step = sync.sync();
    assert_eq!(step, SyncStep::TryLockStoreOnce);
}

#[test]
fn failed_lock_fails_the_stream() {
    let locked: Lock<bool> = Err(LockError::Sdk(SdkError::Other("no")));
    assert_eq!(
        NotificationSync::store_lock_tried(locked),
        SyncStep::Fail(Error::SlidingSync(SdkError::Other("no")))
    );
    let locked: Lock<()> = Err(LockError::CryptoStore(CryptoStoreError(7)));
    assert_eq!(
        NotificationSync::store_locked(locked),
        SyncStep::Fail(Error::CryptoStore(CryptoStoreError(7)))
    );
}

#[test]
fn failed_update_gives_the_lock_back_first() {
    let step: Step = NotificationSync::update_received(true, Some(Err(SdkError::Other("no"))));
    assert_eq!(step, SyncStep::UnlockStore(AfterUnlock::Fail(SdkError::Other("no"))));
    let after = || AfterUnlock::Fail(SdkError::Other("no"));
    let step: Step = NotificationSync::store_unlocked(after(), Ok(()));
    assert_eq!(step, SyncStep::Fail(Error::SlidingSync(SdkError::Other("no"))));
    // A failure to give the lock back takes precedence.
    let unlocked: Lock<()> = Err(LockError::CryptoStore(CryptoStoreError(7)));
    let step: Step = NotificationSync::store_unlocked(after(), unlocked);
    assert_eq!(step, SyncStep::Fail(Error::CryptoStore(CryptoStoreError(7))));
    let step: Step = NotificationSync::update_received(false, Some(Err(SdkError::Other("no"))));
    assert_eq!(step, SyncStep::Fail(Error::SlidingSync(SdkError::Other("no"))));
}

#[test]
fn failed_unlock_loses_the_update() {
    let unlocked: Lock<()> = Err(LockError::Sdk(SdkError::Other("no")));
    let step: Step = NotificationSync::store_unlocked(AfterUnlock::Continue, unlocked);
    assert_eq!(step, SyncStep::Fail(Error::SlidingSync(SdkError::Other("no"))));
    let step: Step = NotificationSync::store_unlocked(AfterUnlock::Continue, Ok(()));
    assert_eq!(step, SyncStep::YieldUpdate);
}

#[test]
fn stopped_stream_gives_the_lock_back_and_ends() {
    let sync = notification_sync(NotificationSyncMode::NeverStop);
    let stopped: Result<(), Failure> = sync.stop(Ok(()));
    assert_eq!(stopped, Ok(()));
    let step: Step = NotificationSync::update_received(true, None);
    assert_eq!(step, SyncStep::UnlockStore(AfterUnlock::End));
    let step: Step = NotificationSync::store_unlocked(AfterUnlock::End, Ok(()));
    assert_eq!(step, SyncStep::End);
    let step: Step = NotificationSync::update_received(false, None);
    assert_eq!(step, SyncStep::End);
}

#[test]
fn failed_stop_is_reported() {
    let sync = notification_sync(NotificationSyncMode::NeverStop);
    let stopped: Result<(), Failure> = sync.stop(Err(SdkError::Other("no")));
    assert_eq!(stopped, Err(Error::SlidingSync(SdkError::Other("no"))));
}

#[test]
fn lists_and_rooms_are_unexpected() {
    let update = UpdateSummary { lists: vec![], rooms: vec!["!r:example.org".to_owned()] };
    let unexpected = NotificationSync::unexpected_content(&update);
    assert!(!unexpected.lists);
    assert!(unexpected.rooms);
    let update = UpdateSummary { lists: vec!["all".to_owned()], rooms: vec![] };
    let unexpected = NotificationSync::unexpected_content(&update);
    assert!(unexpected.lists);
    assert!(!unexpected.rooms);
}

#[test]
fn errors_have_messages() {
    assert_eq!(
        Failure::SlidingSync(SdkError::Other("no")).message("no"),
        "Something wrong happened in sliding sync: no"
    );
    assert_eq!(Failure::AuthenticationRequired.message("x"), "The client was not authenticated");
    assert_eq!(Failure::CryptoStore(CryptoStoreError(7)).message("seven"), "seven");
    assert_eq!(
        Failure::ReloadCryptoStoreError.message("x"),
        "The crypto store state couldn't be reloaded"
    );
    assert_eq!(Failure::ClientError(SdkError::BadCryptoStoreState).message("bad"), "bad");
}
