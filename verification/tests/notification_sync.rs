use matrix_sync::notification_sync::{
    Client, ListenerLoop, ListenerStep, NotificationSync, NotificationSyncListener,
};
use matrix_sync::notifications;
use matrix_sync::notifications::{Error, NotificationSyncMode, SdkError, SyncStep};
use std::sync::atomic::{AtomicUsize, Ordering};
use std::sync::Arc;

type Failure = Error<&'static str, u8>;

#[derive(Debug, Clone)]
struct Counter {
    calls: Arc<AtomicUsize>,
}

impl NotificationSyncListener for Counter {
    fn did_terminate(&self) {
        self.calls.fetch_add(1, Ordering::SeqCst);
    }
}

fn counter() -> Counter {
    Counter { calls: Arc::new(AtomicUsize::new(0)) }
}

/// Feeds the items to the loop; gives the error it terminated with, if it did.
fn listen<L: NotificationSyncListener>(
    listening: ListenerLoop<L>,
    items: Vec<Option<Result<(), Failure>>>,
) -> Option<Option<Failure>> {
    let mut listening = listening;
    for item in items {
        match listening.streamed(item) {
            ListenerStep::Poll(same) => listening = same,
            ListenerStep::Terminated(termination) => return Some(termination.notify()),
        }
    }
    None
}

fn set_up(setup: notifications::NotificationSyncSetup) -> Result<notifications::NotificationSync, Failure> {
    setup.sliding_sync_built(Ok(()))?.store_lock_enabled(Ok(()))
}

#[test]
fn main_notification_sync_never_stops() {
    let client = Client { inner: "client".to_owned() };
    let startup = client.main_notification_sync("id".to_owned(), counter());
    assert_eq!(startup.client, "client");
    assert_eq!(startup.setup.config.id, "id");
    assert_eq!(startup.setup.mode, NotificationSyncMode::NeverStop);
    let (mut sync, _) = NotificationSync::started(startup.listener, set_up(startup.setup)).unwrap();
    let step: SyncStep<&str, u8> = sync.sync.sync();
    assert_eq!(step, SyncStep::TryLockStoreOnce);
}

#[test]
fn nse_notification_loop_runs_its_iterations() {
    let client = Client { inner: "client".to_owned() };
    let startup = client.nse_notification_loop("id".to_owned(), counter(), 1);
    assert_eq!(startup.setup.mode, NotificationSyncMode::RunFixedIterations(1));
    let (mut sync, _) = NotificationSync::started(startup.listener, set_up(startup.setup)).unwrap();
    let step: SyncStep<&str, u8> = sync.sync.sync();
    assert_eq!(step, SyncStep::SpinLockStore { limit: Some(60000) });
    let step: SyncStep<&str, u8> = sync.sync.sync();
    assert_eq!(step, SyncStep::End);
}

#[test]
fn failed_setup_starts_nothing() {
    let listener = counter();
    let failed: Result<notifications::NotificationSync, Failure> =
        Err(Error::ClientError(SdkError::Other("no")));
    let started = NotificationSync::started(listener.clone(), failed);
    assert_eq!(started.unwrap_err(), Error::ClientError(SdkError::Other("no")));
    assert_eq!(listener.calls.load(Ordering::SeqCst), 0);
}

#[test]
fn listener_is_called_once_at_the_end() {
    let listener = counter();
    let listening = NotificationSync::start(listener.clone());
    let items = vec![Some(Ok(())), Some(Ok(())), None];
    assert_eq!(listen(listening, items), Some(None));
    assert_eq!(listener.calls.load(Ordering::SeqCst), 1);
}

#[test]
fn listener_is_called_on_failure() {
    let listener = counter();
    let boxed: Box<dyn NotificationSyncListener> = Box::new(listener.clone());
    let listening = NotificationSync::start(boxed);
    let items = vec![Some(Ok(())), Some(Err(Error::SlidingSync(SdkError::Other("no")))), None];
    assert_eq!(listen(listening, items), Some(Some(Error::SlidingSync(SdkError::Other("no")))));
    assert_eq!(listener.calls.load(Ordering::SeqCst), 1);
}

#[test]
fn listener_is_not_called_while_the_stream_goes_on() {
    let listener = counter();
    let listening = NotificationSync::start(listener.clone());
    assert_eq!(listen(listening, vec![Some(Ok(())), Some(Ok(()))]), None);
    assert_eq!(listener.calls.load(Ordering::SeqCst), 0);
}

#[test]
fn failed_stop_is_only_logged() {
    let client = Client { inner: () };
    let startup = client.main_notification_sync("id".to_owned(), counter());
    let (sync, _) = NotificationSync::started(startup.listener, set_up(startup.setup)).unwrap();
    let to_log: Option<Failure> = sync.stop(Ok(()));
    assert_eq!(to_log, None);
    let to_log: Option<Failure> = sync.stop(Err(SdkError::Other("no")));
    assert_eq!(to_log, Some(Error::SlidingSync(SdkError::Other("no"))));
}
