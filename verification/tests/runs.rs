use matrix_sync::notification_runs;
use matrix_sync::notification_runs::SyncEvent;
use matrix_sync::notifications::{
    AfterUnlock, CryptoStoreError, Error, LockError, NotificationSync, NotificationSyncMode,
    SdkError, SyncStep,
};
use matrix_sync::sliding_sync::{Extensions, Response, ToDevice, UpdateSummary};
use matrix_sync::to_device::{CachedEntry, FrozenToDeviceLoop, SyncOnce, ToDeviceLoop};
use matrix_sync::to_device_runs;
use matrix_sync::to_device_runs::SyncOnceEvent;

type Step = SyncStep<&'static str, u8>;

fn notification_sync(mode: NotificationSyncMode) -> NotificationSync {
    let setup = NotificationSync::new("id".to_owned(), mode);
    let setup = setup.sliding_sync_built::<&str, u8>(Ok(())).unwrap();
    setup.store_lock_enabled::<&str, u8>(Ok(())).unwrap()
}

fn response(pos: &str, token: &str) -> Response {
    Response {
        pos: pos.to_owned(),
        extensions: Extensions { to_device: Some(ToDevice { next_batch: token.to_owned() }) },
    }
}

fn saved_loop(e2e_encryption: bool) -> ToDeviceLoop {
    ToDeviceLoop::new("c".to_owned(), e2e_encryption, Some("k".to_owned()), None)
}

/// Takes a synchronisation through its steps; gives its outcome, the names of its
/// steps, and the token that it writes.
fn synchronise(
    to_device_loop: &mut ToDeviceLoop,
    entry: fn() -> Result<CachedEntry, &'static str>,
    outgoing: Result<(), &'static str>,
    sent: fn() -> Result<Response, &'static str>,
    processed: Result<(), &'static str>,
    written: Result<(), &'static str>,
) -> (Result<(), &'static str>, Vec<&'static str>, Option<String>) {
    let mut names = vec![];
    let mut token = None;
    let mut step = to_device_loop.sync_once();
    loop {
        let (name, event) = match &step {
            SyncOnce::ReadCache { .. } => ("read", SyncOnceEvent::CacheRead(entry())),
            SyncOnce::InvalidateCache { .. } => {
                ("invalidate", SyncOnceEvent::CacheInvalidated(Err("remove")))
            }
            SyncOnce::Send { outgoing_requests, .. } => {
                let outgoing = if *outgoing_requests { Some(outgoing) } else { None };
                ("send", SyncOnceEvent::Received { outgoing, response: sent() })
            }
            SyncOnce::Handle(_) => ("lock", SyncOnceEvent::HandlingBegun),
            SyncOnce::Process(_) => ("process", SyncOnceEvent::Processed(processed)),
            SyncOnce::WriteCache { key, entry } => {
                assert_eq!(key, "k-c-to-device-loop");
                token = entry.since_token.clone();
                ("write", SyncOnceEvent::CacheWritten(written))
            }
            SyncOnce::Release(_) => ("unlock", SyncOnceEvent::HandlingEnded),
            SyncOnce::Done(outcome) => return (*outcome, names, token),
        };
        names.push(name);
        step = to_device_runs::advance(to_device_loop, step, event);
    }
}

#[test]
fn longest_synchronisation_takes_seven_steps() {
    let mut to_device_loop = saved_loop(true);
    let (outcome, names, token) = synchronise(
        &mut to_device_loop,
        || Ok(CachedEntry::Corrupted),
        Err("outgoing"),
        || Ok(response("p", "t")),
        Ok(()),
        Ok(()),
    );
    // Neither the entry that cannot be removed nor the outgoing requests matter.
    assert_eq!(outcome, Ok(()));
    assert_eq!(names, vec!["read", "invalidate", "send", "lock", "process", "write", "unlock"]);
    assert_eq!(token, Some("t".to_owned()));
    assert_eq!(to_device_loop.pos, Some("p".to_owned()));
}

#[test]
fn first_failure_is_reported() {
    let mut to_device_loop = saved_loop(false);
    let (outcome, names, _) = synchronise(
        &mut to_device_loop,
        || Err("read"),
        Ok(()),
        || Err("send"),
        Err("process"),
        Err("write"),
    );
    assert_eq!((outcome, names), (Err("read"), vec!["read"]));
    let (outcome, names, _) = synchronise(
        &mut to_device_loop,
        || Ok(CachedEntry::Missing),
        Ok(()),
        || Err("send"),
        Err("process"),
        Err("write"),
    );
    assert_eq!((outcome, names), (Err("send"), vec!["read", "send"]));
    let (outcome, names, _) = synchronise(
        &mut to_device_loop,
        || Ok(CachedEntry::Missing),
        Ok(()),
        || Ok(response("p", "t")),
        Err("process"),
        Err("write"),
    );
    assert_eq!(outcome, Err("process"));
    assert_eq!(names, vec!["read", "send", "lock", "process", "unlock"]);
    assert_eq!(to_device_loop.pos, None);
    assert_eq!(to_device_loop.since_token, None);
    let (outcome, names, _) = synchronise(
        &mut to_device_loop,
        || Ok(CachedEntry::Missing),
        Ok(()),
        || Ok(response("p", "t")),
        Ok(()),
        Err("write"),
    );
    assert_eq!(outcome, Err("write"));
    assert_eq!(names, vec!["read", "send", "lock", "process", "write", "unlock"]);
    // What was handled stays, though it could not be saved.
    assert_eq!(to_device_loop.pos, Some("p".to_owned()));
    assert_eq!(to_device_loop.since_token, Some("t".to_owned()));
}

#[test]
fn request_is_sent_with_the_saved_token() {
    let mut to_device_loop = saved_loop(true);
    let step = to_device_loop.sync_once::<&str>();
    let frozen = FrozenToDeviceLoop { since_token: Some("saved".to_owned()) };
    let event = SyncOnceEvent::CacheRead(Ok(CachedEntry::Saved(frozen)));
    match to_device_runs::advance(&mut to_device_loop, step, event) {
        SyncOnce::Send { request, outgoing_requests, .. } => {
            assert_eq!(request.extensions.to_device.since, Some("saved".to_owned()));
            assert!(outgoing_requests);
        }
        other => panic!("unexpected {:?}", other),
    }
}

#[test]
fn foreign_event_changes_no_synchronisation() {
    let mut to_device_loop = saved_loop(true);
    let step = to_device_loop.sync_once::<&str>();
    let event = SyncOnceEvent::Processed(Ok(()));
    match to_device_runs::advance(&mut to_device_loop, step, event) {
        SyncOnce::ReadCache { key } => assert_eq!(key, "k-c-to-device-loop"),
        other => panic!("unexpected {:?}", other),
    }
    let done = SyncOnce::Done(Err("failed"));
    let event = SyncOnceEvent::CacheWritten(Ok(()));
    match to_device_runs::advance(&mut to_device_loop, done, event) {
        SyncOnce::Done(outcome) => assert_eq!(outcome, Err("failed")),
        other => panic!("unexpected {:?}", other),
    }
    assert_eq!(to_device_loop.pos, None);
}

#[test]
fn iteration_of_a_stream() {
    let mut sync = notification_sync(NotificationSyncMode::RunFixedIterations(1));
    let step: Step = sync.sync();
    assert_eq!(step, SyncStep::SpinLockStore { limit: Some(60000) });
    let step = notification_runs::advance(&mut sync, step, SyncEvent::Locked(Ok(())));
    assert_eq!(step, SyncStep::NextUpdate { must_unlock: true });
    let update = UpdateSummary { lists: vec![], rooms: vec![] };
    let step = notification_runs::advance(&mut sync, step, SyncEvent::Update(Some(Ok(update))));
    assert_eq!(step, SyncStep::UnlockStore(AfterUnlock::Continue));
    let step = notification_runs::advance(&mut sync, step, SyncEvent::Unlocked(Ok(())));
    assert_eq!(step, SyncStep::YieldUpdate);
    let step = notification_runs::advance(&mut sync, step, SyncEvent::Resumed);
    assert_eq!(step, SyncStep::End);
    // Nothing follows the end.
    let step = notification_runs::advance(&mut sync, step, SyncEvent::Resumed);
    assert_eq!(step, SyncStep::End);
}

#[test]
fn stream_without_the_lock_has_nothing_to_give_back() {
    let mut sync = notification_sync(NotificationSyncMode::NeverStop);
    let step: Step = sync.sync();
    let step = notification_runs::advance(&mut sync, step, SyncEvent::LockTried(Ok(false)));
    assert_eq!(step, SyncStep::NextUpdate { must_unlock: false });
    let failed = Some(Err(SdkError::Other("no")));
    let step = notification_runs::advance(&mut sync, step, SyncEvent::Update(failed));
    assert_eq!(step, SyncStep::Fail(Error::SlidingSync(SdkError::Other("no"))));
    let step = notification_runs::advance(&mut sync, step, SyncEvent::Resumed);
    assert_eq!(step, SyncStep::Fail(Error::SlidingSync(SdkError::Other("no"))));
}

#[test]
fn foreign_event_changes_no_stream() {
    let mut sync = notification_sync(NotificationSyncMode::RunFixedIterations(2));
    let step: Step = sync.sync();
    let step = notification_runs::advance(&mut sync, step, SyncEvent::Update(None));
    assert_eq!(step, SyncStep::SpinLockStore { limit: Some(60000) });
    let failed = SyncEvent::Locked(Err(LockError::CryptoStore(CryptoStoreError(7))));
    let step = notification_runs::advance(&mut sync, step, failed);
    assert_eq!(step, SyncStep::Fail(Error::CryptoStore(CryptoStoreError(7))));
    // The failed iteration has been used up, the other has not.
    let step: Step = sync.sync();
    assert_eq!(step, SyncStep::SpinLockStore { limit: Some(60000) });
    let step: Step = sync.sync();
    assert_eq!(step, SyncStep::End);
}

#[test]
fn interference_does_not_change_the_outcome() {
    let mut to_device_loop = saved_loop(true);
    let step = to_device_loop.sync_once::<&str>();
    let event = SyncOnceEvent::CacheRead(Ok(CachedEntry::Missing));
    let step = to_device_runs::advance(&mut to_device_loop, step, event);
    // Another synchronisation of the same loop takes in a response meanwhile.
    to_device_loop.handle_response::<&str>(response("other", "other"), Ok(())).unwrap();
    let event = SyncOnceEvent::Received { outgoing: None, response: Ok(response("p", "t")) };
    let step = to_device_runs::advance(&mut to_device_loop, step, event);
    let step = to_device_runs::advance(&mut to_device_loop, step, SyncOnceEvent::HandlingBegun);
    assert_eq!(to_device_loop.pos, Some("other".to_owned()));
    let event = SyncOnceEvent::Processed(Ok(()));
    let step = to_device_runs::advance(&mut to_device_loop, step, event);
    assert_eq!(to_device_loop.pos, Some("p".to_owned()));
    // The session is invalidated before the token is written.
    to_device_loop.invalidate_session();
    let event = SyncOnceEvent::CacheWritten(Ok(()));
    let step = to_device_runs::advance(&mut to_device_loop, step, event);
    match to_device_runs::advance(&mut to_device_loop, step, SyncOnceEvent::HandlingEnded) {
        SyncOnce::Done(outcome) => assert_eq!(outcome, Ok(())),
        other => panic!("unexpected {:?}", other),
    }
    assert_eq!(to_device_loop.pos, None);
    assert_eq!(to_device_loop.since_token, Some("t".to_owned()));
}

#[test]
fn streams_in_turn_share_the_iterations() {
    let mut sync = notification_sync(NotificationSyncMode::RunFixedIterations(3));
    let mut steps: Vec<Step> = vec![sync.sync(), sync.sync()];
    let (mut taken, mut given_back, mut updates) = (0, 0, 0);
    while steps.iter().any(|step| *step != SyncStep::End) {
        for i in 0..2 {
            let step = std::mem::replace(&mut steps[i], SyncStep::End);
            let event = match &step {
                SyncStep::SpinLockStore { .. } => {
                    taken += 1;
                    SyncEvent::Locked(Ok(()))
                }
                SyncStep::NextUpdate { .. } => {
                    SyncEvent::Update(Some(Ok(UpdateSummary { lists: vec![], rooms: vec![] })))
                }
                SyncStep::UnlockStore(_) => {
                    given_back += 1;
                    SyncEvent::Unlocked(Ok(()))
                }
                SyncStep::YieldUpdate => {
                    updates += 1;
                    SyncEvent::Resumed
                }
                SyncStep::End => SyncEvent::Resumed,
                other => panic!("unexpected {:?}", other),
            };
            steps[i] = notification_runs::advance(&mut sync, step, event);
        }
    }
    assert_eq!((taken, given_back, updates), (3, 3, 3));
}
