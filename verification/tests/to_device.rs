use matrix_sync::sliding_sync::{Extensions, Response, ToDevice};
use matrix_sync::to_device::{CachedEntry, FrozenToDeviceLoop, SyncOnce, ToDeviceLoop};
use url::Url;

const KEY: &str = "storage_key-connection_id-to-device-loop";

fn new_to_device_loop() -> ToDeviceLoop {
    ToDeviceLoop::new(
        "connection_id".to_owned(),
        true,
        Some("storage_key".to_owned()),
        Some(Url::parse("https://slidingsync.example.org").unwrap()),
    )
}

fn unsaved_loop() -> ToDeviceLoop {
    ToDeviceLoop::new("connection_id".to_owned(), false, None, None)
}

fn response(pos: &str, next_batch: Option<&str>) -> Response {
    Response {
        pos: pos.to_owned(),
        extensions: Extensions {
            to_device: next_batch.map(|token| ToDevice { next_batch: token.to_owned() }),
        },
    }
}

fn saved(token: Option<&str>) -> CachedEntry {
    CachedEntry::Saved(FrozenToDeviceLoop { since_token: token.map(|t| t.to_owned()) })
}

#[test]
fn test_to_device_token_properly_cached() {
    let mut to_device_loop = new_to_device_loop();

    // When no to-device token is present, it's still not there after caching
    // either.
    let frozen = FrozenToDeviceLoop::from(&to_device_loop);
    assert!(frozen.since_token.is_none());

    // When a to-device token is present, it's properly reloaded.
    let since = String::from("my-to-device-since-token");
    to_device_loop.since_token = Some(since.clone());

    let frozen = FrozenToDeviceLoop::from(&to_device_loop);
    assert_eq!(frozen.since_token, Some(since));
}

#[test]
fn new_loop_is_empty() {
    let to_device_loop = new_to_device_loop();
    assert_eq!(to_device_loop.connection_id, "connection_id");
    assert!(to_device_loop.e2e_encryption);
    assert_eq!(to_device_loop.storage_key, Some("storage_key".to_owned()));
    assert_eq!(to_device_loop.homeserver.as_ref().map(Url::as_str), Some("https://slidingsync.example.org/"));
    assert_eq!(to_device_loop.since_token, None);
    assert_eq!(to_device_loop.pos, None);
}

#[test]
fn full_storage_key_joins_its_parts() {
    assert_eq!(new_to_device_loop().full_storage_key("storage_key"), KEY);
    assert_eq!(new_to_device_loop().full_storage_key(""), "-connection_id-to-device-loop");
    let other = ToDeviceLoop::new("é".to_owned(), false, None, None);
    assert_eq!(other.full_storage_key("k"), "k-é-to-device-loop");
}

#[test]
fn connections_have_keys_of_their_own() {
    let a = ToDeviceLoop::new("main".to_owned(), false, None, None);
    let b = ToDeviceLoop::new("nse".to_owned(), false, None, None);
    assert_ne!(a.full_storage_key("k"), b.full_storage_key("k"));
}

#[test]
fn first_synchronisation_of_a_saved_loop() {
    let mut to_device_loop = new_to_device_loop();

    match to_device_loop.sync_once::<String>() {
        SyncOnce::ReadCache { key } => assert_eq!(key, KEY),
        other => panic!("unexpected {:?}", other),
    }

    match to_device_loop.cache_read::<String>(Ok(CachedEntry::Missing)) {
        SyncOnce::Send { request, request_timeout_secs, homeserver, outgoing_requests } => {
            assert_eq!(request.pos, None);
            assert_eq!(request.conn_id, Some("connection_id".to_owned()));
            assert_eq!(request.timeout_secs, Some(10));
            assert_eq!(request.extensions.to_device.enabled, Some(true));
            assert_eq!(request.extensions.to_device.since, None);
            assert_eq!(request.extensions.e2ee.enabled, Some(true));
            assert_eq!(request_timeout_secs, 20);
            assert!(outgoing_requests);
            assert_eq!(homeserver, Some("https://slidingsync.example.org/".to_owned()));
        }
        other => panic!("unexpected {:?}", other),
    }

    let received = match ToDeviceLoop::response_received::<String>(Ok(response("p1", Some("t1")))) {
        SyncOnce::Handle(received) => received,
        other => panic!("unexpected {:?}", other),
    };
    let received = match ToDeviceLoop::handling_begun::<String>(received) {
        SyncOnce::Process(received) => received,
        other => panic!("unexpected {:?}", other),
    };
    assert_eq!(received.pos, "p1");
    assert_eq!(to_device_loop.pos, None);

    match to_device_loop.response_processed::<String>(received, Ok(())) {
        SyncOnce::WriteCache { key, entry } => {
            assert_eq!(key, KEY);
            assert_eq!(entry.since_token, Some("t1".to_owned()));
        }
        other => panic!("unexpected {:?}", other),
    }
    assert_eq!(to_device_loop.pos, Some("p1".to_owned()));
    assert_eq!(to_device_loop.since_token, Some("t1".to_owned()));

    let outcome = match ToDeviceLoop::cache_written::<String>(Ok(())) {
        SyncOnce::Release(outcome) => outcome,
        other => panic!("unexpected {:?}", other),
    };
    match ToDeviceLoop::handling_ended(outcome) {
        SyncOnce::Done(outcome) => assert_eq!(outcome, Ok(())),
        other => panic!("unexpected {:?}", other),
    }
}

#[test]
fn unsaved_loop_skips_the_store() {
    let mut to_device_loop = unsaved_loop();
    match to_device_loop.sync_once::<String>() {
        SyncOnce::Send { request, homeserver, outgoing_requests, .. } => {
            assert!(!outgoing_requests);
            assert_eq!(request.conn_id, Some("connection_id".to_owned()));
            assert_eq!(homeserver, None);
        }
        other => panic!("unexpected {:?}", other),
    }
    match to_device_loop.response_processed::<String>(response("p", None), Ok(())) {
        SyncOnce::Release(outcome) => assert_eq!(outcome, Ok(())),
        other => panic!("unexpected {:?}", other),
    }
    assert!(to_device_loop.cache_to_storage().is_none());
    assert_eq!(to_device_loop.restore_from_cache(CachedEntry::Corrupted), None);
    assert_eq!(to_device_loop.restore_from_cache(saved(Some("t"))), None);
    assert_eq!(to_device_loop.since_token, None);
}

#[test]
fn failures_end_the_synchronisation() {
    let mut to_device_loop = new_to_device_loop();
    match to_device_loop.cache_read(Err("read")) {
        SyncOnce::Done(outcome) => assert_eq!(outcome, Err("read")),
        other => panic!("unexpected {:?}", other),
    }
    match ToDeviceLoop::response_received(Err("send")) {
        SyncOnce::Done(outcome) => assert_eq!(outcome, Err("send")),
        other => panic!("unexpected {:?}", other),
    }
    match to_device_loop.response_processed(response("p", Some("t")), Err("process")) {
        SyncOnce::Release(outcome) => assert_eq!(outcome, Err("process")),
        other => panic!("unexpected {:?}", other),
    }
    // Nothing of a response that was not processed is taken in.
    assert_eq!(to_device_loop.pos, None);
    assert_eq!(to_device_loop.since_token, None);
    match ToDeviceLoop::cache_written(Err("write")) {
        SyncOnce::Release(outcome) => assert_eq!(outcome, Err("write")),
        other => panic!("unexpected {:?}", other),
    }
}

#[test]
fn handling_ends_with_its_outcome() {
    match ToDeviceLoop::handling_ended(Err("write")) {
        SyncOnce::Done(outcome) => assert_eq!(outcome, Err("write")),
        other => panic!("unexpected {:?}", other),
    }
}

#[test]
fn corrupted_entry_is_invalidated() {
    let mut to_device_loop = new_to_device_loop();
    to_device_loop.since_token = Some("t".to_owned());
    match to_device_loop.cache_read::<String>(Ok(CachedEntry::Corrupted)) {
        SyncOnce::InvalidateCache { key } => assert_eq!(key, KEY),
        other => panic!("unexpected {:?}", other),
    }
    match to_device_loop.cache_invalidated::<String>() {
        SyncOnce::Send { request, .. } => {
            assert_eq!(request.extensions.to_device.since, Some("t".to_owned()));
        }
        other => panic!("unexpected {:?}", other),
    }
}

#[test]
fn saved_token_is_taken_over() {
    let mut saver = new_to_device_loop();
    assert_eq!(saver.handle_response::<String>(response("p", Some("t2")), Ok(())), Ok(()));
    let (written, frozen) = saver.cache_to_storage().unwrap();

    let mut reader = new_to_device_loop();
    match reader.sync_once::<String>() {
        SyncOnce::ReadCache { key } => assert_eq!(key, written),
        other => panic!("unexpected {:?}", other),
    }
    assert_eq!(reader.restore_from_cache(CachedEntry::Saved(frozen)), None);
    assert_eq!(reader.since_token, Some("t2".to_owned()));
    // The position marker belongs to the session and is not saved.
    assert_eq!(reader.pos, None);
}

#[test]
fn set_token_stays_set() {
    let mut to_device_loop = new_to_device_loop();
    to_device_loop.restore_from_cache(saved(Some("t1")));
    assert_eq!(to_device_loop.since_token, Some("t1".to_owned()));
    to_device_loop.restore_from_cache(saved(None));
    assert_eq!(to_device_loop.since_token, Some("t1".to_owned()));
    to_device_loop.restore_from_cache(CachedEntry::Missing);
    assert_eq!(to_device_loop.since_token, Some("t1".to_owned()));
    to_device_loop.handle_response::<String>(response("p", None), Ok(())).unwrap();
    assert_eq!(to_device_loop.since_token, Some("t1".to_owned()));
    to_device_loop.invalidate_session();
    assert_eq!(to_device_loop.since_token, Some("t1".to_owned()));
    to_device_loop.handle_response::<String>(response("p", Some("t2")), Ok(())).unwrap();
    assert_eq!(to_device_loop.since_token, Some("t2".to_owned()));
    assert_eq!(to_device_loop.full_storage_key("storage_key"), KEY);
}

#[test]
fn invalidated_session_forgets_the_position() {
    let mut to_device_loop = unsaved_loop();
    to_device_loop.handle_response::<String>(response("p", Some("t")), Ok(())).unwrap();
    match to_device_loop.sync_once::<String>() {
        SyncOnce::Send { request, .. } => {
            assert_eq!(request.pos, Some("p".to_owned()));
            assert_eq!(request.extensions.to_device.since, Some("t".to_owned()));
        }
        other => panic!("unexpected {:?}", other),
    }
    to_device_loop.invalidate_session();
    match to_device_loop.sync_once::<String>() {
        SyncOnce::Send { request, .. } => {
            assert_eq!(request.pos, None);
            assert_eq!(request.extensions.to_device.since, Some("t".to_owned()));
        }
        other => panic!("unexpected {:?}", other),
    }
}
