use gatha_transcribe::protocol::{handle_client_message_at, load_or_create_session_at};
use gatha_transcribe::record::{ClientMessage, Float64, PlaybackUpdate, SessionKey};
use gatha_transcribe::scheduler::{begin_flush, finish_flush};
use gatha_transcribe::store::{InMemorySessionStore, SessionStore};

fn key(user: &str, video: &str) -> SessionKey {
    (user.to_string(), video.to_string())
}

fn position(t: f64, version: i64) -> ClientMessage {
    ClientMessage::UpdatePlaybackPosition(PlaybackUpdate { current_time: Float64 { bits: t.to_bits() }, version })
}

fn dirty_flags(store: &InMemorySessionStore) -> Vec<(String, bool)> {
    let mut flags: Vec<(String, bool)> = store.list_all().into_iter().map(|(k, s)| (k.1, s.dirty)).collect();
    flags.sort();
    flags
}

#[test]
fn clean_sessions_are_never_written() {
    let mut store = InMemorySessionStore::new();
    load_or_create_session_at(&mut store, &key("u", "a"), None, 0);
    load_or_create_session_at(&mut store, &key("u", "b"), None, 0);
    for outcome in [true, false, true, true] {
        let batch = begin_flush(&store);
        assert!(batch.is_empty());
        finish_flush(&mut store, &batch, outcome);
    }
    assert_eq!(dirty_flags(&store), vec![("a".to_string(), false), ("b".to_string(), false)]);
}

#[test]
fn batch_holds_only_dirty_sessions() {
    let mut store = InMemorySessionStore::new();
    load_or_create_session_at(&mut store, &key("u", "a"), None, 0);
    load_or_create_session_at(&mut store, &key("u", "b"), None, 0);
    load_or_create_session_at(&mut store, &key("u", "c"), None, 0);
    handle_client_message_at(&mut store, &key("u", "b"), &position(4.0, 1), 1).unwrap();
    let batch = begin_flush(&store);
    assert_eq!(batch.len(), 1);
    assert_eq!(batch[0].0, key("u", "b"));
    assert_eq!(batch[0].1.current_time, Float64 { bits: 4.0f64.to_bits() });
    assert!(batch[0].1.dirty);
}

#[test]
fn flushed_session_is_not_flushed_again() {
    let mut store = InMemorySessionStore::new();
    let k = key("u", "a");
    load_or_create_session_at(&mut store, &k, None, 0);
    handle_client_message_at(&mut store, &k, &position(9.0, 1), 1).unwrap();

    let batch = begin_flush(&store);
    assert_eq!(batch.len(), 1);
    finish_flush(&mut store, &batch, true);
    let s = store.get(&k).unwrap();
    assert!(!s.dirty);
    assert_eq!(s.current_time, Float64 { bits: 9.0f64.to_bits() });
    assert_eq!(s.version, 1);

    assert!(begin_flush(&store).is_empty());

    handle_client_message_at(&mut store, &k, &position(10.0, 2), 2).unwrap();
    assert_eq!(begin_flush(&store).len(), 1);
}

#[test]
fn failed_batch_keeps_dirty_flags_and_is_retried() {
    let mut store = InMemorySessionStore::new();
    for v in ["a", "b", "c"] {
        load_or_create_session_at(&mut store, &key("u", v), None, 0);
    }
    handle_client_message_at(&mut store, &key("u", "a"), &position(1.0, 1), 1).unwrap();
    handle_client_message_at(&mut store, &key("u", "c"), &position(3.0, 1), 1).unwrap();

    // outage: the repository refuses the batch
    let batch = begin_flush(&store);
    assert_eq!(batch.len(), 2);
    finish_flush(&mut store, &batch, false);
    assert_eq!(
        dirty_flags(&store),
        vec![("a".to_string(), true), ("b".to_string(), false), ("c".to_string(), true)]
    );

    // outage over: the next tick writes the same sessions
    let retry = begin_flush(&store);
    let mut retried: Vec<String> = retry.iter().map(|(k, _)| k.1.clone()).collect();
    retried.sort();
    assert_eq!(retried, vec!["a".to_string(), "c".to_string()]);
    finish_flush(&mut store, &retry, true);
    assert_eq!(
        dirty_flags(&store),
        vec![("a".to_string(), false), ("b".to_string(), false), ("c".to_string(), false)]
    );
    assert!(begin_flush(&store).is_empty());
}

#[test]
fn flush_writes_back_the_held_copy() {
    let mut store = InMemorySessionStore::new();
    let k = key("u", "a");
    load_or_create_session_at(&mut store, &k, None, 0);
    handle_client_message_at(&mut store, &k, &position(1.0, 1), 1).unwrap();
    let batch = begin_flush(&store);
    // a connection writes between the snapshot and the write-back
    handle_client_message_at(&mut store, &k, &position(2.0, 2), 2).unwrap();
    finish_flush(&mut store, &batch, true);
    let s = store.get(&k).unwrap();
    assert_eq!(s.current_time, Float64 { bits: 1.0f64.to_bits() });
    assert_eq!(s.version, 1);
    assert!(!s.dirty);
}
