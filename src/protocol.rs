use vstd::prelude::*;
use crate::clock::now_seconds;
use crate::record::{
    fresh_session, key_view, snapshot_of, ClientMessage, SessionKey, SessionState, TranscriptionSession,
};
use crate::store::{lookup, SessionMap, SessionStore, SessionStoreError};

verus! {

/// The version that a client message carries.
pub open spec fn message_version(msg: ClientMessage) -> i64 {
    match msg {
        ClientMessage::UpdatePlaybackPosition(u) => u.version,
        ClientMessage::UpdatePlaybackSpeed(u) => u.version,
        ClientMessage::UpdateVolume(u) => u.version,
        ClientMessage::SyncState(s) => s.version,
    }
}

/// Whether `msg` is applied to `rec`: a field update when its version is not
/// older than the record's, an authoritative sync always.
pub open spec fn accepts(rec: TranscriptionSession, msg: ClientMessage) -> bool {
    match msg {
        ClientMessage::SyncState(_) => true,
        _ => message_version(msg) >= rec.version,
    }
}

/// The record after `msg` arrives at time `now`. A rejected message leaves it
/// as it was; an accepted one sets its fields and version, the time of the
/// mutation, and marks the record dirty.
pub open spec fn applied(rec: TranscriptionSession, msg: ClientMessage, now: i64) -> TranscriptionSession {
    if !accepts(rec, msg) {
        rec
    } else {
        match msg {
            ClientMessage::UpdatePlaybackPosition(u) => TranscriptionSession {
                current_time: u.current_time,
                version: u.version,
                updated_at: now,
                dirty: true,
                ..rec
            },
            ClientMessage::UpdatePlaybackSpeed(u) => TranscriptionSession {
                playback_speed: u.playback_speed,
                version: u.version,
                updated_at: now,
                dirty: true,
                ..rec
            },
            ClientMessage::UpdateVolume(u) => TranscriptionSession {
                volume: u.volume,
                version: u.version,
                updated_at: now,
                dirty: true,
                ..rec
            },
            ClientMessage::SyncState(s) => TranscriptionSession {
                current_time: s.current_time,
                playback_speed: s.playback_speed,
                volume: s.volume,
                version: s.version,
                updated_at: now,
                dirty: true,
                ..rec
            },
        }
    }
}

/// Applies the conflict-resolution rule to one record; returns whether the
/// message was accepted. Stale updates are dropped without an error.
pub fn apply_client_message(record: &mut TranscriptionSession, msg: &ClientMessage, now: i64) -> (accepted: bool)
    ensures
        accepted == accepts(*old(record), *msg),
        *final(record) == applied(*old(record), *msg, now),
{
    match msg {
        ClientMessage::UpdatePlaybackPosition(u) => {
            if u.version >= record.version {
                record.current_time = u.current_time;
                record.version = u.version;
                record.updated_at = now;
                record.dirty = true;
                true
            } else {
                false
            }
        },
        ClientMessage::UpdatePlaybackSpeed(u) => {
            if u.version >= record.version {
                record.playback_speed = u.playback_speed;
                record.version = u.version;
                record.updated_at = now;
                record.dirty = true;
                true
            } else {
                false
            }
        },
        ClientMessage::UpdateVolume(u) => {
            if u.version >= record.version {
                record.volume = u.volume;
                record.version = u.version;
                record.updated_at = now;
                record.dirty = true;
                true
            } else {
                false
            }
        },
        ClientMessage::SyncState(s) => {
            record.current_time = s.current_time;
            record.playback_speed = s.playback_speed;
            record.volume = s.volume;
            record.version = s.version;
            record.updated_at = now;
            record.dirty = true;
            true
        },
    }
}

/// The store's content after `msg` for `key` arrives at time `now`; unchanged
/// when the key has no session or the message is stale.
pub open spec fn handled(m: SessionMap, key: (Seq<char>, Seq<char>), msg: ClientMessage, now: i64) -> SessionMap {
    if m.contains_key(key) && accepts(m[key], msg) {
        m.insert(key, applied(m[key], msg, now))
    } else {
        m
    }
}

/// Reads the session at `key`, applies `msg` to it at time `now`, and writes it
/// back if accepted. Fails with `NotFound` when the key has no live session.
pub fn handle_client_message_at<S: SessionStore>(
    store: &mut S,
    key: &SessionKey,
    msg: &ClientMessage,
    now: i64,
) -> (r: Result<(), SessionStoreError>)
    requires
        old(store).well_formed(),
    ensures
        final(store).well_formed(),
        final(store).sessions() == handled(old(store).sessions(), key_view(*key), *msg, now),
        r is Ok <==> old(store).sessions().contains_key(key_view(*key)),
        r matches Err(e) ==> e is NotFound,
{
    match store.get(key) {
        None => Err(SessionStoreError::NotFound),
        Some(session) => {
            let mut session = session;
            if apply_client_message(&mut session, msg, now) {
                store.set(key, session);
            }
            Ok(())
        },
    }
}

/// `handle_client_message_at` with the current time.
pub fn handle_client_message<S: SessionStore>(store: &mut S, key: &SessionKey, msg: &ClientMessage) -> (r: Result<(), SessionStoreError>)
    requires
        old(store).well_formed(),
    ensures
        final(store).well_formed(),
        exists|now: i64|
            0 <= now && final(store).sessions() == handled(old(store).sessions(), key_view(*key), *msg, now),
        r is Ok <==> old(store).sessions().contains_key(key_view(*key)),
        r matches Err(e) ==> e is NotFound,
{
    let now = now_seconds();
    handle_client_message_at(store, key, msg, now)
}

/// A record loaded from durable storage: it matches storage, so it is clean.
pub open spec fn rehydrated(d: TranscriptionSession) -> TranscriptionSession {
    TranscriptionSession { dirty: false, ..d }
}

/// The record that attaching to `key` resolves: the live one if there is one,
/// else the durable snapshot marked clean, else a fresh record.
pub open spec fn attached(m: SessionMap, key: SessionKey, durable: Option<TranscriptionSession>, now: i64) -> TranscriptionSession {
    if m.contains_key(key_view(key)) {
        m[key_view(key)]
    } else {
        match durable {
            Some(d) => rehydrated(d),
            None => fresh_session(key.0, key.1, now),
        }
    }
}

/// Resolves the session for a connection that attaches to `key`, taking
/// exactly one path: memory, then the durable snapshot `durable` (what the
/// repository held for the key, if anything could be read), then a fresh
/// record. A record that was not live is stored.
pub fn load_or_create_session_at<S: SessionStore>(
    store: &mut S,
    key: &SessionKey,
    durable: Option<TranscriptionSession>,
    now: i64,
) -> (r: TranscriptionSession)
    requires
        old(store).well_formed(),
    ensures
        final(store).well_formed(),
        r == attached(old(store).sessions(), *key, durable, now),
        final(store).sessions() == old(store).sessions().insert(key_view(*key), r),
{
    match store.get(key) {
        Some(session) => {
            proof {
                assert(old(store).sessions().insert(key_view(*key), session) =~= old(store).sessions());
            }
            session
        },
        None => {
            let session = match durable {
                Some(d) => {
                    let mut d = d;
                    d.dirty = false;
                    d
                },
                None => TranscriptionSession::fresh(key.0.clone(), key.1.clone(), now),
            };
            store.set(key, session.clone());
            session
        },
    }
}

/// `load_or_create_session_at` with the current time.
pub fn load_or_create_session<S: SessionStore>(
    store: &mut S,
    key: &SessionKey,
    durable: Option<TranscriptionSession>,
) -> (r: TranscriptionSession)
    requires
        old(store).well_formed(),
    ensures
        final(store).well_formed(),
        exists|now: i64| 0 <= now && r == attached(old(store).sessions(), *key, durable, now),
        final(store).sessions() == old(store).sessions().insert(key_view(*key), r),
{
    let now = now_seconds();
    load_or_create_session_at(store, key, durable, now)
}

/// What a detaching connection must still write to durable storage: the live
/// record when it is dirty.
pub open spec fn pending_flush(m: SessionMap, key: (Seq<char>, Seq<char>)) -> Option<TranscriptionSession> {
    match lookup(m, key) {
        Some(rec) => if rec.dirty {
            Some(rec)
        } else {
            None
        },
        None => None,
    }
}

/// First step of detaching: re-reads the record and returns it if it is
/// dirty, for a final flush outside the scheduler's cadence. The caller then
/// evicts the key with `delete`, whatever the flush's outcome.
pub fn detach_flush_candidate<S: SessionStore>(store: &S, key: &SessionKey) -> (r: Option<TranscriptionSession>)
    requires
        store.well_formed(),
    ensures
        r == pending_flush(store.sessions(), key_view(*key)),
{
    match store.get(key) {
        Some(session) => if session.dirty {
            Some(session)
        } else {
            None
        },
        None => None,
    }
}

/// The record after each of `msgs` is applied in order, the `i`-th at time
/// `stamps[i]`: what one connection does to a record while no other writes it.
pub open spec fn apply_all(rec: TranscriptionSession, msgs: Seq<ClientMessage>, stamps: Seq<i64>) -> TranscriptionSession
    decreases msgs.len(),
{
    if msgs.len() == 0 {
        rec
    } else {
        applied(apply_all(rec, msgs.drop_last(), stamps), msgs.last(), stamps[msgs.len() - 1])
    }
}

/// Field updates never raise the version above the largest one they carry.
proof fn lemma_field_updates_bound_version(rec: TranscriptionSession, msgs: Seq<ClientMessage>, stamps: Seq<i64>, bound: i64)
    requires
        rec.version <= bound,
        forall|i: int| 0 <= i < msgs.len() ==> !(#[trigger] msgs[i] is SyncState) && message_version(msgs[i]) <= bound,
    ensures
        apply_all(rec, msgs, stamps).version <= bound,
    decreases msgs.len(),
{
    if msgs.len() > 0 {
        let prefix = msgs.drop_last();
        assert forall|i: int| 0 <= i < prefix.len() implies !(#[trigger] prefix[i] is SyncState) && message_version(prefix[i]) <= bound by {
            assert(prefix[i] == msgs[i]);
        }
        lemma_field_updates_bound_version(rec, prefix, stamps, bound);
    }
}

/// Position updates with strictly increasing versions, the last of them not
/// older than the record: the final position is the last message's, and so is
/// the final version.
pub proof fn lemma_increasing_positions_last_wins(rec: TranscriptionSession, msgs: Seq<ClientMessage>, stamps: Seq<i64>)
    requires
        msgs.len() > 0,
        forall|i: int| 0 <= i < msgs.len() ==> #[trigger] msgs[i] is UpdatePlaybackPosition,
        forall|i: int, j: int| 0 <= i < j < msgs.len() ==> message_version(msgs[i]) < message_version(msgs[j]),
        message_version(msgs.last()) >= rec.version,
    ensures
        apply_all(rec, msgs, stamps).current_time == msgs.last()->UpdatePlaybackPosition_0.current_time,
        apply_all(rec, msgs, stamps).version == message_version(msgs.last()),
{
    let prefix = msgs.drop_last();
    let last = msgs.last();
    assert forall|i: int| 0 <= i < prefix.len() implies !(#[trigger] prefix[i] is SyncState) && message_version(prefix[i]) <= message_version(last) by {
        assert(prefix[i] == msgs[i]);
    }
    lemma_field_updates_bound_version(rec, prefix, stamps, message_version(last));
}

/// A field update older than the record changes nothing, neither the record
/// nor the store that holds it.
pub proof fn lemma_stale_update_ignored(rec: TranscriptionSession, msg: ClientMessage, now: i64, m: SessionMap, key: (Seq<char>, Seq<char>))
    requires
        !(msg is SyncState),
        message_version(msg) < rec.version,
        m.contains_key(key) ==> m[key] == rec,
    ensures
        applied(rec, msg, now) == rec,
        handled(m, key, msg, now) == m,
{
}

/// An authoritative sync wins whatever the versions: the record's domain
/// fields become exactly the sync's, its version included, and it is dirty.
pub proof fn lemma_sync_state_wins(rec: TranscriptionSession, s: SessionState, now: i64)
    ensures
        snapshot_of(applied(rec, ClientMessage::SyncState(s), now)) == s,
        applied(rec, ClientMessage::SyncState(s), now).version == s.version,
        applied(rec, ClientMessage::SyncState(s), now).dirty,
{
}

/// A dirty record handed over at detach, reloaded by the next attach to a key
/// that is no longer live, gives the client the same snapshot.
pub proof fn lemma_detach_reattach_round_trip(m: SessionMap, later: SessionMap, key: SessionKey, now: i64)
    requires
        m.contains_key(key_view(key)),
        m[key_view(key)].dirty,
        !later.contains_key(key_view(key)),
    ensures
        pending_flush(m, key_view(key)) == Some(m[key_view(key)]),
        snapshot_of(attached(later, key, pending_flush(m, key_view(key)), now)) == snapshot_of(m[key_view(key)]),
        !attached(later, key, pending_flush(m, key_view(key)), now).dirty,
{
}

/// Field updates never lower a record's version; only an authoritative sync
/// may set an older one.
pub proof fn lemma_field_update_keeps_version(rec: TranscriptionSession, msg: ClientMessage, now: i64)
    requires
        !(msg is SyncState),
    ensures
        applied(rec, msg, now).version >= rec.version,
{
}

} // verus!
