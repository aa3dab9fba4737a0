use vstd::prelude::*;

verus! {

/// A floating-point quantity carried as its IEEE-754 binary64 encoding.
///
/// The synchronization rules never compute with playback positions, speeds or
/// volumes: they only copy them between messages and records. Holding the bit
/// pattern keeps every value exact, so a position written by one client reaches
/// another client unchanged.
#[derive(Clone, Copy, Debug, PartialEq, Eq, Structural)]
pub struct Float64 {
    pub bits: u64,
}

/// Encoding of `0.0`.
pub const FLOAT64_ZERO_BITS: u64 = 0;

/// Encoding of `1.0`.
pub const FLOAT64_ONE_BITS: u64 = 0x3FF0_0000_0000_0000;

impl Float64 {
    pub open spec fn zero() -> Float64 {
        Float64 { bits: FLOAT64_ZERO_BITS }
    }

    pub open spec fn one() -> Float64 {
        Float64 { bits: FLOAT64_ONE_BITS }
    }
}

/// Identifies one synchronized session: `(user_id, video_id)`.
pub type SessionKey = (String, String);

/// The mathematical value of a session key.
pub open spec fn key_view(key: SessionKey) -> (Seq<char>, Seq<char>) {
    (key.0@, key.1@)
}

/// The synchronized playback state of one session, as held in memory.
#[derive(Debug)]
pub struct TranscriptionSession {
    pub user_id: String,
    pub video_id: String,
    /// Playback position in seconds.
    pub current_time: Float64,
    /// Playback speed multiplier.
    pub playback_speed: Float64,
    /// Volume, nominally in `[0, 1]`.
    pub volume: Float64,
    /// Conflict-resolution counter; a newly created session starts at 0.
    pub version: i64,
    /// Seconds since the Unix epoch of the last mutation; informational only.
    pub updated_at: i64,
    /// Whether the record holds mutations not yet written to durable storage.
    pub dirty: bool,
}

impl Clone for TranscriptionSession {
    fn clone(&self) -> (r: Self)
        ensures
            r == *self,
    {
        TranscriptionSession {
            user_id: self.user_id.clone(),
            video_id: self.video_id.clone(),
            current_time: self.current_time,
            playback_speed: self.playback_speed,
            volume: self.volume,
            version: self.version,
            updated_at: self.updated_at,
            dirty: self.dirty,
        }
    }
}

/// The record that a first attach creates when neither memory nor durable
/// storage knows the key.
pub open spec fn fresh_session(user_id: String, video_id: String, now: i64) -> TranscriptionSession {
    TranscriptionSession {
        user_id,
        video_id,
        current_time: Float64::zero(),
        playback_speed: Float64::one(),
        volume: Float64::one(),
        version: 0,
        updated_at: now,
        dirty: false,
    }
}

/// The domain fields of a record, without the process-local `dirty` flag.
pub open spec fn snapshot_of(s: TranscriptionSession) -> SessionState {
    SessionState {
        current_time: s.current_time,
        playback_speed: s.playback_speed,
        volume: s.volume,
        version: s.version,
    }
}

impl TranscriptionSession {
    /// A new session at position 0, speed 1, volume 1, version 0, clean.
    pub fn fresh(user_id: String, video_id: String, now: i64) -> (r: Self)
        ensures
            r == fresh_session(user_id, video_id, now),
    {
        TranscriptionSession {
            user_id,
            video_id,
            current_time: Float64 { bits: FLOAT64_ZERO_BITS },
            playback_speed: Float64 { bits: FLOAT64_ONE_BITS },
            volume: Float64 { bits: FLOAT64_ONE_BITS },
            version: 0,
            updated_at: now,
            dirty: false,
        }
    }

    /// The session snapshot that is sent to clients.
    pub fn snapshot(&self) -> (r: SessionState)
        ensures
            r == snapshot_of(*self),
    {
        SessionState {
            current_time: self.current_time,
            playback_speed: self.playback_speed,
            volume: self.volume,
            version: self.version,
        }
    }
}

/// Session state as exchanged with clients: the server's snapshot, and the
/// client's authoritative override.
#[derive(Clone, Copy, Debug, PartialEq, Eq, Structural)]
pub struct SessionState {
    pub current_time: Float64,
    pub playback_speed: Float64,
    pub volume: Float64,
    pub version: i64,
}

/// Playback position update, sent often during playback.
#[derive(Clone, Copy, Debug, PartialEq, Eq, Structural)]
pub struct PlaybackUpdate {
    pub current_time: Float64,
    pub version: i64,
}

/// Playback speed update.
#[derive(Clone, Copy, Debug, PartialEq, Eq, Structural)]
pub struct PlaybackSpeedUpdate {
    pub playback_speed: Float64,
    pub version: i64,
}

/// Volume update.
#[derive(Clone, Copy, Debug, PartialEq, Eq, Structural)]
pub struct VolumeUpdate {
    pub volume: Float64,
    pub version: i64,
}

/// Messages sent from a client to the server.
#[derive(Clone, Copy, Debug, PartialEq, Eq, Structural)]
pub enum ClientMessage {
    UpdatePlaybackPosition(PlaybackUpdate),
    UpdatePlaybackSpeed(PlaybackSpeedUpdate),
    UpdateVolume(VolumeUpdate),
    /// Authoritative state from a client that won conflict resolution on its side.
    SyncState(SessionState),
}

/// Messages sent from the server to a client.
#[derive(Debug)]
pub enum ServerMessage {
    TestMessage { text: String },
    /// The session snapshot sent right after attach.
    StateSync { session: SessionState },
    /// Video dimensions and length, sent once per connection before the snapshot.
    VideoMetadata { width: Option<i64>, height: Option<i64>, duration_seconds: Option<Float64> },
}

/// The one-time metadata message that precedes the snapshot.
pub fn video_metadata_message(width: Option<i64>, height: Option<i64>, duration_seconds: Option<Float64>) -> (r: ServerMessage)
    ensures
        r == (ServerMessage::VideoMetadata { width, height, duration_seconds }),
{
    ServerMessage::VideoMetadata { width, height, duration_seconds }
}

/// The snapshot message for a record.
pub fn state_sync_message(session: &TranscriptionSession) -> (r: ServerMessage)
    ensures
        r == (ServerMessage::StateSync { session: snapshot_of(*session) }),
{
    ServerMessage::StateSync { session: session.snapshot() }
}

} // verus!
