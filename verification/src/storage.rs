//! Recording session model: the lifecycle state of a recording and the
//! session row the daemon persists through its storage collaborator.

use vstd::prelude::*;
use crate::text::str_eq;

verus! {

/// Lifecycle state of a recording.
#[derive(Clone, Copy, PartialEq, Eq, Structural, Debug)]
pub enum RecordingState {
    /// Recording is in progress.
    Recording,
    /// Recording stopped, waiting for transcription.
    Pending,
    /// Transcription in progress.
    Transcribing,
    /// Transcription complete.
    Completed,
    /// Transcription failed.
    Failed,
}

/// The storage tag of each lifecycle state.
pub open spec fn spec_state_str(state: RecordingState) -> Seq<char> {
    match state {
        RecordingState::Recording => "recording"@,
        RecordingState::Pending => "pending"@,
        RecordingState::Transcribing => "transcribing"@,
        RecordingState::Completed => "completed"@,
        RecordingState::Failed => "failed"@,
    }
}

impl RecordingState {
    /// The storage tag of this state.
    pub fn as_str(&self) -> (r: &'static str)
        ensures
            r@ == spec_state_str(*self),
    {
        match self {
            Self::Recording => "recording",
            Self::Pending => "pending",
            Self::Transcribing => "transcribing",
            Self::Completed => "completed",
            Self::Failed => "failed",
        }
    }

    /// Parse a storage tag back into a state: exactly the five tags are
    /// accepted.
    pub fn from_str(s: &str) -> (r: Option<RecordingState>)
        ensures
            r matches Some(state) ==> s@ == spec_state_str(state),
            r is None ==> forall|state: RecordingState| s@ != spec_state_str(state),
    {
        proof {
            reveal_strlit("recording");
            reveal_strlit("pending");
            reveal_strlit("transcribing");
            reveal_strlit("completed");
            reveal_strlit("failed");
        }
        if str_eq(s, "recording") {
            Some(Self::Recording)
        } else if str_eq(s, "pending") {
            Some(Self::Pending)
        } else if str_eq(s, "transcribing") {
            Some(Self::Transcribing)
        } else if str_eq(s, "completed") {
            Some(Self::Completed)
        } else if str_eq(s, "failed") {
            Some(Self::Failed)
        } else {
            proof {
                assert forall|state: RecordingState| s@ != spec_state_str(state) by {
                    match state {
                        RecordingState::Recording => {}
                        RecordingState::Pending => {}
                        RecordingState::Transcribing => {}
                        RecordingState::Completed => {}
                        RecordingState::Failed => {}
                    }
                }
            }
            None
        }
    }
}

/// A meeting recording session.
pub struct Recording {
    /// Session identifier: a random 128-bit value rendered in hex with
    /// hyphens, 36 characters.
    pub id: String,
    /// User-provided or generated title.
    pub title: String,
    /// Path of the audio file, once known.
    pub audio_path: Option<String>,
    /// Duration in seconds, set when the recording stops.
    pub duration_secs: Option<u64>,
    /// Lifecycle state.
    pub state: RecordingState,
    /// Creation time, in seconds since the Unix epoch.
    pub created_at: i64,
    /// Last update time, in seconds since the Unix epoch.
    pub updated_at: i64,
    /// Optional notes or summary text.
    pub notes: Option<String>,
    /// Tags for categorisation.
    pub tags: Vec<String>,
}

/// A freshly generated session identifier.
///
/// Relies on uuid::Uuid::new_v4 and its Display form: a random
/// version-4 UUID rendered as 36 hyphenated hex characters. The value is
/// random, so nothing more is promised of it. new_v4 aborts if the
/// operating system's random source fails; that is environmental, not a
/// function of any input.
#[verifier::external_body]
fn fresh_session_id() -> (r: String)
    ensures
        r@.len() == 36,
{
    uuid::Uuid::new_v4().to_string()
}

/// The current wall-clock time in seconds since the Unix epoch.
///
/// Relies on chrono::Utc::now and DateTime::timestamp; the value depends
/// on the clock, so nothing is promised of it. Utc::now aborts when the
/// system clock reads before the epoch; that is environmental, not a
/// function of any input.
#[verifier::external_body]
fn current_unix_timestamp() -> i64 {
    chrono::Utc::now().timestamp()
}

impl Recording {
    /// Create a new recording session: a fresh 36-character identifier,
    /// the given title, state `Recording`, matching creation and update
    /// times, and everything else unset.
    pub fn new(title: String) -> (r: Recording)
        ensures
            r.id@.len() == 36,
            r.title == title,
            r.audio_path is None,
            r.duration_secs is None,
            r.state == RecordingState::Recording,
            r.created_at == r.updated_at,
            r.notes is None,
            r.tags@.len() == 0,
    {
        let now = current_unix_timestamp();
        Recording {
            id: fresh_session_id(),
            title,
            audio_path: None,
            duration_secs: None,
            state: RecordingState::Recording,
            created_at: now,
            updated_at: now,
            notes: None,
            tags: Vec::new(),
        }
    }
}

/// Totals the storage collaborator reports about its content.
pub struct DatabaseStats {
    /// Number of recordings held.
    pub total_recordings: usize,
    /// Number of transcript segments held.
    pub total_segments: usize,
    /// Summed duration of all recordings, in seconds.
    pub total_duration_secs: u64,
}

} // verus!
