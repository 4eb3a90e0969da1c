//! The daemon's wire protocol: the closed set of request and response
//! messages, and the length-prefixed framing every message travels in.
//!
//! A frame is a 32-bit little-endian byte length followed by that many
//! bytes of message body. A length over 1 MiB is a protocol violation:
//! the connection is dropped without reading the body.

use vstd::prelude::*;
use vstd::bytes::{
    lemma_auto_spec_u32_to_from_le_bytes, spec_u32_from_le_bytes, spec_u32_to_le_bytes,
    u32_from_le_bytes, u32_to_le_bytes,
};

verus! {

/// Largest frame body the daemon accepts: 1 MiB.
pub const MAX_FRAME_LEN: u32 = 1048576;

/// A request sent from a client to the daemon.
#[derive(Debug)]
pub enum DaemonRequest {
    /// Start a new recording with the given title.
    StartRecording { title: String },
    /// Stop the current recording.
    StopRecording,
    /// Get the current status.
    GetStatus,
    /// Check whether the daemon is alive.
    Ping,
    /// Shut the daemon down.
    Shutdown,
    /// Queue an existing recording for transcription again.
    Transcribe { recording_id: String },
}

/// The daemon's answer to a request.
#[derive(Debug)]
pub enum DaemonResponse {
    /// A recording started, with its fresh identifier.
    RecordingStarted { id: String },
    /// The recording stopped, with its identifier and duration.
    RecordingStopped { id: String, duration_secs: u64 },
    /// The current status.
    Status(RecordingStatus),
    /// Answer to a ping.
    Pong,
    /// Plain acknowledgement.
    Acknowledged,
    /// The request failed, with a message for the client.
    Error { message: String },
}

/// What the daemon is doing right now, as reported to clients. Progress
/// is carried in thousandths, 0 through 1000.
#[derive(Debug)]
pub enum RecordingStatus {
    /// No recording and no transcription running.
    Idle,
    /// A recording is running.
    Recording { id: String, title: String, duration_secs: u64 },
    /// A transcription is running.
    Transcribing { id: String, progress_permille: u32 },
}

/// A framed message: the body's length as 32-bit little-endian, then the
/// body.
pub open spec fn spec_frame(body: Seq<u8>) -> Seq<u8> {
    spec_u32_to_le_bytes(body.len() as u32) + body
}

/// Frame a message body for the wire.
pub fn encode_frame(body: &[u8]) -> (r: Vec<u8>)
    requires
        body@.len() <= u32::MAX,
    ensures
        r@ == spec_frame(body@),
        r@.len() == body@.len() + 4,
{
    proof {
        lemma_auto_spec_u32_to_from_le_bytes();
    }
    let mut r = u32_to_le_bytes(body.len() as u32);
    let mut i: usize = 0;
    while i < body.len()
        invariant
            i <= body@.len(),
            r@ == spec_u32_to_le_bytes(body@.len() as u32) + body@.subrange(0, i as int),
        decreases body@.len() - i,
    {
        r.push(body[i]);
        i += 1;
        proof {
            assert(spec_u32_to_le_bytes(body@.len() as u32) + body@.subrange(0, i - 1) + seq![
                body@[i - 1],
            ] =~= spec_u32_to_le_bytes(body@.len() as u32) + body@.subrange(0, i as int));
        }
    }
    proof {
        assert(body@.subrange(0, body@.len() as int) =~= body@);
    }
    r
}

/// Read the body length out of a frame's four length bytes.
pub fn decode_frame_len(len_bytes: &[u8]) -> (r: u32)
    requires
        len_bytes@.len() == 4,
    ensures
        r == spec_u32_from_le_bytes(len_bytes@),
{
    u32_from_le_bytes(len_bytes)
}

/// Whether a frame of the given body length is accepted; anything over
/// 1 MiB is a protocol violation and the connection is dropped.
pub fn frame_len_ok(len: u32) -> (r: bool)
    ensures
        r <==> len <= MAX_FRAME_LEN,
{
    len <= MAX_FRAME_LEN
}

/// Framing a body and reading back its length agree: the round trip of
/// the length field returns the body's length.
pub proof fn lemma_frame_len_round_trip(body: Seq<u8>)
    requires
        body.len() <= u32::MAX,
    ensures
        spec_u32_from_le_bytes(spec_frame(body).subrange(0, 4)) == body.len(),
        spec_frame(body).skip(4) == body,
{
    lemma_auto_spec_u32_to_from_le_bytes();
    assert(spec_frame(body).subrange(0, 4) =~= spec_u32_to_le_bytes(body.len() as u32));
    assert(spec_frame(body).skip(4) =~= body);
}

} // verus!
