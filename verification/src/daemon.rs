//! The recording state machine and command handling.
//!
//! The daemon is in exactly one of three states: idle, recording, or
//! transcribing. Every mutating command goes through one serialized
//! handler; the functions here are that handler's decisions, from state
//! and event to next state, response and action. The surrounding loop
//! performs the I/O — spawning recorders, writing rows — and feeds the
//! outcomes back in.

use vstd::prelude::*;
use vstd::string::{StrSliceExecFns, StringExecFns};
use crate::ipc::{DaemonResponse, RecordingStatus};
use crate::storage::{Recording, RecordingState};

verus! {

/// The live data of a running recording.
pub struct ActiveRecording {
    /// The session row as it was persisted on start.
    pub recording: Recording,
    /// Path of the WAV file being written.
    pub audio_path: String,
    /// Monotonic time the recording started, in milliseconds.
    pub started_at_ms: u64,
}

/// The live data of a running transcription. Progress is carried in
/// thousandths, 0 through 1000.
pub struct TranscriptionState {
    /// Identifier of the recording being transcribed.
    pub recording_id: String,
    /// Fractional progress in thousandths.
    pub progress_permille: u32,
}

/// What the daemon is doing: at most one recording or transcription at
/// any time, never both.
pub enum DaemonState {
    /// Waiting for commands.
    Idle,
    /// A recording is running.
    Recording(ActiveRecording),
    /// A transcription is running.
    Transcribing(TranscriptionState),
}

/// Elapsed whole seconds between a start time and now, both in
/// milliseconds; zero where the clock appears to have gone backwards.
pub open spec fn spec_elapsed_secs(started_at_ms: u64, now_ms: u64) -> u64 {
    if now_ms >= started_at_ms {
        (((now_ms - started_at_ms) as int) / 1000) as u64
    } else {
        0
    }
}

impl DaemonState {
    /// The status snapshot a client sees, with the running recording's
    /// duration measured against `now_ms`.
    pub fn to_status(&self, now_ms: u64) -> (r: RecordingStatus)
        ensures
            self is Idle ==> r is Idle,
            self matches DaemonState::Recording(a) ==> r matches RecordingStatus::Recording {
                id,
                title,
                duration_secs,
            } && id@ == a.recording.id@ && title@ == a.recording.title@ && duration_secs
                == spec_elapsed_secs(a.started_at_ms, now_ms),
            self matches DaemonState::Transcribing(t) ==> r
                matches RecordingStatus::Transcribing { id, progress_permille } && id@
                == t.recording_id@ && progress_permille == t.progress_permille,
    {
        match self {
            DaemonState::Idle => RecordingStatus::Idle,
            DaemonState::Recording(active) => {
                let duration = elapsed_secs(active.started_at_ms, now_ms);
                RecordingStatus::Recording {
                    id: active.recording.id.clone(),
                    title: active.recording.title.clone(),
                    duration_secs: duration,
                }
            }
            DaemonState::Transcribing(t) => RecordingStatus::Transcribing {
                id: t.recording_id.clone(),
                progress_permille: t.progress_permille,
            },
        }
    }
}

/// Elapsed whole seconds between two millisecond readings.
pub fn elapsed_secs(started_at_ms: u64, now_ms: u64) -> (r: u64)
    ensures
        r == spec_elapsed_secs(started_at_ms, now_ms),
{
    if now_ms >= started_at_ms {
        (now_ms - started_at_ms) / 1000
    } else {
        0
    }
}

/// What the handler resolved to do for a `StartRecording` command.
pub struct StartPlan {
    /// The session row to persist, with the audio path already set.
    pub recording: Recording,
    /// Path of the WAV file the capture backend is to write.
    pub audio_path: String,
}

/// First step of `StartRecording`: refuse with the already-recording
/// error while a recording runs; otherwise mint a fresh session with the
/// given title and derive its audio path `<audio_dir>/<id>.wav`.
///
/// The caller then starts the capture backend and persists the row; on
/// capture failure it simply never calls [`commit_start_recording`], so
/// the state stays as it was and no partial session is committed.
pub fn handle_start_recording(state: &DaemonState, title: String, audio_dir: &str) -> (r: Result<
    StartPlan,
    DaemonResponse,
>)
    ensures
        r is Err <==> state is Recording,
        r matches Err(e) ==> e matches DaemonResponse::Error { message } && message@
            == "Already recording"@,
        r matches Ok(plan) ==> {
            &&& plan.recording.id@.len() == 36
            &&& plan.recording.title == title
            &&& plan.recording.state == RecordingState::Recording
            &&& plan.recording.duration_secs is None
            &&& plan.audio_path@ == audio_dir@ + "/"@ + plan.recording.id@ + ".wav"@
            &&& plan.recording.audio_path matches Some(p) && p@ == plan.audio_path@
        },
{
    if let DaemonState::Recording(_) = state {
        let mut message = String::new();
        message.append("Already recording");
        return Err(DaemonResponse::Error { message });
    }

    let mut recording = Recording::new(title);
    let mut audio_path = String::new();
    audio_path.append(audio_dir);
    audio_path.append("/");
    audio_path.append(recording.id.as_str());
    audio_path.append(".wav");
    recording.audio_path = Some(audio_path.clone());
    Ok(StartPlan { recording, audio_path })
}

/// Commit a started recording: the new state is `Recording` with the
/// session of the plan and the given start time, and the client is told
/// the fresh identifier.
pub fn commit_start_recording(plan: StartPlan, now_ms: u64) -> (r: (DaemonState, DaemonResponse))
    ensures
        r.0 matches DaemonState::Recording(a) && a.recording == plan.recording && a.audio_path
            == plan.audio_path && a.started_at_ms == now_ms,
        r.1 matches DaemonResponse::RecordingStarted { id } && id@ == plan.recording.id@,
{
    let id = plan.recording.id.clone();
    let state = DaemonState::Recording(
        ActiveRecording {
            recording: plan.recording,
            audio_path: plan.audio_path,
            started_at_ms: now_ms,
        },
    );
    (state, DaemonResponse::RecordingStarted { id })
}

/// What the handler resolved to do for a `StopRecording` command.
pub struct StopPlan {
    /// Identifier of the session being stopped.
    pub id: String,
    /// Elapsed wall-clock duration of the recording, in whole seconds.
    pub duration_secs: u64,
    /// Path of the WAV file the capture wrote.
    pub wav_path: String,
}

/// `StopRecording`: refuse with the not-recording error unless a
/// recording runs; otherwise report its identifier, its wall-clock
/// duration measured against `now_ms`, and the path of its audio file.
///
/// The caller then stops the backend — a stop failure is logged, not
/// propagated — updates the session row through
/// [`stop_recording_update`], and moves to idle through
/// [`commit_stop_recording`].
pub fn handle_stop_recording(state: &DaemonState, now_ms: u64) -> (r: Result<
    StopPlan,
    DaemonResponse,
>)
    ensures
        r is Err <==> !(state is Recording),
        r matches Err(e) ==> e matches DaemonResponse::Error { message } && message@
            == "Not recording"@,
        state matches DaemonState::Recording(a) ==> r matches Ok(plan) && plan.id@
            == a.recording.id@ && plan.duration_secs == spec_elapsed_secs(a.started_at_ms, now_ms)
            && plan.wav_path@ == a.audio_path@,
{
    match state {
        DaemonState::Recording(active) => Ok(
            StopPlan {
                id: active.recording.id.clone(),
                duration_secs: elapsed_secs(active.started_at_ms, now_ms),
                wav_path: active.audio_path.clone(),
            },
        ),
        _ => {
            let mut message = String::new();
            message.append("Not recording");
            Err(DaemonResponse::Error { message })
        }
    }
}

/// The stopped session's row as it is to be persisted: duration and
/// audio path set, state moved to `Pending`, everything else kept.
pub fn stop_recording_update(recording: Recording, plan: &StopPlan) -> (r: Recording)
    ensures
        r.id == recording.id,
        r.title == recording.title,
        r.duration_secs matches Some(d) && d == plan.duration_secs,
        r.audio_path matches Some(p) && p@ == plan.wav_path@,
        r.state == RecordingState::Pending,
        r.created_at == recording.created_at,
        r.updated_at == recording.updated_at,
        r.notes == recording.notes,
        r.tags == recording.tags,
{
    let mut r = recording;
    r.duration_secs = Some(plan.duration_secs);
    r.audio_path = Some(plan.wav_path.clone());
    r.state = RecordingState::Pending;
    r
}

/// Conclude a stop: the daemon returns to idle and the client is told
/// the identifier and duration.
pub fn commit_stop_recording(plan: StopPlan) -> (r: (DaemonState, DaemonResponse))
    ensures
        r.0 is Idle,
        r.1 matches DaemonResponse::RecordingStopped { id, duration_secs } && id@ == plan.id@
            && duration_secs == plan.duration_secs,
{
    let duration_secs = plan.duration_secs;
    (DaemonState::Idle, DaemonResponse::RecordingStopped { id: plan.id, duration_secs })
}

/// `Transcribe`: re-queue an existing recording by moving its row back
/// to `Pending`, leaving every other field as it was.
pub fn requeue_recording(recording: Recording) -> (r: Recording)
    ensures
        r.id == recording.id,
        r.title == recording.title,
        r.duration_secs == recording.duration_secs,
        r.audio_path == recording.audio_path,
        r.state == RecordingState::Pending,
        r.created_at == recording.created_at,
        r.updated_at == recording.updated_at,
        r.notes == recording.notes,
        r.tags == recording.tags,
{
    let mut r = recording;
    r.state = RecordingState::Pending;
    r
}

/// Whether the background transcription worker may process pending
/// recordings on this pass: only while the daemon is idle, so recording
/// and transcription stay mutually exclusive.
pub fn worker_may_run(state: &DaemonState) -> (r: bool)
    ensures
        r <==> state is Idle,
{
    match state {
        DaemonState::Idle => true,
        _ => false,
    }
}

/// The state entered when the worker picks up a recording: transcribing
/// it, at zero progress.
pub fn begin_transcription(recording_id: String) -> (r: DaemonState)
    ensures
        r matches DaemonState::Transcribing(t) && t.recording_id@ == recording_id@
            && t.progress_permille == 0,
{
    DaemonState::Transcribing(TranscriptionState { recording_id, progress_permille: 0 })
}

/// Record reported transcription progress: while transcribing, the
/// progress is replaced and the identifier kept; any other state is
/// left untouched.
pub fn set_transcription_progress(state: DaemonState, progress_permille: u32) -> (r: DaemonState)
    ensures
        state matches DaemonState::Transcribing(t) ==> r matches DaemonState::Transcribing(u)
            && u.recording_id@ == t.recording_id@ && u.progress_permille == progress_permille,
        !(state is Transcribing) ==> r == state,
{
    match state {
        DaemonState::Transcribing(t) => DaemonState::Transcribing(
            TranscriptionState { recording_id: t.recording_id, progress_permille },
        ),
        other => other,
    }
}

/// The witness of `spec_is_wav_path`: position `d` holds the dot of a
/// `.wav` extension.
pub open spec fn wav_dot_at(p: Seq<char>, d: int) -> bool {
    &&& 0 < d
    &&& d + 4 == p.len()
    &&& p[d] == '.'
    &&& p[d - 1] != '/'
    &&& (forall|j: int| d < j < p.len() ==> p[j] != '.' && p[j] != '/')
    &&& (p[d + 1] == 'w' || p[d + 1] == 'W')
    &&& (p[d + 2] == 'a' || p[d + 2] == 'A')
    &&& (p[d + 3] == 'v' || p[d + 3] == 'V')
}

/// Whether a path names a WAV file, by the rules of path extensions: the
/// last dot of the final path component, not in first position of that
/// component, is followed by exactly `wav` in any letter case.
pub open spec fn spec_is_wav_path(p: Seq<char>) -> bool {
    exists|d: int| wav_dot_at(p, d)
}

/// The last '.' of the final path component: the index of a dot with
/// neither dot nor separator after it, where the path has one.
fn find_extension_dot(p: &str) -> (r: Option<usize>)
    ensures
        r matches Some(d) ==> d < p@.len() && p@[d as int] == '.' && (forall|j: int|
            d < j < p@.len() ==> p@[j] != '.' && p@[j] != '/'),
        r is None ==> forall|e: int|
            0 <= e < p@.len() ==> !(p@[e] == '.' && (forall|j: int|
                e < j < p@.len() ==> p@[j] != '.' && p@[j] != '/')),
{
    let n = p.unicode_len();
    let mut i: usize = n;
    while i > 0
        invariant
            i <= n,
            n == p@.len(),
            forall|j: int| i <= j < n ==> p@[j] != '.' && p@[j] != '/',
        decreases i,
    {
        let c = p.get_char(i - 1);
        if c == '/' {
            proof {
                assert forall|e: int|
                    0 <= e < p@.len() implies !(p@[e] == '.' && (forall|j: int|
                    e < j < p@.len() ==> p@[j] != '.' && p@[j] != '/')) by {
                    if p@[e] == '.' {
                        assert(e < i - 1);
                        assert(p@[i - 1] == '/');
                    }
                }
            }
            return None;
        }
        if c == '.' {
            return Some(i - 1);
        }
        i -= 1;
    }
    None
}

/// Whether a transcribed recording's audio is to be compressed: only
/// when compression is enabled and the audio file still is a WAV.
pub fn should_compress_after_transcription(enabled: bool, audio_path: &str) -> (r: bool)
    ensures
        r <==> (enabled && spec_is_wav_path(audio_path@)),
{
    if !enabled {
        return false;
    }
    let n = audio_path.unicode_len();
    let dot = find_extension_dot(audio_path);
    match dot {
        None => {
            proof {
                assert forall|e: int| !wav_dot_at(audio_path@, e) by {
                    if 0 < e && e + 4 == audio_path@.len() {
                        assert(0 <= e < audio_path@.len());
                    }
                }
            }
            false
        }
        Some(d) => {
            // Any witness of `spec_is_wav_path` must be this very dot:
            // after it nothing holds another dot, and before it the dot
            // at `d` would stand inside the witness's clean suffix.
            proof {
                assert forall|e: int| wav_dot_at(audio_path@, e) implies e == d by {
                    if e < d {
                        assert(audio_path@[d as int] == '.');
                    } else if e > d {
                        assert(audio_path@[e] == '.');
                    }
                }
            }
            if d == 0 || n - d != 4 {
                proof {
                    assert(!spec_is_wav_path(audio_path@));
                }
                return false;
            }
            if audio_path.get_char(d - 1) == '/' {
                proof {
                    assert(!spec_is_wav_path(audio_path@));
                }
                return false;
            }
            let c1 = audio_path.get_char(d + 1);
            let c2 = audio_path.get_char(d + 2);
            let c3 = audio_path.get_char(d + 3);
            let is_wav = (c1 == 'w' || c1 == 'W') && (c2 == 'a' || c2 == 'A') && (c3 == 'v' || c3
                == 'V');
            proof {
                if is_wav {
                    assert(wav_dot_at(audio_path@, d as int));
                } else {
                    assert(!spec_is_wav_path(audio_path@));
                }
            }
            is_wav
        }
    }
}

/// The witness that position `d` holds the dot beginning a path's
/// extension: the last dot of the final component, not in the
/// component's first position.
pub open spec fn ext_dot_at(p: Seq<char>, d: int) -> bool {
    &&& 0 < d < p.len()
    &&& p[d] == '.'
    &&& p[d - 1] != '/'
    &&& (forall|j: int| d < j < p.len() ==> p[j] != '.' && p[j] != '/')
}

/// What it means for `r` to be `path` with its extension replaced by
/// what `suffix` carries: the stem — everything before the extension
/// dot, or the whole path where it has none — with `suffix` appended.
pub open spec fn spec_with_suffix(path: Seq<char>, suffix: Seq<char>, r: Seq<char>) -> bool {
    &&& forall|d: int| ext_dot_at(path, d) ==> r == path.take(d) + suffix
    &&& (forall|d: int| !ext_dot_at(path, d)) ==> r == path + suffix
}

/// The path with its extension — dot included — replaced by `suffix`,
/// or with `suffix` appended where it has no extension.
fn path_with_suffix(path: &str, suffix: &str) -> (r: String)
    ensures
        spec_with_suffix(path@, suffix@, r@),
{
    let n = path.unicode_len();
    let dot = find_extension_dot(path);
    let stem_len: usize = match dot {
        Some(d) => {
            if d > 0 && path.get_char(d - 1) != '/' {
                proof {
                    assert forall|e: int| ext_dot_at(path@, e) implies e == d by {
                        if e < d {
                            assert(path@[d as int] == '.');
                        } else if e > d {
                            assert(path@[e] == '.');
                        }
                    }
                    assert(ext_dot_at(path@, d as int));
                }
                d
            } else {
                proof {
                    assert forall|e: int| !ext_dot_at(path@, e) by {
                        if 0 < e < path@.len() && path@[e] == '.' && (forall|j: int|
                            e < j < path@.len() ==> path@[j] != '.') {
                            assert(e == d);
                        }
                    }
                }
                n
            }
        }
        None => {
            proof {
                assert forall|e: int| !ext_dot_at(path@, e) by {
                    if 0 < e < path@.len() && path@[e] == '.' {
                        assert(0 <= e < path@.len());
                    }
                }
            }
            n
        }
    };
    let chars = crate::text::str_to_chars(path);
    let stem = &chars.as_slice()[0..stem_len];
    proof {
        assert(stem@ =~= path@.take(stem_len as int));
        assert(path@.take(n as int) =~= path@);
    }
    let mut r = crate::text::chars_to_string(stem);
    r.append(suffix);
    r
}

/// The temporary microphone-track path used during dual-source capture:
/// the output path with its extension replaced by `mic.wav`, or with
/// `.mic.wav` appended where it has no extension.
pub fn mic_track_path(output_path: &str) -> (r: String)
    ensures
        spec_with_suffix(output_path@, ".mic.wav"@, r@),
{
    path_with_suffix(output_path, ".mic.wav")
}

/// The compressed output path of an encode: the WAV path with its
/// extension replaced by `ogg`, or with `.ogg` appended where it has no
/// extension.
pub fn ogg_output_path(wav_path: &str) -> (r: String)
    ensures
        spec_with_suffix(wav_path@, ".ogg"@, r@),
{
    path_with_suffix(wav_path, ".ogg")
}


/// What the capture backend does on start, from the resolved targets:
/// refuse with no sources, record both with a temporary microphone
/// track, or record the single enabled source straight to the output.
pub enum CaptureStartPlan {
    /// No sources are enabled: starting fails.
    NoSources,
    /// System and microphone: two recorders, the microphone to a
    /// temporary track mixed in on stop. A failed microphone recorder
    /// degrades the session to system-only, it does not fail the start.
    Dual { system_target: String, mic_target: String, mic_path: String },
    /// One source, recorded straight to the output path.
    Single { target: String },
}

/// Decide the capture start from the resolved targets.
pub fn capture_start_plan(targets: &Vec<crate::resolve::ResolvedCaptureTarget>, output_path: &str)
    -> (r: CaptureStartPlan)
    ensures
        targets@.len() == 0 <==> r is NoSources,
        targets@.len() == 2 ==> (r matches CaptureStartPlan::Dual {
            system_target,
            mic_target,
            mic_path,
        } && system_target@ == targets@[0].target@ && mic_target@ == targets@[1].target@
            && spec_with_suffix(output_path@, ".mic.wav"@, mic_path@)),
        (targets@.len() == 1 || targets@.len() > 2) ==> (r matches CaptureStartPlan::Single {
            target,
        } && target@ == targets@[0].target@),
{
    if targets.len() == 0 {
        CaptureStartPlan::NoSources
    } else if targets.len() == 2 {
        CaptureStartPlan::Dual {
            system_target: targets[0].target.clone(),
            mic_target: targets[1].target.clone(),
            mic_path: mic_track_path(output_path),
        }
    } else {
        CaptureStartPlan::Single { target: targets[0].target.clone() }
    }
}

/// The byte size of a WAV file that holds only its header, no samples.
pub const WAV_HEADER_LEN: u64 = 44;

/// Whether a captured microphone track is worth mixing in: the file must
/// exist — `mic_file_len` carries its observed size, or nothing — and
/// hold more than a bare WAV header. A missing or empty track is
/// tolerated and the system-only recording kept as it is.
pub fn mic_track_usable(mic_file_len: Option<u64>) -> (r: bool)
    ensures
        r <==> (mic_file_len matches Some(n) && n > WAV_HEADER_LEN),
{
    match mic_file_len {
        Some(n) => n > WAV_HEADER_LEN,
        None => false,
    }
}

/// What the launcher does next while waiting for a freshly spawned
/// daemon to become ready.
pub enum LaunchPoll {
    /// The daemon process exited before becoming ready: report its exit
    /// as a failure.
    ChildExited,
    /// PID file and socket both exist: the daemon is up.
    Ready,
    /// Not ready yet: poll again.
    KeepWaiting,
    /// The readiness deadline passed: report a timeout.
    TimedOut,
}

/// One step of the launcher's readiness poll: a child exit is a failure
/// even if the files appeared; then both files must exist; the bounded
/// deadline cuts the wait off.
pub fn launch_poll_step(
    child_exited: bool,
    pid_file_exists: bool,
    socket_exists: bool,
    now_ms: u64,
    deadline_ms: u64,
) -> (r: LaunchPoll)
    ensures
        child_exited ==> r is ChildExited,
        !child_exited && pid_file_exists && socket_exists ==> r is Ready,
        !child_exited && !(pid_file_exists && socket_exists) && now_ms < deadline_ms ==> r
            is KeepWaiting,
        !child_exited && !(pid_file_exists && socket_exists) && now_ms >= deadline_ms ==> r
            is TimedOut,
{
    if child_exited {
        LaunchPoll::ChildExited
    } else if pid_file_exists && socket_exists {
        LaunchPoll::Ready
    } else if now_ms < deadline_ms {
        LaunchPoll::KeepWaiting
    } else {
        LaunchPoll::TimedOut
    }
}

} // verus!
