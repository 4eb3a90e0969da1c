use minutes::daemon::{
    begin_transcription, capture_start_plan, commit_start_recording, commit_stop_recording,
    elapsed_secs, handle_start_recording, handle_stop_recording, launch_poll_step, mic_track_path,
    mic_track_usable, ogg_output_path, requeue_recording, set_transcription_progress,
    should_compress_after_transcription, stop_recording_update, worker_may_run, CaptureStartPlan,
    DaemonState, LaunchPoll,
};
use minutes::resolve::{ResolvedCaptureTarget, TargetKind, TargetResolutionMethod};
use minutes::ipc::{
    decode_frame_len, encode_frame, frame_len_ok, DaemonResponse, RecordingStatus, MAX_FRAME_LEN,
};
use minutes::settings::{find_suitable_config, select_backend, AudioBackend, BackendChoice, DeviceConfig};
use minutes::storage::RecordingState;

#[test]
fn compresses_only_wav_when_enabled() {
    assert!(should_compress_after_transcription(true, "meeting.wav"));
    assert!(!should_compress_after_transcription(true, "meeting.ogg"));
    assert!(!should_compress_after_transcription(false, "meeting.wav"));
}

#[test]
fn wav_extension_follows_path_rules() {
    assert!(should_compress_after_transcription(true, "dir/meeting.WAV"));
    assert!(should_compress_after_transcription(true, "a/b.c/rec.wav"));
    assert!(!should_compress_after_transcription(true, ".wav"));
    assert!(!should_compress_after_transcription(true, "dir/.wav"));
    assert!(!should_compress_after_transcription(true, "meeting"));
    assert!(!should_compress_after_transcription(true, "meeting.wave"));
}

#[test]
fn start_fails_while_already_recording() {
    let plan = handle_start_recording(&DaemonState::Idle, "First".to_string(), "/tmp/audio")
        .expect("idle daemon accepts a start");
    let (state, response) = commit_start_recording(plan, 1_000);
    assert!(matches!(response, DaemonResponse::RecordingStarted { .. }));

    let again = handle_start_recording(&state, "Second".to_string(), "/tmp/audio");
    match again {
        Err(DaemonResponse::Error { message }) => assert_eq!(message, "Already recording"),
        _ => panic!("a second start must be refused"),
    }
}

#[test]
fn stop_fails_while_idle() {
    match handle_stop_recording(&DaemonState::Idle, 5_000) {
        Err(DaemonResponse::Error { message }) => assert_eq!(message, "Not recording"),
        _ => panic!("stopping an idle daemon must be refused"),
    }
}

#[test]
fn stop_reports_elapsed_wall_clock_duration() {
    let plan = handle_start_recording(&DaemonState::Idle, "Timed".to_string(), "/tmp/audio")
        .expect("idle daemon accepts a start");
    let (state, _) = commit_start_recording(plan, 10_000);

    // Start, wait 1100 ms, stop: the reported duration is at least one
    // whole second.
    let stop = handle_stop_recording(&state, 11_100).expect("recording daemon accepts a stop");
    assert_eq!(stop.duration_secs, 1);

    let (next_state, response) = commit_stop_recording(stop);
    assert!(matches!(next_state, DaemonState::Idle));
    match response {
        DaemonResponse::RecordingStopped { duration_secs, .. } => assert_eq!(duration_secs, 1),
        _ => panic!("stop must answer with RecordingStopped"),
    }
}

#[test]
fn full_recording_round_trip_leaves_pending_session() {
    // Start("Standup"): the status shows a recording with a fresh id.
    let plan = handle_start_recording(&DaemonState::Idle, "Standup".to_string(), "/tmp/audio")
        .expect("idle daemon accepts a start");
    assert_eq!(plan.recording.id.len(), 36);
    assert_eq!(plan.audio_path, format!("/tmp/audio/{}.wav", plan.recording.id));
    let started_id = plan.recording.id.clone();

    let (state, _) = commit_start_recording(plan, 2_000);
    match state.to_status(4_500) {
        RecordingStatus::Recording { id, title, duration_secs } => {
            assert_eq!(id, started_id);
            assert_eq!(title, "Standup");
            assert_eq!(duration_secs, 2);
        }
        _ => panic!("a started daemon reports Recording"),
    }

    // Stop: the daemon goes idle and the persisted row is Pending with
    // a duration.
    let stop = handle_stop_recording(&state, 5_000).expect("recording daemon accepts a stop");
    let row = match state {
        DaemonState::Recording(active) => active.recording,
        _ => unreachable!(),
    };
    let updated = stop_recording_update(row, &stop);
    assert_eq!(updated.state, RecordingState::Pending);
    assert_eq!(updated.duration_secs, Some(3));
    assert_eq!(updated.audio_path, Some(format!("/tmp/audio/{}.wav", started_id)));

    let (next_state, _) = commit_stop_recording(stop);
    assert!(matches!(next_state.to_status(9_999), RecordingStatus::Idle));
}

#[test]
fn transcribe_requeues_to_pending() {
    let plan = handle_start_recording(&DaemonState::Idle, "Again".to_string(), "/tmp")
        .expect("idle daemon accepts a start");
    let mut row = plan.recording;
    row.state = RecordingState::Failed;
    let requeued = requeue_recording(row);
    assert_eq!(requeued.state, RecordingState::Pending);
    assert_eq!(requeued.title, "Again");
}

#[test]
fn worker_runs_only_while_idle() {
    assert!(worker_may_run(&DaemonState::Idle));
    let working = begin_transcription("abc".to_string());
    assert!(!worker_may_run(&working));
    match &working {
        DaemonState::Transcribing(t) => {
            assert_eq!(t.recording_id, "abc");
            assert_eq!(t.progress_permille, 0);
        }
        _ => panic!("begin_transcription enters Transcribing"),
    }
    let advanced = set_transcription_progress(working, 500);
    match advanced {
        DaemonState::Transcribing(t) => assert_eq!(t.progress_permille, 500),
        _ => panic!("progress update stays Transcribing"),
    }
}

#[test]
fn elapsed_is_whole_seconds_and_clamped() {
    assert_eq!(elapsed_secs(1_000, 3_500), 2);
    assert_eq!(elapsed_secs(5_000, 4_000), 0);
}

#[test]
fn frames_are_length_prefixed_little_endian() {
    let frame = encode_frame(b"abc");
    assert_eq!(frame, vec![3, 0, 0, 0, b'a', b'b', b'c']);
    assert_eq!(decode_frame_len(&frame[0..4]), 3);
}

#[test]
fn oversized_frames_are_refused() {
    assert!(frame_len_ok(0));
    assert!(frame_len_ok(MAX_FRAME_LEN));
    assert!(!frame_len_ok(MAX_FRAME_LEN + 1));
}

#[test]
fn missing_or_header_only_mic_track_is_ignored() {
    assert!(!mic_track_usable(None));
    assert!(!mic_track_usable(Some(0)));
    assert!(!mic_track_usable(Some(44)));
    assert!(mic_track_usable(Some(45)));
}

#[test]
fn launch_poll_reports_child_exit_over_everything() {
    assert!(matches!(launch_poll_step(true, true, true, 0, 10), LaunchPoll::ChildExited));
    assert!(matches!(launch_poll_step(false, true, true, 0, 10), LaunchPoll::Ready));
    assert!(matches!(launch_poll_step(false, true, false, 5, 10), LaunchPoll::KeepWaiting));
    assert!(matches!(launch_poll_step(false, false, true, 10, 10), LaunchPoll::TimedOut));
}

#[test]
fn mic_track_sits_beside_the_output_file() {
    assert_eq!(mic_track_path("dir/session.wav"), "dir/session.mic.wav");
    assert_eq!(mic_track_path("noext"), "noext.mic.wav");
    assert_eq!(mic_track_path("dir.d/noext"), "dir.d/noext.mic.wav");
}

fn target(kind: TargetKind, id: &str) -> ResolvedCaptureTarget {
    ResolvedCaptureTarget {
        kind,
        target: id.to_string(),
        method: TargetResolutionMethod::WpctlInspect,
    }
}

#[test]
fn capture_start_records_both_or_one_or_refuses() {
    match capture_start_plan(&vec![], "out.wav") {
        CaptureStartPlan::NoSources => {}
        _ => panic!("no targets refuse the start"),
    }

    let both = vec![target(TargetKind::System, "61"), target(TargetKind::Microphone, "62")];
    match capture_start_plan(&both, "out.wav") {
        CaptureStartPlan::Dual { system_target, mic_target, mic_path } => {
            assert_eq!(system_target, "61");
            assert_eq!(mic_target, "62");
            assert_eq!(mic_path, "out.mic.wav");
        }
        _ => panic!("two targets record dual"),
    }

    let one = vec![target(TargetKind::Microphone, "62")];
    match capture_start_plan(&one, "out.wav") {
        CaptureStartPlan::Single { target } => assert_eq!(target, "62"),
        _ => panic!("one target records straight to the output"),
    }
}

#[test]
fn auto_backend_prefers_pipewire_when_present() {
    assert!(matches!(select_backend(AudioBackend::Auto, true), BackendChoice::PipeWire));
    assert!(matches!(select_backend(AudioBackend::Auto, false), BackendChoice::Cpal));
    assert!(matches!(select_backend(AudioBackend::PipeWire, false), BackendChoice::PipeWire));
    assert!(matches!(select_backend(AudioBackend::Cpal, true), BackendChoice::Cpal));
}

#[test]
fn ogg_output_sits_beside_the_wav() {
    assert_eq!(ogg_output_path("dir/session.wav"), "dir/session.ogg");
    assert_eq!(ogg_output_path("noext"), "noext.ogg");
    assert_eq!(ogg_output_path("dir.d/noext"), "dir.d/noext.ogg");
}

#[test]
fn suitable_config_prefers_exact_then_rate_then_first() {
    let cfg = |channels: u16, min: u32, max: u32| DeviceConfig {
        channels,
        min_sample_rate: min,
        max_sample_rate: max,
    };

    // Exact channel-and-rate match wins, even when listed later.
    let configs = vec![cfg(2, 8000, 48000), cfg(1, 8000, 48000)];
    assert_eq!(find_suitable_config(&configs, 16000, 1), Some((1, 16000)));

    // No channel match: the first configuration accepting the rate.
    let configs = vec![cfg(2, 44100, 48000), cfg(2, 8000, 48000)];
    assert_eq!(find_suitable_config(&configs, 16000, 1), Some((1, 16000)));

    // No configuration accepts the rate: the first at its top rate.
    let configs = vec![cfg(2, 44100, 48000), cfg(1, 44100, 44100)];
    assert_eq!(find_suitable_config(&configs, 16000, 1), Some((0, 48000)));

    // No configurations at all.
    assert_eq!(find_suitable_config(&Vec::new(), 16000, 1), None);
}
