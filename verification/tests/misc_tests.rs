use minutes::settings::{
    default_channels, default_llm_model, default_llm_provider, default_log_level, default_model,
    default_ogg_bitrate, default_recent_count, default_sample_rate, default_theme, default_true,
    model_file_path, LlmSettings, TuiSettings, WhisperSettings,
};
use minutes::storage::{DatabaseStats, Recording, RecordingState};
use minutes::summary::build_summary_prompt;
use minutes::text::format_duration;

#[test]
fn state_tags_round_trip() {
    let states = [
        RecordingState::Recording,
        RecordingState::Pending,
        RecordingState::Transcribing,
        RecordingState::Completed,
        RecordingState::Failed,
    ];
    for state in states {
        assert_eq!(RecordingState::from_str(state.as_str()), Some(state));
    }
    assert_eq!(RecordingState::Recording.as_str(), "recording");
    assert_eq!(RecordingState::Pending.as_str(), "pending");
    assert_eq!(RecordingState::from_str("bogus"), None);
    assert_eq!(RecordingState::from_str(""), None);
}

#[test]
fn new_recording_has_fresh_id_and_recording_state() {
    let r = Recording::new("Weekly sync".to_string());
    assert_eq!(r.id.len(), 36);
    assert_eq!(r.title, "Weekly sync");
    assert_eq!(r.state, RecordingState::Recording);
    assert!(r.audio_path.is_none());
    assert!(r.duration_secs.is_none());
    assert_eq!(r.created_at, r.updated_at);
    assert!(r.tags.is_empty());

    let other = Recording::new("Another".to_string());
    assert_ne!(r.id, other.id);
}

#[test]
fn defaults_to_gemini_25_flash() {
    let settings = LlmSettings::default();
    assert_eq!(settings.model, "gemini-2.5-flash");
}

#[test]
fn default_values_match_documentation() {
    assert_eq!(default_log_level(), "info");
    assert_eq!(default_sample_rate(), 16000);
    assert_eq!(default_channels(), 1);
    assert!(default_true());
    assert_eq!(default_ogg_bitrate(), 24000);
    assert_eq!(default_model(), "base");
    assert_eq!(default_llm_provider(), "gemini");
    assert_eq!(default_llm_model(), "gemini-2.5-flash");
    assert_eq!(default_recent_count(), 5);
    assert_eq!(default_theme(), "dark");

    let whisper = WhisperSettings::default();
    assert_eq!(whisper.model, "base");
    assert!(!whisper.translate);
    assert_eq!(whisper.threads, 0);

    let tui = TuiSettings::default();
    assert!(tui.show_timestamps);
    assert_eq!(tui.recent_count, 5);
    assert_eq!(tui.theme, "dark");
}

#[test]
fn model_path_is_built_from_dir_and_name() {
    assert_eq!(model_file_path("/data/models", "base"), "/data/models/ggml-base.bin");
}

#[test]
fn summary_prompt_wraps_title_and_transcript() {
    let prompt = build_summary_prompt("Standup", "[00:00] hello");
    let expected = "You are an assistant that writes concise, factual meeting summaries.\n\
Meeting title: Standup\n\
\n\
Return Markdown with exactly these sections:\n\
1. ## Summary (3-6 bullets)\n\
2. ## Decisions\n\
3. ## Action Items\n\
4. ## Open Questions\n\
\n\
Rules:\n\
- Use only information present in the transcript.\n\
- If a section has no content, write 'None'.\n\
- Keep each bullet short and concrete.\n\
\n\
Transcript:\n\
[00:00] hello";
    assert_eq!(prompt, expected);
}

#[test]
fn durations_render_as_minutes_or_hours() {
    assert_eq!(format_duration(0), "0:00");
    assert_eq!(format_duration(75), "1:15");
    assert_eq!(format_duration(3599), "59:59");
    assert_eq!(format_duration(3661), "1:01:01");
    assert_eq!(format_duration(7200), "2:00:00");
}

#[test]
fn stats_hold_plain_totals() {
    let stats = DatabaseStats { total_recordings: 2, total_segments: 10, total_duration_secs: 90 };
    assert_eq!(stats.total_recordings, 2);
    assert_eq!(stats.total_segments, 10);
    assert_eq!(stats.total_duration_secs, 90);
}
