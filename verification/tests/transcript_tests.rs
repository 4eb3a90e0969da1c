use minutes::transcript::{
    chunk_progress_permille, merge_segments, shift_segments, TranscriptSegment,
};

fn seg(start_cs: i64, end_cs: i64, text: &str) -> TranscriptSegment {
    TranscriptSegment::new("rec".to_string(), start_cs, end_cs, text.to_string())
}

#[test]
fn close_segments_of_one_speaker_merge() {
    let merged = merge_segments(vec![seg(0, 100, "hello"), seg(120, 200, "world")]);
    assert_eq!(merged.len(), 1);
    assert_eq!(merged[0].text, "hello world");
    assert_eq!(merged[0].start_cs, 0);
    assert_eq!(merged[0].end_cs, 200);
}

#[test]
fn wide_gaps_keep_segments_apart() {
    let merged = merge_segments(vec![seg(0, 100, "first"), seg(150, 220, "second")]);
    assert_eq!(merged.len(), 2);
    assert_eq!(merged[0].text, "first");
    assert_eq!(merged[1].text, "second");
}

#[test]
fn gap_just_under_half_second_merges() {
    let merged = merge_segments(vec![seg(0, 100, "a"), seg(149, 180, "b")]);
    assert_eq!(merged.len(), 1);
    let merged = merge_segments(vec![seg(0, 100, "a"), seg(150, 180, "b")]);
    assert_eq!(merged.len(), 2);
}

#[test]
fn different_speakers_never_merge() {
    let mut a = seg(0, 100, "a");
    a.speaker = Some("alice".to_string());
    let mut b = seg(110, 200, "b");
    b.speaker = Some("bob".to_string());
    let merged = merge_segments(vec![a, b]);
    assert_eq!(merged.len(), 2);

    let mut c = seg(0, 100, "c");
    c.speaker = Some("alice".to_string());
    let mut d = seg(110, 200, "d");
    d.speaker = Some("alice".to_string());
    let merged = merge_segments(vec![c, d]);
    assert_eq!(merged.len(), 1);
}

#[test]
fn merge_chains_across_many_segments() {
    let merged = merge_segments(vec![
        seg(0, 100, "one"),
        seg(110, 200, "two"),
        seg(300, 400, "three"),
        seg(420, 500, "four"),
    ]);
    assert_eq!(merged.len(), 2);
    assert_eq!(merged[0].text, "one two");
    assert_eq!(merged[0].end_cs, 200);
    assert_eq!(merged[1].text, "three four");
    assert_eq!(merged[1].end_cs, 500);
}

#[test]
fn empty_input_merges_to_empty() {
    assert!(merge_segments(Vec::new()).is_empty());
}

#[test]
fn shifting_moves_both_ends_by_chunk_offset() {
    let mut segments = vec![seg(0, 100, "a"), seg(150, 300, "b")];
    shift_segments(&mut segments, 3000);
    assert_eq!(segments[0].start_cs, 3000);
    assert_eq!(segments[0].end_cs, 3100);
    assert_eq!(segments[1].start_cs, 3150);
    assert_eq!(segments[1].end_cs, 3300);
    assert_eq!(segments[0].text, "a");
}

#[test]
fn progress_is_reported_at_chunk_midpoints() {
    assert_eq!(chunk_progress_permille(0, 2), 250);
    assert_eq!(chunk_progress_permille(1, 2), 750);
    assert_eq!(chunk_progress_permille(0, 1), 500);
    assert_eq!(chunk_progress_permille(3, 10), 350);
}

#[test]
fn new_segment_starts_unpersisted_and_unattributed() {
    let s = seg(10, 20, "text");
    assert_eq!(s.id, 0);
    assert_eq!(s.recording_id, "rec");
    assert!(s.speaker.is_none());
}
