//! Transcript segments and the merge pass of the transcription worker.
//!
//! Times are carried in centiseconds, the unit the transcription engine
//! reports. Adjacent segments are merged when the gap between them is
//! under half a second and their speaker tags are equal, both-unset
//! counting as equal; merged segments concatenate their text with a
//! single space and extend the end time.

use vstd::prelude::*;
use vstd::string::StringExecFns;
use crate::text::{push_char, str_eq};

verus! {

/// The gap, in centiseconds, under which adjacent segments merge.
pub const MERGE_GAP_CS: i64 = 50;

/// A segment of transcribed text, times in centiseconds.
pub struct TranscriptSegment {
    /// Storage identifier; zero until the row is persisted.
    pub id: i64,
    /// The recording this segment belongs to.
    pub recording_id: String,
    /// Start time in centiseconds from the recording's beginning.
    pub start_cs: i64,
    /// End time in centiseconds.
    pub end_cs: i64,
    /// The transcribed text.
    pub text: String,
    /// Speaker tag, unset without diarization.
    pub speaker: Option<String>,
}

/// The mathematical view of a segment.
#[verifier::ext_equal]
pub struct SegmentModel {
    /// Storage identifier.
    pub id: int,
    /// The recording this segment belongs to.
    pub recording_id: Seq<char>,
    /// Start time in centiseconds.
    pub start_cs: int,
    /// End time in centiseconds.
    pub end_cs: int,
    /// The transcribed text.
    pub text: Seq<char>,
    /// Speaker tag.
    pub speaker: Option<Seq<char>>,
}

impl View for TranscriptSegment {
    type V = SegmentModel;

    open spec fn view(&self) -> SegmentModel {
        SegmentModel {
            id: self.id as int,
            recording_id: self.recording_id@,
            start_cs: self.start_cs as int,
            end_cs: self.end_cs as int,
            text: self.text@,
            speaker: match self.speaker {
                Some(s) => Some(s@),
                None => None,
            },
        }
    }
}

/// The views of a vector of segments.
pub open spec fn segment_views(segments: Seq<TranscriptSegment>) -> Seq<SegmentModel> {
    segments.map_values(|s: TranscriptSegment| s@)
}

impl TranscriptSegment {
    /// A fresh segment: the given recording, times and text, no storage
    /// id and no speaker yet.
    pub fn new(recording_id: String, start_cs: i64, end_cs: i64, text: String) -> (r:
        TranscriptSegment)
        ensures
            r.id == 0,
            r.recording_id == recording_id,
            r.start_cs == start_cs,
            r.end_cs == end_cs,
            r.text == text,
            r.speaker is None,
    {
        TranscriptSegment { id: 0, recording_id, start_cs, end_cs, text, speaker: None }
    }
}

/// Speaker equality for merging: equal tags, or both unset.
pub open spec fn spec_speaker_eq(a: Option<Seq<char>>, b: Option<Seq<char>>) -> bool {
    match (a, b) {
        (Some(x), Some(y)) => x == y,
        (None, None) => true,
        _ => false,
    }
}

fn speaker_eq(a: &Option<String>, b: &Option<String>) -> (r: bool)
    ensures
        r <==> spec_speaker_eq(
            match a {
                Some(s) => Some(s@),
                None => None,
            },
            match b {
                Some(s) => Some(s@),
                None => None,
            },
        ),
{
    match (a, b) {
        (Some(x), Some(y)) => str_eq(x.as_str(), y.as_str()),
        (None, None) => true,
        _ => false,
    }
}

/// Two segments merged: the first, its end time extended to the
/// second's, the texts joined by a single space.
pub open spec fn spec_merged(cur: SegmentModel, next: SegmentModel) -> SegmentModel {
    SegmentModel {
        end_cs: next.end_cs,
        text: cur.text + seq![' '] + next.text,
        ..cur
    }
}

/// The merge pass, carrying the segment under construction: each
/// following segment either extends it — gap under half a second, equal
/// speakers — or flushes it.
pub open spec fn spec_merge_from(cur: SegmentModel, rest: Seq<SegmentModel>) -> Seq<SegmentModel>
    decreases rest.len(),
{
    if rest.len() == 0 {
        seq![cur]
    } else {
        let next = rest[0];
        if next.start_cs - cur.end_cs < MERGE_GAP_CS && spec_speaker_eq(cur.speaker, next.speaker) {
            spec_merge_from(spec_merged(cur, next), rest.drop_first())
        } else {
            seq![cur] + spec_merge_from(next, rest.drop_first())
        }
    }
}

/// The merged form of a segment run: empty stays empty; otherwise the
/// merge pass from its first segment.
pub open spec fn spec_merge(segments: Seq<SegmentModel>) -> Seq<SegmentModel> {
    if segments.len() == 0 {
        Seq::empty()
    } else {
        spec_merge_from(segments[0], segments.drop_first())
    }
}

/// Merge adjacent segments with small gaps: a gap under half a second
/// between segments of one speaker — both-unset counting as one —
/// joins them, concatenating their text with a single space.
pub fn merge_segments(segments: Vec<TranscriptSegment>) -> (r: Vec<TranscriptSegment>)
    ensures
        segment_views(r@) == spec_merge(segment_views(segments@)),
{
    let ghost all = segment_views(segments@);
    let mut input = segments;
    if input.len() == 0 {
        proof {
            assert(segment_views(input@) =~= Seq::<SegmentModel>::empty());
        }
        return input;
    }
    let mut merged: Vec<TranscriptSegment> = Vec::new();
    let mut rest = input.split_off(1);
    let current_opt = input.pop();
    let mut current = match current_opt {
        Some(c) => c,
        None => {
            proof {
                assert(false);
            }
            return Vec::new();
        }
    };
    proof {
        assert(all.drop_first() =~= segment_views(rest@));
        assert(all[0] == current@);
        assert(spec_merge(all) == spec_merge_from(current@, segment_views(rest@)));
        assert(segment_views(rest@).skip(0) =~= segment_views(rest@));
        assert(segment_views(merged@) + spec_merge_from(current@, segment_views(rest@))
            =~= spec_merge_from(current@, segment_views(rest@)));
    }

    let mut i: usize = 0;
    while i < rest.len()
        invariant
            i <= rest@.len(),
            spec_merge(all) == segment_views(merged@) + spec_merge_from(
                current@,
                segment_views(rest@).skip(i as int),
            ),
        decreases rest@.len() - i,
    {
        proof {
            assert(segment_views(rest@).skip(i as int)[0] == rest@[i as int]@);
            assert(segment_views(rest@).skip(i as int).drop_first() =~= segment_views(
                rest@,
            ).skip(i + 1));
        }
        let gap: i128 = (rest[i].start_cs as i128) - (current.end_cs as i128);
        if gap < (MERGE_GAP_CS as i128) && speaker_eq(&current.speaker, &rest[i].speaker) {
            let ghost cur0 = current@;
            current.end_cs = rest[i].end_cs;
            push_char(&mut current.text, ' ');
            current.text.append(rest[i].text.as_str());
            proof {
                assert(current@ =~= spec_merged(cur0, rest@[i as int]@));
            }
        } else {
            let ghost merged0 = merged@;
            let ghost cur0 = current@;
            let next = rest[i].clone_segment();
            proof {
                assert(next@ == rest@[i as int]@);
            }
            let prev = current;
            current = next;
            merged.push(prev);
            proof {
                assert(segment_views(merged@) =~= segment_views(merged0) + seq![cur0]);
                assert(segment_views(merged0) + (seq![cur0] + spec_merge_from(
                    rest@[i as int]@,
                    segment_views(rest@).skip(i + 1),
                )) =~= segment_views(merged@) + spec_merge_from(
                    rest@[i as int]@,
                    segment_views(rest@).skip(i + 1),
                ));
            }
        }
        i += 1;
    }
    proof {
        assert(segment_views(rest@).skip(rest@.len() as int) =~= Seq::<SegmentModel>::empty());
    }
    let ghost merged0 = merged@;
    let ghost cur0 = current@;
    merged.push(current);
    proof {
        assert(segment_views(merged@) =~= segment_views(merged0) + seq![cur0]);
    }
    merged
}

impl TranscriptSegment {
    /// An identical copy of this segment.
    pub fn clone_segment(&self) -> (r: TranscriptSegment)
        ensures
            r@ == self@,
            r.id == self.id,
            r.start_cs == self.start_cs,
            r.end_cs == self.end_cs,
    {
        TranscriptSegment {
            id: self.id,
            recording_id: self.recording_id.clone(),
            start_cs: self.start_cs,
            end_cs: self.end_cs,
            text: self.text.clone(),
            speaker: match &self.speaker {
                Some(s) => Some(s.clone()),
                None => None,
            },
        }
    }
}

/// Shift every segment by a chunk's offset, start and end alike.
pub fn shift_segments(segments: &mut Vec<TranscriptSegment>, offset_cs: i64)
    requires
        forall|i: int|
            0 <= i < old(segments)@.len() ==> i64::MIN <= #[trigger] old(
                segments,
            )@[i].start_cs + offset_cs <= i64::MAX && i64::MIN <= old(segments)@[i].end_cs
                + offset_cs <= i64::MAX,
    ensures
        final(segments)@.len() == old(segments)@.len(),
        forall|i: int|
            0 <= i < old(segments)@.len() ==> {
                let s0 = old(segments)@[i];
                let s1 = #[trigger] final(segments)@[i];
                &&& s1.start_cs == s0.start_cs + offset_cs
                &&& s1.end_cs == s0.end_cs + offset_cs
                &&& s1.id == s0.id
                &&& s1.recording_id == s0.recording_id
                &&& s1.text == s0.text
                &&& s1.speaker == s0.speaker
            },
{
    let n = segments.len();
    let mut i: usize = 0;
    while i < n
        invariant
            i <= n,
            n == segments@.len(),
            segments@.len() == old(segments)@.len(),
            forall|k: int|
                0 <= k < old(segments)@.len() ==> i64::MIN <= #[trigger] old(
                    segments,
                )@[k].start_cs + offset_cs <= i64::MAX && i64::MIN <= old(segments)@[k].end_cs
                    + offset_cs <= i64::MAX,
            forall|k: int|
                i <= k < segments@.len() ==> #[trigger] segments@[k] == old(segments)@[k],
            forall|k: int|
                0 <= k < i ==> {
                    let s0 = old(segments)@[k];
                    let s1 = #[trigger] segments@[k];
                    &&& s1.start_cs == s0.start_cs + offset_cs
                    &&& s1.end_cs == s0.end_cs + offset_cs
                    &&& s1.id == s0.id
                    &&& s1.recording_id == s0.recording_id
                    &&& s1.text == s0.text
                    &&& s1.speaker == s0.speaker
                },
        decreases n - i,
    {
        let s = segments[i].start_cs;
        let e = segments[i].end_cs;
        segments[i].start_cs = s + offset_cs;
        segments[i].end_cs = e + offset_cs;
        i += 1;
    }
}

/// The progress fraction, in thousandths, reported at chunk `index` of
/// `total`: the midpoint of the chunk over the whole.
pub fn chunk_progress_permille(index: usize, total: usize) -> (r: u32)
    requires
        index < total,
        total <= u32::MAX,
    ensures
        r == (index * 1000 + 500) / (total as int),
        r < 1000,
{
    let wide: u64 = (index as u64) * 1000 + 500;
    let r64: u64 = wide / (total as u64);
    proof {
        assert(r64 < 1000) by (nonlinear_arith)
            requires
                r64 == ((index * 1000 + 500) as int) / (total as int),
                index < total,
                total >= 1,
        ;
    }
    r64 as u32
}

} // verus!
