//! OGG/Opus container encoding.
//!
//! The container is assembled here byte-exactly: two header pages (the
//! Opus identification and comment packets), then one page per encoded
//! audio frame, with the granule position advancing by the frame size,
//! sequence numbers counting up from zero, and the final short frame
//! flagged end-of-stream. The Opus codec itself produces the compressed
//! packets; this module fixes everything around them.

use vstd::prelude::*;
use vstd::string::StringExecFns;
use crate::text::{digit_str, spec_decimal_digits, spec_digit_char, u64_to_string};
use crate::ogg::{
    spec_ogg_page, spec_opus_comment_header, spec_opus_id_header, write_ogg_page,
    create_opus_comment_header, create_opus_id_header, MAX_PAGE_PAYLOAD,
};

verus! {

/// Why a sample set cannot be encoded.
#[derive(Clone, Copy, PartialEq, Eq, Structural, Debug)]
pub enum CodecError {
    /// The input holds no samples at all.
    EmptySamples,
    /// The channel count is neither mono nor stereo.
    UnsupportedChannelCount,
    /// The sample width of the input is not one this encoder reads.
    UnsupportedBitDepth,
}

/// Whether the encoder reads samples of this width: 16- and 32-bit
/// integers, and floats of any width, which are scaled on reading.
pub fn supported_bit_depth(bits_per_sample: u16, is_float: bool) -> (r: bool)
    ensures
        r <==> (is_float || bits_per_sample == 16 || bits_per_sample == 32),
{
    is_float || bits_per_sample == 16 || bits_per_sample == 32
}

/// Validate what is about to be encoded: there must be samples at all,
/// and the channel count must be mono or stereo. Exactly the offending
/// error comes back, the empty input reported first.
pub fn check_encode_input(sample_count: usize, channels: u8) -> (r: Result<(), CodecError>)
    ensures
        r is Ok <==> (sample_count > 0 && (channels == 1 || channels == 2)),
        sample_count == 0 ==> (r matches Err(e) && e is EmptySamples),
        sample_count > 0 && !(channels == 1 || channels == 2) ==> (r matches Err(e) && e
            is UnsupportedChannelCount),
{
    if sample_count == 0 {
        Err(CodecError::EmptySamples)
    } else if channels == 1 || channels == 2 {
        Ok(())
    } else {
        Err(CodecError::UnsupportedChannelCount)
    }
}

/// How many fixed-size frames a sample run of `len` fills, the final
/// frame possibly padded.
pub open spec fn spec_frame_count(len: nat, samples_per_frame: nat) -> nat {
    (((len + samples_per_frame - 1) as int) / (samples_per_frame as int)) as nat
}

/// Frame `i` of a sample run: the slice of `samples_per_frame` samples
/// starting at `i * samples_per_frame`, zero-padded at the tail.
pub open spec fn spec_frame(samples: Seq<i16>, samples_per_frame: nat, i: int) -> Seq<i16> {
    Seq::new(
        samples_per_frame,
        |j: int|
            if i * samples_per_frame + j < samples.len() {
                samples[i * samples_per_frame + j]
            } else {
                0i16
            },
    )
}

/// Split samples into fixed-size encoder frames, zero-padding the final
/// short frame to full length.
#[verifier::rlimit(50)]
pub fn opus_frames(samples: &[i16], samples_per_frame: usize) -> (frames: Vec<Vec<i16>>)
    requires
        samples_per_frame > 0,
        samples@.len() + samples_per_frame <= usize::MAX,
    ensures
        frames@.len() == spec_frame_count(samples@.len(), samples_per_frame as nat),
        forall|i: int|
            0 <= i < frames@.len() ==> frames@[i]@ == spec_frame(
                samples@,
                samples_per_frame as nat,
                i,
            ),
{
    let mut frames: Vec<Vec<i16>> = Vec::new();
    let mut start: usize = 0;
    proof {
        assert(frames@.len() * samples_per_frame == 0) by (nonlinear_arith)
            requires
                frames@.len() == 0,
        ;
    }
    while start < samples.len()
        invariant
            samples_per_frame > 0,
            samples@.len() + samples_per_frame <= usize::MAX,
            start == frames@.len() * samples_per_frame,
            start < samples@.len() + samples_per_frame,
            frames@.len() > 0 ==> (frames@.len() - 1) * samples_per_frame < samples@.len(),
            forall|i: int|
                0 <= i < frames@.len() ==> frames@[i]@ == spec_frame(
                    samples@,
                    samples_per_frame as nat,
                    i,
                ),
        decreases samples@.len() + samples_per_frame - start,
    {
        let mut frame: Vec<i16> = Vec::new();
        let mut j: usize = 0;
        while j < samples_per_frame
            invariant
                j <= samples_per_frame,
                frame@.len() == j,
                start < samples@.len(),
                samples@.len() + samples_per_frame <= usize::MAX,
                start == frames@.len() * samples_per_frame,
                forall|k: int|
                    0 <= k < j ==> frame@[k] == (if start + k < samples@.len() {
                        samples@[start + k]
                    } else {
                        0i16
                    }),
        decreases samples_per_frame - j,
        {
            if start + j < samples.len() {
                frame.push(samples[start + j]);
            } else {
                frame.push(0i16);
            }
            j += 1;
        }
        proof {
            assert(frame@ =~= spec_frame(samples@, samples_per_frame as nat, frames@.len() as int));
        }
        frames.push(frame);
        start += samples_per_frame;
        proof {
            let n = frames@.len() as int;
            assert(n * samples_per_frame == (n - 1) * samples_per_frame + samples_per_frame)
                by (nonlinear_arith);
        }
    }
    proof {
        let n = frames@.len() as nat;
        let len = samples@.len();
        let spf = samples_per_frame as nat;
        assert(n * spf >= len && (n > 0 ==> (n - 1) * spf < len));
        assert(n == spec_frame_count(len, spf)) by (nonlinear_arith)
            requires
                spf > 0,
                n * spf >= len,
                n > 0 ==> (n - 1) * spf < len,
        ;
    }
    frames
}

/// Map 32-bit integer samples to 16-bit ones by dropping the low half.
pub fn normalize_i32_samples(samples: &Vec<i32>) -> (out: Vec<i16>)
    ensures
        out@.len() == samples@.len(),
        forall|i: int| 0 <= i < samples@.len() ==> out@[i] == (samples@[i] >> 16u32) as i16,
{
    let mut out: Vec<i16> = Vec::new();
    let mut i: usize = 0;
    while i < samples.len()
        invariant
            i <= samples@.len(),
            out@.len() == i,
            forall|k: int| 0 <= k < i ==> out@[k] == (samples@[k] >> 16u32) as i16,
        decreases samples@.len() - i,
    {
        let s = samples[i];
        proof {
            assert(-32768 <= (s >> 16u32) <= 32767) by (bit_vector);
        }
        let shifted: i32 = s >> 16u32;
        out.push(shifted as i16);
        i += 1;
    }
    out
}

/// The audio pages of a stream: page `i` (numbered from 2, after the two
/// header pages) carries packet `i` at granule `(i + 1) * frame_size`;
/// only a final packet born of a short frame is flagged end-of-stream.
pub open spec fn spec_audio_pages(
    serial: u32,
    frame_size: u64,
    packets: Seq<Seq<u8>>,
    last_frame_short: bool,
    n: int,
) -> Seq<u8>
    decreases n,
{
    if n <= 0 {
        Seq::empty()
    } else {
        spec_audio_pages(serial, frame_size, packets, last_frame_short, n - 1) + spec_ogg_page(
            serial,
            (n * frame_size) as u64,
            if last_frame_short && n == packets.len() {
                4u8
            } else {
                0u8
            },
            (n + 1) as u32,
            packets[n - 1],
        )
    }
}

/// A full OGG/Opus stream: identification page, comment page, then the
/// audio pages.
pub open spec fn spec_ogg_opus_stream(
    serial: u32,
    channels: u8,
    sample_rate: u32,
    frame_size: u64,
    packets: Seq<Seq<u8>>,
    last_frame_short: bool,
) -> Seq<u8> {
    spec_ogg_page(serial, 0, 2, 0, spec_opus_id_header(channels, sample_rate)) + spec_ogg_page(
        serial,
        0,
        0,
        1,
        spec_opus_comment_header(),
    ) + spec_audio_pages(serial, frame_size, packets, last_frame_short, packets.len() as int)
}

/// OGG/Opus encoder configuration.
pub struct OggEncoder {
    /// Sample rate of the source audio in Hz.
    pub sample_rate: u32,
    /// Number of channels, 1 or 2.
    pub channels: u8,
    /// Target bitrate in bits per second.
    pub bitrate: u32,
}

impl OggEncoder {
    /// Create an encoder for the given sample rate, channel count and
    /// bitrate.
    pub fn new(sample_rate: u32, channels: u8, bitrate: u32) -> (r: Self)
        ensures
            r.sample_rate == sample_rate,
            r.channels == channels,
            r.bitrate == bitrate,
    {
        Self { sample_rate, channels, bitrate }
    }

    /// An encoder with the defaults for speech: 16 kHz, mono, 24 kbps.
    pub fn for_speech() -> (r: Self)
        ensures
            r.sample_rate == 16000,
            r.channels == 1,
            r.bitrate == 24000,
    {
        Self::new(16000, 1, 24000)
    }

    /// The configured bitrate.
    pub fn bitrate(&self) -> (r: u32)
        ensures
            r == self.bitrate,
    {
        self.bitrate
    }

    /// Samples per channel in one 20 ms frame.
    pub fn frame_size(&self) -> (r: usize)
        ensures
            r == self.sample_rate as int / 50,
    {
        (self.sample_rate / 50) as usize
    }

    /// Samples across all channels in one 20 ms frame.
    pub fn samples_per_frame(&self) -> (r: usize)
        requires
            (self.sample_rate as int / 50) * self.channels as int <= usize::MAX,
        ensures
            r == (self.sample_rate as int / 50) * self.channels as int,
    {
        self.frame_size() * (self.channels as usize)
    }

    /// Assemble the container from the per-frame Opus packets.
    ///
    /// `packets` are the codec's outputs, one per frame, empty ones
    /// already dropped; `last_frame_short` says whether the final packet
    /// came from the padded trailing frame, which marks its page
    /// end-of-stream.
    pub fn assemble_stream(
        &self,
        serial: u32,
        packets: &Vec<Vec<u8>>,
        last_frame_short: bool,
    ) -> (out: Vec<u8>)
        requires
            forall|i: int| 0 <= i < packets@.len() ==> #[trigger] packets@[i]@.len()
                <= MAX_PAGE_PAYLOAD,
            packets@.len() + 2 <= u32::MAX,
            (packets@.len() + 1) * (self.sample_rate as int / 50) <= u64::MAX,
        ensures
            out@ == spec_ogg_opus_stream(
                serial,
                self.channels,
                self.sample_rate,
                (self.sample_rate / 50) as u64,
                packets@.map_values(|p: Vec<u8>| p@),
                last_frame_short,
            ),
    {
        let frame_size: u64 = (self.sample_rate / 50) as u64;
        let ghost spec_packets = packets@.map_values(|p: Vec<u8>| p@);
        let mut out: Vec<u8> = Vec::new();

        let id_header = create_opus_id_header(self.channels, self.sample_rate);
        write_ogg_page(&mut out, serial, 0, 2, 0, id_header.as_slice());
        let comment_header = create_opus_comment_header();
        write_ogg_page(&mut out, serial, 0, 0, 1, comment_header.as_slice());
        let ghost header_part = out@;

        let mut granule_pos: u64 = 0;
        let mut page_no: u64 = 2;
        let mut i: usize = 0;
        while i < packets.len()
            invariant
                i <= packets@.len(),
                packets@.len() + 2 <= u32::MAX,
                (packets@.len() + 1) * frame_size <= u64::MAX,
                granule_pos == i * frame_size,
                page_no == i + 2,
                spec_packets.len() == packets@.len(),
                forall|k: int| 0 <= k < packets@.len() ==> spec_packets[k] == packets@[k]@,
                forall|k: int| 0 <= k < packets@.len() ==> #[trigger] packets@[k]@.len()
                    <= MAX_PAGE_PAYLOAD,
                out@ == header_part + spec_audio_pages(
                    serial,
                    frame_size,
                    spec_packets,
                    last_frame_short,
                    i as int,
                ),
            decreases packets@.len() - i,
        {
            proof {
                assert(i * frame_size + frame_size == (i + 1) * frame_size && (i + 1) * frame_size
                    <= (packets@.len() + 1) * frame_size) by (nonlinear_arith)
                    requires
                        0 <= i < packets@.len(),
                        frame_size >= 0,
                ;
            }
            granule_pos = granule_pos + frame_size;
            let header_type: u8 = if last_frame_short && i + 1 == packets.len() {
                4
            } else {
                0
            };
            write_ogg_page(
                &mut out,
                serial,
                granule_pos,
                header_type,
                page_no,
                packets[i].as_slice(),
            );
            page_no = page_no + 1;
            i += 1;
        }
        out
    }
}

/// After an encode, the source WAV may be deleted only once the produced
/// OGG file is confirmed present and non-empty; `ogg_len` is its observed
/// length, or `None` where the file is missing.
pub fn may_delete_source_wav(ogg_len: Option<u64>) -> (r: bool)
    ensures
        r <==> (ogg_len matches Some(n) && n > 0),
{
    match ogg_len {
        Some(n) => n > 0,
        None => false,
    }
}

/// The quotient of `10 * n / d` rounded to the nearest integer, ties to
/// even: the tenths digit a file-size display shows.
pub open spec fn spec_tenths(n: int, d: int) -> int {
    let q = 10 * n / d;
    let r = 10 * n % d;
    if 2 * r > d {
        q + 1
    } else if 2 * r < d {
        q
    } else if q % 2 == 0 {
        q
    } else {
        q + 1
    }
}

/// A byte count rendered for display: plain bytes below 1 KiB, otherwise
/// KiB or MiB with one rounded decimal.
pub open spec fn spec_format_size(bytes: int) -> Seq<char> {
    if bytes < 1024 {
        spec_decimal_digits(bytes) + seq![' ', 'B']
    } else if bytes < 1024 * 1024 {
        let t = spec_tenths(bytes, 1024);
        spec_decimal_digits(t / 10) + seq!['.', spec_digit_char(t % 10)] + seq![' ', 'K', 'B']
    } else {
        let t = spec_tenths(bytes, (1024 * 1024) as int);
        spec_decimal_digits(t / 10) + seq!['.', spec_digit_char(t % 10)] + seq![' ', 'M', 'B']
    }
}

fn one_decimal(n: u64, d: u64) -> (r: String)
    requires
        d == 1024 || d == 1024 * 1024,
        n >= d,
    ensures
        r@ == spec_decimal_digits(spec_tenths(n as int, d as int) / 10) + seq![
            '.',
            spec_digit_char(spec_tenths(n as int, d as int) % 10),
        ],
{
    proof {
        reveal_strlit(".");
    }
    let wide: u128 = (n as u128) * 10;
    let dw: u128 = d as u128;
    let q: u128 = wide / dw;
    let rem: u128 = wide % dw;
    let t: u128 = if 2 * rem > dw {
        q + 1
    } else if 2 * rem < dw {
        q
    } else if q % 2 == 0 {
        q
    } else {
        q + 1
    };
    proof {
        assert(t == spec_tenths(n as int, d as int));
        assert(t <= wide);
    }
    let whole: u64 = (t / 10) as u64;
    let frac: u64 = (t % 10) as u64;
    let mut s = u64_to_string(whole);
    s.append(".");
    s.append(digit_str(frac));
    proof {
        assert(s@ =~= spec_decimal_digits(spec_tenths(n as int, d as int) / 10) + seq![
            '.',
            spec_digit_char(spec_tenths(n as int, d as int) % 10),
        ]);
    }
    s
}

/// Render a byte count for display: plain bytes below 1 KiB, otherwise
/// KiB or MiB with one decimal.
pub fn format_size(bytes: u64) -> (r: String)
    ensures
        r@ == spec_format_size(bytes as int),
{
    proof {
        reveal_strlit(" B");
        reveal_strlit(" KB");
        reveal_strlit(" MB");
    }
    if bytes < 1024 {
        let mut s = u64_to_string(bytes);
        s.append(" B");
        proof {
            assert(s@ =~= spec_format_size(bytes as int));
        }
        s
    } else if bytes < 1024 * 1024 {
        let mut s = one_decimal(bytes, 1024);
        s.append(" KB");
        proof {
            assert(s@ =~= spec_format_size(bytes as int));
        }
        s
    } else {
        let mut s = one_decimal(bytes, 1024 * 1024);
        s.append(" MB");
        proof {
            assert(s@ =~= spec_format_size(bytes as int));
        }
        s
    }
}

} // verus!
