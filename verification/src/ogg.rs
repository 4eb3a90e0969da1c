//! OGG page framing and the two Opus header packets.
//!
//! Every page is laid out byte-exactly: capture pattern, version, type
//! flags, 64-bit little-endian granule position, 32-bit little-endian
//! stream serial, 32-bit little-endian page sequence number, CRC-32
//! (computed with the CRC field zeroed), one-byte segment count, the
//! segment table, then the raw payload.

use vstd::prelude::*;
use vstd::bytes::{
    spec_u16_to_le_bytes, spec_u32_to_le_bytes, spec_u64_to_le_bytes,
    lemma_auto_spec_u16_to_from_le_bytes, lemma_auto_spec_u32_to_from_le_bytes,
    lemma_auto_spec_u64_to_from_le_bytes, u16_to_le_bytes, u32_to_le_bytes, u64_to_le_bytes,
};
use crate::crc::{ogg_crc, spec_ogg_crc};

verus! {

/// A payload must fit the one-byte segment count: at most 254 full
/// 255-byte lanes before the final short lane.
pub const MAX_PAGE_PAYLOAD: usize = 65024;

/// How many segment-table entries a payload of `len` bytes takes: one
/// full 255-byte lane per complete 255 bytes, then one final lane of the
/// remainder. The final lane is zero-length for an empty payload and for
/// one that is an exact multiple of 255 — a lacing value of 255 means
/// the packet continues, so an aligned payload must end in a zero lane.
pub open spec fn spec_segment_count(len: nat) -> nat {
    len / 255 + 1
}

/// Entry `i` of the segment table for a payload of `len` bytes: 255 for
/// every lane but the last, and the remainder for the last.
pub open spec fn spec_lacing(len: nat, i: int) -> u8 {
    if i < spec_segment_count(len) - 1 {
        255u8
    } else {
        (len % 255) as u8
    }
}

/// The whole segment table for a payload of `len` bytes.
pub open spec fn spec_segment_table(len: nat) -> Seq<u8> {
    Seq::new(spec_segment_count(len), |i: int| spec_lacing(len, i))
}

/// The first 22 bytes of a page header: capture pattern `OggS`, version 0,
/// type flags, granule position, serial, page sequence number.
pub open spec fn spec_page_prefix(serial: u32, granule_pos: u64, header_type: u8, page_no: u32)
    -> Seq<u8> {
    seq![79u8, 103u8, 103u8, 83u8, 0u8, header_type]
        + spec_u64_to_le_bytes(granule_pos)
        + spec_u32_to_le_bytes(serial)
        + spec_u32_to_le_bytes(page_no)
}

/// The full page header with the CRC field still zero: prefix, zero CRC,
/// segment count, segment table.
pub open spec fn spec_zero_crc_header(
    serial: u32,
    granule_pos: u64,
    header_type: u8,
    page_no: u32,
    len: nat,
) -> Seq<u8> {
    spec_page_prefix(serial, granule_pos, header_type, page_no)
        + spec_u32_to_le_bytes(0)
        + seq![spec_segment_count(len) as u8]
        + spec_segment_table(len)
}

/// A complete OGG page: the header with the real CRC patched in, then the
/// payload. The CRC is computed over the zero-CRC header and the payload.
pub open spec fn spec_ogg_page(
    serial: u32,
    granule_pos: u64,
    header_type: u8,
    page_no: u32,
    data: Seq<u8>,
) -> Seq<u8> {
    let zeroed = spec_zero_crc_header(serial, granule_pos, header_type, page_no, data.len());
    let crc = spec_ogg_crc(zeroed, data);
    spec_page_prefix(serial, granule_pos, header_type, page_no)
        + spec_u32_to_le_bytes(crc)
        + seq![spec_segment_count(data.len()) as u8]
        + spec_segment_table(data.len())
        + data
}

/// The byte lengths of the little-endian encodings, which `vstd` keeps
/// behind closed spec functions.
proof fn le_bytes_facts()
    ensures
        forall|x: u16| (#[trigger] spec_u16_to_le_bytes(x)).len() == 2,
        forall|x: u32| (#[trigger] spec_u32_to_le_bytes(x)).len() == 4,
        forall|x: u64| (#[trigger] spec_u64_to_le_bytes(x)).len() == 8,
{
    lemma_auto_spec_u16_to_from_le_bytes();
    lemma_auto_spec_u32_to_from_le_bytes();
    lemma_auto_spec_u64_to_from_le_bytes();
}

/// The segment count of a payload that fits a page is itself a byte,
/// and the final lane holds under 255 bytes.
proof fn lemma_segment_bounds(len: nat)
    requires
        len <= MAX_PAGE_PAYLOAD,
    ensures
        1 <= spec_segment_count(len) <= 255,
        0 <= len % 255 < 255,
        255 * (spec_segment_count(len) - 1) + len % 255 == len,
{
    assert(255 * (len / 255) + len % 255 == len) by (nonlinear_arith);
}

/// Append one OGG page for `data` to `out`.
///
/// The page carries the given serial, granule position, header-type flags
/// and sequence number; its CRC is computed with the CRC field zeroed, so
/// the bytes previously in `out` play no part in it.
pub fn write_ogg_page(
    out: &mut Vec<u8>,
    serial: u32,
    granule_pos: u64,
    header_type: u8,
    page_no: u64,
    data: &[u8],
)
    requires
        data@.len() <= MAX_PAGE_PAYLOAD,
        page_no <= u32::MAX,
    ensures
        final(out)@ == old(out)@ + spec_ogg_page(
            serial,
            granule_pos,
            header_type,
            page_no as u32,
            data@,
        ),
{
    proof {
        le_bytes_facts();
        lemma_segment_bounds(data@.len());
    }

    // Header with a zeroed CRC field.
    let mut header: Vec<u8> = Vec::new();
    header.push(79u8);  // 'O'
    header.push(103u8);  // 'g'
    header.push(103u8);  // 'g'
    header.push(83u8);  // 'S'
    header.push(0u8);  // version
    header.push(header_type);
    let mut granule_bytes = u64_to_le_bytes(granule_pos);
    header.append(&mut granule_bytes);
    let mut serial_bytes = u32_to_le_bytes(serial);
    header.append(&mut serial_bytes);
    let mut page_no_bytes = u32_to_le_bytes(page_no as u32);
    header.append(&mut page_no_bytes);
    proof {
        assert(header@ =~= spec_page_prefix(serial, granule_pos, header_type, page_no as u32));
    }
    let ghost prefix = header@;

    let mut crc_zero = u32_to_le_bytes(0u32);
    header.append(&mut crc_zero);

    let segment_count: usize = data.len() / 255 + 1;
    header.push(segment_count as u8);

    // Full 255-byte lanes, then the final short (possibly zero) lane.
    let ghost len = data@.len();
    let mut k: usize = 0;
    while k < segment_count - 1
        invariant
            segment_count == spec_segment_count(len),
            1 <= segment_count <= 255,
            k <= segment_count - 1,
            header@.len() == 27 + k,
            header@.subrange(0, 27) =~= prefix + spec_u32_to_le_bytes(0) + seq![
                segment_count as u8,
            ],
            forall|i: int| 0 <= i < k ==> header@[27 + i] == spec_lacing(len, i),
        decreases segment_count - k,
    {
        header.push(255u8);
        k += 1;
    }
    header.push((data.len() % 255) as u8);
    proof {
        assert(header@ =~= spec_zero_crc_header(
            serial,
            granule_pos,
            header_type,
            page_no as u32,
            len,
        ));
    }

    let crc = ogg_crc(header.as_slice(), data);

    // Emit the header with the CRC patched in, then the payload.
    let mut i: usize = 0;
    while i < 22
        invariant
            i <= 22,
            header@.len() >= 27,
            out@ == old(out)@ + header@.subrange(0, i as int),
        decreases 22 - i,
    {
        out.push(header[i]);
        i += 1;
        proof {
            assert(old(out)@ + header@.subrange(0, i - 1) + seq![header@[i - 1]] =~= old(out)@
                + header@.subrange(0, i as int));
        }
    }
    let mut crc_bytes = u32_to_le_bytes(crc);
    out.append(&mut crc_bytes);
    let mut i: usize = 26;
    while i < header.len()
        invariant
            26 <= i <= header@.len(),
            header@.len() >= 27,
            out@ == old(out)@ + header@.subrange(0, 22) + spec_u32_to_le_bytes(crc)
                + header@.subrange(26, i as int),
        decreases header@.len() - i,
    {
        out.push(header[i]);
        i += 1;
        proof {
            assert(old(out)@ + header@.subrange(0, 22) + spec_u32_to_le_bytes(crc)
                + header@.subrange(26, i - 1) + seq![header@[i - 1]] =~= old(out)@
                + header@.subrange(0, 22) + spec_u32_to_le_bytes(crc) + header@.subrange(
                26,
                i as int,
            ));
        }
    }
    let ghost before_data = out@;
    let mut i: usize = 0;
    while i < data.len()
        invariant
            i <= data@.len(),
            out@ == before_data + data@.subrange(0, i as int),
        decreases data@.len() - i,
    {
        out.push(data[i]);
        i += 1;
        proof {
            assert(before_data + data@.subrange(0, i - 1) + seq![data@[i - 1]] =~= before_data
                + data@.subrange(0, i as int));
        }
    }
    proof {
        assert(data@.subrange(0, data@.len() as int) =~= data@);
        let zeroed = spec_zero_crc_header(serial, granule_pos, header_type, page_no as u32, len);
        assert(header@.subrange(0, 22) =~= spec_page_prefix(
            serial,
            granule_pos,
            header_type,
            page_no as u32,
        ));
        assert(header@.subrange(26, header@.len() as int) =~= seq![spec_segment_count(len) as u8]
            + spec_segment_table(len));
        assert(out@ =~= old(out)@ + spec_ogg_page(
            serial,
            granule_pos,
            header_type,
            page_no as u32,
            data@,
        ));
    }
}

/// The segment table of a page: one full 255-byte lane per complete 255
/// bytes of payload, closed by a final lane of the remainder. The lanes
/// sum to the payload length; an empty payload takes exactly one entry,
/// of length zero; and a payload that is an exact multiple of 255 ends
/// in a zero-length lane, since a final lacing value of 255 would say
/// the packet continues on the next page.
pub proof fn lemma_segment_table(len: nat)
    requires
        len <= MAX_PAGE_PAYLOAD,
    ensures
        spec_segment_table(len).len() == spec_segment_count(len) == len / 255 + 1,
        forall|i: int|
            0 <= i < spec_segment_count(len) - 1 ==> spec_segment_table(len)[i] == 255u8,
        spec_segment_table(len).last() == (len % 255) as u8,
        255 * (spec_segment_count(len) - 1) + len % 255 == len,
        len == 0 ==> spec_segment_table(len) =~= seq![0u8],
        len % 255 == 0 ==> spec_segment_table(len).last() == 0u8,
{
    lemma_segment_bounds(len);
}

/// The layout of a page: 26 header bytes, the segment count byte, the
/// segment table, then the payload; byte 26 holds the segment count.
pub proof fn lemma_page_layout(
    serial: u32,
    granule_pos: u64,
    header_type: u8,
    page_no: u32,
    data: Seq<u8>,
)
    requires
        data.len() <= MAX_PAGE_PAYLOAD,
    ensures
        spec_ogg_page(serial, granule_pos, header_type, page_no, data).len() == 27
            + spec_segment_count(data.len()) + data.len(),
        spec_ogg_page(serial, granule_pos, header_type, page_no, data)[26] == spec_segment_count(
            data.len(),
        ) as u8,
{
    le_bytes_facts();
    lemma_segment_bounds(data.len());
}

/// The Opus identification packet: magic `OpusHead`, version 1, channel
/// count, little-endian pre-skip of 312, little-endian input sample rate,
/// zero output gain, channel-mapping family 0.
pub open spec fn spec_opus_id_header(channels: u8, sample_rate: u32) -> Seq<u8> {
    seq![79u8, 112u8, 117u8, 115u8, 72u8, 101u8, 97u8, 100u8, 1u8, channels]
        + spec_u16_to_le_bytes(312)
        + spec_u32_to_le_bytes(sample_rate)
        + spec_u16_to_le_bytes(0)
        + seq![0u8]
}

/// Build the Opus identification packet for the given channel count and
/// input sample rate.
pub fn create_opus_id_header(channels: u8, sample_rate: u32) -> (header: Vec<u8>)
    ensures
        header@ == spec_opus_id_header(channels, sample_rate),
        header@.len() == 19,
{
    proof {
        le_bytes_facts();
    }
    let mut header: Vec<u8> = Vec::new();
    header.push(79u8);  // 'O'
    header.push(112u8);  // 'p'
    header.push(117u8);  // 'u'
    header.push(115u8);  // 's'
    header.push(72u8);  // 'H'
    header.push(101u8);  // 'e'
    header.push(97u8);  // 'a'
    header.push(100u8);  // 'd'
    header.push(1u8);  // version
    header.push(channels);
    let mut pre_skip = u16_to_le_bytes(312u16);
    header.append(&mut pre_skip);
    let mut rate = u32_to_le_bytes(sample_rate);
    header.append(&mut rate);
    let mut gain = u16_to_le_bytes(0u16);
    header.append(&mut gain);
    header.push(0u8);  // channel mapping family
    proof {
        assert(header@ =~= spec_opus_id_header(channels, sample_rate));
    }
    header
}

/// The Opus comment packet: magic `OpusTags`, the length-prefixed vendor
/// string `minutes`, and an empty comment list.
pub open spec fn spec_opus_comment_header() -> Seq<u8> {
    seq![79u8, 112u8, 117u8, 115u8, 84u8, 97u8, 103u8, 115u8]
        + spec_u32_to_le_bytes(7)
        + seq![109u8, 105u8, 110u8, 117u8, 116u8, 101u8, 115u8]
        + spec_u32_to_le_bytes(0)
}

/// Build the Opus comment packet.
pub fn create_opus_comment_header() -> (header: Vec<u8>)
    ensures
        header@ == spec_opus_comment_header(),
        header@.len() == 23,
{
    proof {
        le_bytes_facts();
    }
    let mut header: Vec<u8> = Vec::new();
    header.push(79u8);  // 'O'
    header.push(112u8);  // 'p'
    header.push(117u8);  // 'u'
    header.push(115u8);  // 's'
    header.push(84u8);  // 'T'
    header.push(97u8);  // 'a'
    header.push(103u8);  // 'g'
    header.push(115u8);  // 's'
    let mut vendor_len = u32_to_le_bytes(7u32);
    header.append(&mut vendor_len);
    header.push(109u8);  // 'm'
    header.push(105u8);  // 'i'
    header.push(110u8);  // 'n'
    header.push(117u8);  // 'u'
    header.push(116u8);  // 't'
    header.push(101u8);  // 'e'
    header.push(115u8);  // 's'
    let mut comment_count = u32_to_le_bytes(0u32);
    header.append(&mut comment_count);
    proof {
        assert(header@ =~= spec_opus_comment_header());
    }
    header
}

} // verus!
