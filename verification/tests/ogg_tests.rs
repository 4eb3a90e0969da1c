use minutes::crc::{generate_crc_table, ogg_crc};
use minutes::encoder::{
    check_encode_input, format_size, may_delete_source_wav, normalize_i32_samples, opus_frames,
    supported_bit_depth, CodecError, OggEncoder,
};
use minutes::ogg::{create_opus_comment_header, create_opus_id_header, write_ogg_page};

#[test]
fn test_opus_id_header() {
    let header = create_opus_id_header(1, 16000);
    assert_eq!(&header[..8], b"OpusHead");
    assert_eq!(header[8], 1); // version
    assert_eq!(header[9], 1); // mono
}

#[test]
fn test_opus_comment_header() {
    let header = create_opus_comment_header();
    assert_eq!(&header[..8], b"OpusTags");
}

#[test]
fn test_format_size() {
    assert_eq!(format_size(500), "500 B");
    assert_eq!(format_size(2048), "2.0 KB");
    assert_eq!(format_size(1048576), "1.0 MB");
}

#[test]
fn format_size_rounds_one_decimal() {
    assert_eq!(format_size(1023), "1023 B");
    assert_eq!(format_size(1024), "1.0 KB");
    assert_eq!(format_size(1536), "1.5 KB");
    assert_eq!(format_size(10 * 1024 * 1024), "10.0 MB");
}

#[test]
fn id_header_layout_is_exact() {
    let header = create_opus_id_header(2, 48000);
    assert_eq!(header.len(), 19);
    assert_eq!(header[9], 2); // stereo
    assert_eq!(&header[10..12], &312u16.to_le_bytes()); // pre-skip
    assert_eq!(&header[12..16], &48000u32.to_le_bytes()); // input rate
    assert_eq!(&header[16..18], &0u16.to_le_bytes()); // output gain
    assert_eq!(header[18], 0); // mapping family
}

#[test]
fn comment_header_carries_vendor_string() {
    let header = create_opus_comment_header();
    assert_eq!(header.len(), 23);
    assert_eq!(&header[8..12], &7u32.to_le_bytes());
    assert_eq!(&header[12..19], b"minutes");
    assert_eq!(&header[19..23], &0u32.to_le_bytes());
}

#[test]
fn crc_table_matches_known_entries() {
    let table = generate_crc_table();
    assert_eq!(table.len(), 256);
    assert_eq!(table[0], 0);
    assert_eq!(table[1], 0x04c1_1db7);
}

#[test]
fn crc_folds_single_byte_through_table() {
    // With an empty header, the CRC of a one-byte payload is that
    // byte's table entry.
    let crc = ogg_crc(&[], &[0x01]);
    assert_eq!(crc, 0x04c1_1db7);
}

#[test]
fn crc_ignores_prior_crc_field_contents() {
    // Two headers differing only in bytes 22..26 give the same CRC.
    let mut zeroed = vec![7u8; 30];
    let mut garbage = vec![7u8; 30];
    for i in 22..26 {
        zeroed[i] = 0;
        garbage[i] = 0xAB;
    }
    let data = b"payload".to_vec();
    assert_eq!(ogg_crc(&zeroed, &data), ogg_crc(&garbage, &data));
}

#[test]
fn page_segment_table_is_full_lanes_then_remainder() {
    // One full 255-byte lane per complete 255 bytes, then the final
    // lane of the remainder — zero-length when the payload is an exact
    // multiple of 255, since a final lacing of 255 would mean the
    // packet continues.
    for (payload_len, expected_count) in
        [(1usize, 1usize), (254, 1), (255, 2), (256, 2), (300, 2), (509, 2), (510, 3), (511, 3)]
    {
        let data = vec![0x55u8; payload_len];
        let mut out = Vec::new();
        write_ogg_page(&mut out, 1, 0, 0, 0, &data);
        assert_eq!(out[26] as usize, expected_count, "payload {}", payload_len);
        assert_eq!(out.len(), 27 + expected_count + payload_len);
        let lacings = &out[27..27 + expected_count];
        for lane in &lacings[..expected_count - 1] {
            assert_eq!(*lane, 255, "payload {}", payload_len);
        }
        assert_eq!(lacings[expected_count - 1] as usize, payload_len % 255);
        assert_eq!(lacings.iter().map(|l| *l as usize).sum::<usize>(), payload_len);
    }
}

#[test]
fn aligned_payload_page_ends_in_zero_lane() {
    let data = vec![0x11u8; 255];
    let mut out = Vec::new();
    write_ogg_page(&mut out, 1, 0, 0, 0, &data);
    assert_eq!(out[26], 2);
    assert_eq!(out[27], 255);
    assert_eq!(out[28], 0);
}

#[test]
fn empty_payload_page_has_one_zero_segment() {
    let mut out = Vec::new();
    write_ogg_page(&mut out, 1, 0, 0, 0, &[]);
    assert_eq!(out[26], 1); // one segment entry
    assert_eq!(out[27], 0); // of length zero
    assert_eq!(out.len(), 28);
}

#[test]
fn page_header_fields_are_little_endian() {
    let mut out = Vec::new();
    write_ogg_page(&mut out, 0xDEADBEEF, 0x0102030405060708, 4, 9, b"abc");
    assert_eq!(&out[0..4], b"OggS");
    assert_eq!(out[4], 0); // version
    assert_eq!(out[5], 4); // header type
    assert_eq!(&out[6..14], &0x0102030405060708u64.to_le_bytes());
    assert_eq!(&out[14..18], &0xDEADBEEFu32.to_le_bytes());
    assert_eq!(&out[18..22], &9u32.to_le_bytes());
    assert_eq!(out[26], 1);
    assert_eq!(out[27], 3);
    assert_eq!(&out[28..31], b"abc");
}

#[test]
fn page_embeds_crc_of_zeroed_header_and_payload() {
    let data = b"some page payload".to_vec();
    let mut out = Vec::new();
    write_ogg_page(&mut out, 77, 320, 0, 2, &data);
    let header_len = out.len() - data.len();
    let embedded = u32::from_le_bytes([out[22], out[23], out[24], out[25]]);
    // Recompute over the written header: ogg_crc zeroes bytes 22..26
    // itself, so the embedded value must come back out.
    let recomputed = ogg_crc(&out[..header_len], &data);
    assert_eq!(embedded, recomputed);
}

#[test]
fn frames_are_padded_to_full_length() {
    let frames = opus_frames(&[1i16, 2, 3], 2);
    assert_eq!(frames.len(), 2);
    assert_eq!(frames[0], vec![1, 2]);
    assert_eq!(frames[1], vec![3, 0]);
}

#[test]
fn exact_multiple_needs_no_padding() {
    let frames = opus_frames(&[5i16, 6, 7, 8], 2);
    assert_eq!(frames.len(), 2);
    assert_eq!(frames[0], vec![5, 6]);
    assert_eq!(frames[1], vec![7, 8]);
}

#[test]
fn normalize_drops_low_half_of_i32_samples() {
    let out = normalize_i32_samples(&vec![0x7FFF_0000, -0x8000_0000, 0x0001_2345]);
    assert_eq!(out, vec![0x7FFF, -0x8000, 0x0001]);
}

#[test]
fn encoder_defaults_are_for_speech() {
    let enc = OggEncoder::for_speech();
    assert_eq!(enc.bitrate(), 24000);
    assert_eq!(enc.frame_size(), 320);
    assert_eq!(enc.samples_per_frame(), 320);
}

#[test]
fn assembled_stream_pages_advance_granule_and_sequence() {
    let enc = OggEncoder::new(16000, 1, 24000);
    let packets = vec![vec![0xAAu8, 0xBB], vec![0xCCu8]];
    let out = enc.assemble_stream(7, &packets, true);

    // Page one: the identification header, flagged beginning-of-stream.
    assert_eq!(&out[0..4], b"OggS");
    assert_eq!(out[5], 2);
    assert_eq!(&out[28..36], b"OpusHead");
    let p2 = 27 + 1 + 19;
    // Page two: the comment header.
    assert_eq!(&out[p2..p2 + 4], b"OggS");
    assert_eq!(out[p2 + 5], 0);
    let p3 = p2 + 27 + 1 + 23;
    // Page three: first audio frame at granule 320, sequence 2.
    assert_eq!(&out[p3..p3 + 4], b"OggS");
    assert_eq!(out[p3 + 5], 0);
    assert_eq!(&out[p3 + 6..p3 + 14], &320u64.to_le_bytes());
    assert_eq!(&out[p3 + 18..p3 + 22], &2u32.to_le_bytes());
    assert_eq!(&out[p3 + 28..p3 + 30], [0xAA, 0xBB]);
    let p4 = p3 + 27 + 1 + 2;
    // Page four: second audio frame at granule 640, sequence 3,
    // flagged end-of-stream because the final frame was short.
    assert_eq!(&out[p4..p4 + 4], b"OggS");
    assert_eq!(out[p4 + 5], 4);
    assert_eq!(&out[p4 + 6..p4 + 14], &640u64.to_le_bytes());
    assert_eq!(&out[p4 + 18..p4 + 22], &3u32.to_le_bytes());
    assert_eq!(out[p4 + 28], 0xCC);
    assert_eq!(out.len(), p4 + 27 + 1 + 1);
}

#[test]
fn source_wav_kept_unless_ogg_output_nonempty() {
    assert!(!may_delete_source_wav(None));
    assert!(!may_delete_source_wav(Some(0)));
    assert!(may_delete_source_wav(Some(1)));
}

#[test]
fn encode_input_validation_names_the_offence() {
    assert_eq!(check_encode_input(0, 1), Err(CodecError::EmptySamples));
    assert_eq!(check_encode_input(0, 7), Err(CodecError::EmptySamples));
    assert_eq!(check_encode_input(10, 3), Err(CodecError::UnsupportedChannelCount));
    assert_eq!(check_encode_input(10, 1), Ok(()));
    assert_eq!(check_encode_input(10, 2), Ok(()));

    assert!(supported_bit_depth(16, false));
    assert!(supported_bit_depth(32, false));
    assert!(!supported_bit_depth(24, false));
    assert!(supported_bit_depth(32, true));
}
