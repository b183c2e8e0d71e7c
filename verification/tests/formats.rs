use sphn::bytes::{push_i16, push_u16, push_u32, read_i16, read_u16, read_u32};
use sphn::opus::{
    frames, is_head, is_tags, parse_opus_header, write_opus_header, write_opus_tags, Frame,
    OggOpusReader, OpusError, OpusHeader, PacketAction,
};
use sphn::pcm::{deinterleave, interleave, padded_len, slice_packet, PacketSlice};
use sphn::wav::{write_mono, write_multi, write_stereo};

#[test]
fn integers_are_written_low_byte_first() {
    let mut out = vec![9u8];
    push_u16(&mut out, 0x1234);
    push_u32(&mut out, 0xdead_beef);
    push_i16(&mut out, -2);
    push_i16(&mut out, i16::MIN);
    push_i16(&mut out, 258);
    assert_eq!(
        out,
        vec![9, 0x34, 0x12, 0xef, 0xbe, 0xad, 0xde, 0xfe, 0xff, 0x00, 0x80, 0x02, 0x01]
    );
}

#[test]
fn integers_are_read_low_byte_first() {
    assert_eq!(read_u16(0x34, 0x12), 0x1234);
    assert_eq!(read_u16(0xff, 0xff), u16::MAX);
    assert_eq!(read_u32(0xef, 0xbe, 0xad, 0xde), 0xdead_beef);
    assert_eq!(read_i16(0xfe, 0xff), -2);
    assert_eq!(read_i16(0x00, 0x80), i16::MIN);
    assert_eq!(read_i16(0xff, 0x7f), i16::MAX);
    for n in [0i16, 1, -1, 255, 256, -256, 12345, -12345] {
        let b = n.to_le_bytes();
        assert_eq!(read_i16(b[0], b[1]), n);
    }
}

#[test]
fn a_wav_file_of_two_samples_has_these_bytes() {
    let bytes = write_mono(&[1, -2], 16_000);
    let mut expected = Vec::new();
    expected.extend_from_slice(b"RIFF");
    expected.extend_from_slice(&40u32.to_le_bytes());
    expected.extend_from_slice(b"WAVE");
    expected.extend_from_slice(b"fmt ");
    expected.extend_from_slice(&16u32.to_le_bytes());
    expected.extend_from_slice(&1u16.to_le_bytes());
    expected.extend_from_slice(&1u16.to_le_bytes());
    expected.extend_from_slice(&16_000u32.to_le_bytes());
    expected.extend_from_slice(&32_000u32.to_le_bytes());
    expected.extend_from_slice(&2u16.to_le_bytes());
    expected.extend_from_slice(&16u16.to_le_bytes());
    expected.extend_from_slice(b"data");
    expected.extend_from_slice(&4u32.to_le_bytes());
    expected.extend_from_slice(&[0x01, 0x00, 0xfe, 0xff]);
    assert_eq!(bytes, expected);
}

#[test]
fn a_stereo_wav_file_announces_two_channels() {
    let bytes = write_stereo(&[0, 1, 2, 3], 48_000);
    assert_eq!(bytes.len(), 44 + 8);
    assert_eq!(&bytes[4..8], &44u32.to_le_bytes());
    assert_eq!(&bytes[22..24], &2u16.to_le_bytes());
    assert_eq!(&bytes[24..28], &48_000u32.to_le_bytes());
    assert_eq!(&bytes[28..32], &192_000u32.to_le_bytes());
    assert_eq!(&bytes[32..34], &4u16.to_le_bytes());
    assert_eq!(&bytes[40..44], &8u32.to_le_bytes());
    assert_eq!(&bytes[44..], &[0, 0, 1, 0, 2, 0, 3, 0]);
    assert_eq!(write_multi(&[0, 1, 2, 3], 2, 48_000), bytes);
}

#[test]
fn an_empty_wav_file_is_its_header() {
    let bytes = write_multi(&[], 3, 8_000);
    assert_eq!(bytes.len(), 44);
    assert_eq!(&bytes[4..8], &36u32.to_le_bytes());
    assert_eq!(&bytes[28..32], &48_000u32.to_le_bytes());
    assert_eq!(&bytes[32..34], &6u16.to_le_bytes());
    assert_eq!(&bytes[40..44], &0u32.to_le_bytes());
}

#[test]
fn the_opus_header_has_these_bytes() {
    let bytes = write_opus_header(2, 44_100);
    let mut expected = b"OpusHead".to_vec();
    expected.extend_from_slice(&[1, 2, 0x00, 0x0f, 0x44, 0xac, 0x00, 0x00, 0, 0, 0]);
    assert_eq!(bytes, expected);
}

#[test]
fn the_opus_tags_have_these_bytes() {
    let mut expected = b"OpusTags".to_vec();
    expected.extend_from_slice(&[9, 0, 0, 0]);
    expected.extend_from_slice(b"sphn-pyo3");
    expected.extend_from_slice(&[0, 0, 0, 0]);
    assert_eq!(write_opus_tags(), expected);
}

#[test]
fn the_header_written_reads_back() {
    for (channels, rate) in [(1u8, 48_000u32), (2, 44_100), (0, 0), (255, u32::MAX)] {
        let header = parse_opus_header(&write_opus_header(channels, rate)).unwrap();
        assert_eq!(
            header,
            OpusHeader {
                version: 1,
                channel_count: channels,
                pre_skip: 3840,
                input_sample_rate: rate,
                output_gain: 0,
                mapping_family: 0,
            }
        );
    }
}

#[test]
fn every_field_of_a_header_is_read_from_its_place() {
    let mut packet = b"OpusHead".to_vec();
    packet.extend_from_slice(&[3, 2, 0x38, 0x01, 0x80, 0xbb, 0x00, 0x00, 0x00, 0xff, 1, 99]);
    assert_eq!(
        parse_opus_header(&packet).unwrap(),
        OpusHeader {
            version: 3,
            channel_count: 2,
            pre_skip: 312,
            input_sample_rate: 48_000,
            output_gain: -256,
            mapping_family: 1,
        }
    );
}

#[test]
fn a_packet_that_is_no_header_is_refused() {
    assert_eq!(parse_opus_header(b""), Err(OpusError::NotOpusHead));
    assert_eq!(parse_opus_header(b"OpusHea"), Err(OpusError::NotOpusHead));
    assert_eq!(parse_opus_header(&write_opus_tags()), Err(OpusError::NotOpusHead));
    assert_eq!(parse_opus_header(b"opusHead and more bytes"), Err(OpusError::NotOpusHead));
    assert!(is_head(b"OpusHead"));
    assert!(!is_head(b"OpusTags"));
    assert!(is_tags(b"OpusTags and more"));
    assert!(!is_tags(b"OpusTag"));
}

#[test]
fn a_stream_is_header_then_tags_then_audio() {
    let mut reader = OggOpusReader::new();
    assert_eq!(reader.finish(), Err(OpusError::NoData));
    let head = write_opus_header(2, 48_000);
    assert!(matches!(
        reader.on_packet(&head),
        Ok(PacketAction::Init { header: OpusHeader { channel_count: 2, .. } })
    ));
    assert_eq!(reader.on_packet(&write_opus_tags()), Ok(PacketAction::Skip));
    assert_eq!(reader.on_packet(&[1, 2, 3]), Ok(PacketAction::Decode));
    assert_eq!(reader.on_packet(&[]), Ok(PacketAction::Decode));
    assert_eq!(reader.finish(), Ok(2));
}

#[test]
fn a_stream_out_of_order_is_an_error() {
    let mut reader = OggOpusReader::new();
    assert_eq!(reader.on_packet(&write_opus_tags()), Ok(PacketAction::Skip));
    assert_eq!(reader.on_packet(&[1, 2, 3]), Err(OpusError::NoInitialHead));
    assert_eq!(
        reader.on_packet(&write_opus_header(3, 48_000)),
        Err(OpusError::UnexpectedChannels { count: 3 })
    );
    assert_eq!(reader.finish(), Err(OpusError::NoData));
    assert!(reader.on_packet(&write_opus_header(1, 48_000)).is_ok());
    assert_eq!(reader.on_packet(&write_opus_header(1, 48_000)), Err(OpusError::MultipleHeads));
    assert_eq!(reader.finish(), Ok(1));
}

#[test]
fn samples_are_written_in_whole_frames() {
    assert_eq!(frames(959, false), vec![]);
    assert_eq!(frames(1919, true), vec![]);
    assert_eq!(
        frames(960, false),
        vec![Frame { start: 0, end: 960, granule_position: 960, last: true }]
    );
    assert_eq!(
        frames(2000, false),
        vec![
            Frame { start: 0, end: 960, granule_position: 960, last: false },
            Frame { start: 960, end: 1920, granule_position: 1920, last: true },
        ]
    );
    assert_eq!(
        frames(4000, true),
        vec![
            Frame { start: 0, end: 1920, granule_position: 960, last: false },
            Frame { start: 1920, end: 3840, granule_position: 1920, last: true },
        ]
    );
}

#[test]
fn a_window_takes_of_a_packet_what_it_still_needs() {
    assert_eq!(slice_packet(0, 100, 0, 250), PacketSlice { start: 0, end: 100, remaining_skip: 0 });
    assert_eq!(
        slice_packet(30, 100, 0, 250),
        PacketSlice { start: 30, end: 100, remaining_skip: 0 }
    );
    assert_eq!(
        slice_packet(0, 100, 200, 250),
        PacketSlice { start: 0, end: 50, remaining_skip: 0 }
    );
    assert_eq!(
        slice_packet(10, 100, 250, 250),
        PacketSlice { start: 10, end: 10, remaining_skip: 0 }
    );
    assert_eq!(
        slice_packet(10, 100, 300, 250),
        PacketSlice { start: 10, end: 10, remaining_skip: 0 }
    );
    assert_eq!(
        slice_packet(100, 100, 0, 250),
        PacketSlice { start: 100, end: 100, remaining_skip: 0 }
    );
    assert_eq!(
        slice_packet(130, 100, 0, 250),
        PacketSlice { start: 100, end: 100, remaining_skip: 30 }
    );
}

#[test]
fn padding_fills_a_short_window_to_the_length_asked_for() {
    assert_eq!(padded_len(10, 16, true), 16);
    assert_eq!(padded_len(10, 16, false), 10);
    assert_eq!(padded_len(16, 16, true), 16);
    assert_eq!(padded_len(20, 16, true), 20);
}

#[test]
fn two_channels_are_woven_and_taken_apart() {
    assert_eq!(interleave(&[1, 2, 3], &[10, 20, 30]), vec![1, 10, 2, 20, 3, 30]);
    assert_eq!(interleave(&[1, 2, 3], &[10]), vec![1, 10]);
    assert_eq!(interleave::<u8>(&[], &[10]), vec![]);
    assert_eq!(deinterleave(&[1, 10, 2, 20, 3, 30]), (vec![1, 2, 3], vec![10, 20, 30]));
    assert_eq!(deinterleave::<u8>(&[]), (vec![], vec![]));
    let (a, b) = deinterleave(&interleave(&[0.5f32, 0.25], &[-1.0, 2.0]));
    assert_eq!(a, vec![0.5, 0.25]);
    assert_eq!(b, vec![-1.0, 2.0]);
}
