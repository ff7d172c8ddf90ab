use std::io::Cursor;

use ogg::PacketReader;
use tauri_recorder::opus_stream::{
    frame_samples_per_channel, frame_size, opus_encoding_setup, opus_head_packet, opus_pre_skip,
    opus_tags_packet, plan_audio_packets, write_ogg_opus_stream, AudioPacketPlan,
    OpusChannelLayout, OpusEncodingSetup, OpusSetupError,
};

#[test]
fn setup_keeps_an_opus_rate() {
    let setup = opus_encoding_setup(48000, 2).unwrap();
    assert_eq!(
        setup,
        OpusEncodingSetup { encode_rate: 48000, needs_resample: false, layout: OpusChannelLayout::Stereo }
    );
    let setup = opus_encoding_setup(16000, 1).unwrap();
    assert_eq!(
        setup,
        OpusEncodingSetup { encode_rate: 16000, needs_resample: false, layout: OpusChannelLayout::Mono }
    );
}

#[test]
fn setup_resamples_other_rates_to_48k() {
    let setup = opus_encoding_setup(44100, 2).unwrap();
    assert_eq!(setup.encode_rate, 48000);
    assert!(setup.needs_resample);
    let setup = opus_encoding_setup(96000, 1).unwrap();
    assert_eq!(setup.encode_rate, 48000);
    assert!(setup.needs_resample);
}

#[test]
fn setup_refuses_more_than_two_channels() {
    let err = opus_encoding_setup(48000, 6).unwrap_err();
    assert_eq!(err, OpusSetupError::UnsupportedChannelCount(6));
    assert_eq!(err.message(), "Unsupported channel count: 6. Opus supports mono/stereo.");
    assert_eq!(
        opus_encoding_setup(44100, 0).unwrap_err(),
        OpusSetupError::UnsupportedChannelCount(0)
    );
}

#[test]
fn pre_skip_is_lookahead_at_48k() {
    assert_eq!(opus_pre_skip(312, 48000), 312);
    assert_eq!(opus_pre_skip(0, 48000), 0);
}

#[test]
fn pre_skip_is_scaled_to_48k() {
    assert_eq!(opus_pre_skip(104, 16000), 312);
    assert_eq!(opus_pre_skip(52, 8000), 312);
    assert_eq!(opus_pre_skip(156, 24000), 312);
}

#[test]
fn pre_skip_truncates_to_16_bits() {
    assert_eq!(opus_pre_skip(70000, 48000), 4464);
    assert_eq!(opus_pre_skip(30000, 8000), 48928);
}

#[test]
fn opus_head_bytes() {
    let head = opus_head_packet(2, 312, 48000);
    assert_eq!(
        head,
        vec![
            b'O', b'p', b'u', b's', b'H', b'e', b'a', b'd', 1, 2, 0x38, 0x01, 0x80, 0xbb, 0x00,
            0x00, 0, 0, 0
        ]
    );
    let head = opus_head_packet(1, 0, 44100);
    assert_eq!(&head[8..], &[1, 1, 0, 0, 0x44, 0xac, 0, 0, 0, 0, 0]);
}

#[test]
fn opus_head_fields_read_back() {
    let head = opus_head_packet(1, 0xabcd, 0x1234_5678);
    assert_eq!(head.len(), 19);
    assert_eq!(&head[0..8], b"OpusHead");
    assert_eq!(head[9], 1);
    assert_eq!(u16::from_le_bytes([head[10], head[11]]), 0xabcd);
    assert_eq!(u32::from_le_bytes([head[12], head[13], head[14], head[15]]), 0x1234_5678);
}

#[test]
fn opus_tags_bytes() {
    let mut expected = b"OpusTags".to_vec();
    expected.extend_from_slice(&14u32.to_le_bytes());
    expected.extend_from_slice(b"tauri-recorder");
    expected.extend_from_slice(&0u32.to_le_bytes());
    assert_eq!(opus_tags_packet(), expected);
    assert_eq!(opus_tags_packet().len(), 30);
}

#[test]
fn frame_sizes_are_20_ms() {
    assert_eq!(frame_samples_per_channel(48000), 960);
    assert_eq!(frame_samples_per_channel(8000), 160);
    assert_eq!(frame_size(48000, 2), 1920);
    assert_eq!(frame_size(12000, 1), 240);
}

#[test]
fn plan_with_partial_last_frame() {
    let plan = plan_audio_packets(2000, 48000, 2, 312);
    assert_eq!(
        plan,
        vec![
            AudioPacketPlan { start: 0, end: 1920, granule: 1272, end_of_stream: false },
            AudioPacketPlan { start: 1920, end: 2000, granule: 2232, end_of_stream: true },
        ]
    );
}

#[test]
fn plan_with_whole_frames() {
    let plan = plan_audio_packets(3840, 48000, 2, 0);
    assert_eq!(
        plan,
        vec![
            AudioPacketPlan { start: 0, end: 1920, granule: 960, end_of_stream: false },
            AudioPacketPlan { start: 1920, end: 3840, granule: 1920, end_of_stream: true },
        ]
    );
}

#[test]
fn plan_of_no_samples_is_empty() {
    assert!(plan_audio_packets(0, 48000, 2, 312).is_empty());
}

#[test]
fn plan_at_8k_advances_960_granules_per_frame() {
    let plan = plan_audio_packets(500, 8000, 1, 312);
    assert_eq!(plan.len(), 4);
    for (i, p) in plan.iter().enumerate() {
        assert_eq!(p.start, i * 160);
        assert_eq!(p.granule, 312 + (i as u64 + 1) * 960);
        assert_eq!(p.end_of_stream, i == 3);
    }
    assert_eq!(plan[3].end, 500);
}

#[test]
fn plan_tiles_samples_law() {
    for &(n, rate, ch) in &[(1usize, 8000u32, 1u16), (4799, 24000, 2), (96000, 48000, 2), (7, 12000, 2)] {
        let plan = plan_audio_packets(n, rate, ch, 100);
        let fs = frame_size(rate, ch);
        assert_eq!(plan[0].start, 0);
        assert_eq!(plan[plan.len() - 1].end, n);
        for w in plan.windows(2) {
            assert_eq!(w[0].end, w[1].start);
            assert_eq!(w[0].end - w[0].start, fs);
            assert!(w[0].granule < w[1].granule);
        }
        assert_eq!(plan[plan.len() - 1].granule, 100 + plan.len() as u64 * 960);
        assert_eq!(plan.iter().filter(|p| p.end_of_stream).count(), 1);
        assert!(plan[plan.len() - 1].end_of_stream);
    }
}

#[test]
fn stream_reads_back_as_written() {
    let plan = plan_audio_packets(2000, 48000, 2, 312);
    let audio = vec![vec![1u8, 2, 3], vec![4u8; 300]];
    let bytes = write_ogg_opus_stream(2, 312, 48000, &plan, &audio, 0x1234);
    assert_eq!(&bytes[0..4], b"OggS");
    let mut reader = PacketReader::new(Cursor::new(bytes));
    let head = reader.read_packet().unwrap().unwrap();
    assert_eq!(head.data, opus_head_packet(2, 312, 48000));
    assert_eq!(head.stream_serial(), 0x1234);
    assert_eq!(head.absgp_page(), 0);
    assert!(head.first_in_stream());
    let tags = reader.read_packet().unwrap().unwrap();
    assert_eq!(tags.data, opus_tags_packet());
    assert_eq!(tags.absgp_page(), 0);
    let first = reader.read_packet().unwrap().unwrap();
    assert_eq!(first.data, vec![1u8, 2, 3]);
    assert!(!first.last_in_stream());
    let second = reader.read_packet().unwrap().unwrap();
    assert_eq!(second.data, vec![4u8; 300]);
    assert!(second.last_in_stream());
    assert_eq!(second.absgp_page(), 2232);
    assert!(reader.read_packet().unwrap().is_none());
}

#[test]
fn stream_without_audio_has_only_headers() {
    let bytes = write_ogg_opus_stream(1, 0, 16000, &Vec::new(), &Vec::new(), 7);
    let mut reader = PacketReader::new(Cursor::new(bytes));
    assert_eq!(reader.read_packet().unwrap().unwrap().data, opus_head_packet(1, 0, 16000));
    assert_eq!(reader.read_packet().unwrap().unwrap().data, opus_tags_packet());
    assert!(reader.read_packet().unwrap().is_none());
}
