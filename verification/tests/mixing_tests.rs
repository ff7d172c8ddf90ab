use tauri_recorder::mixing::{frame_count, mix_frame_count, sample_source, SampleSource};

#[test]
fn frame_counts() {
    assert_eq!(frame_count(10, 2), 5);
    assert_eq!(frame_count(11, 2), 5);
    assert_eq!(frame_count(10, 0), 0);
    assert_eq!(mix_frame_count(10, 2, 7, 1), 7);
    assert_eq!(mix_frame_count(0, 2, 0, 1), 0);
    assert_eq!(mix_frame_count(8, 2, 3, 1), 4);
}

#[test]
fn same_channel_count_keeps_channels() {
    assert_eq!(sample_source(8, 2, 2, 1, 0), SampleSource::Sample(2));
    assert_eq!(sample_source(8, 2, 2, 1, 1), SampleSource::Sample(3));
}

#[test]
fn mono_is_replicated_law() {
    assert_eq!(sample_source(5, 1, 2, 3, 0), SampleSource::Sample(3));
    assert_eq!(sample_source(5, 1, 2, 3, 1), SampleSource::Sample(3));
}

#[test]
fn stereo_to_mono_is_averaged() {
    assert_eq!(sample_source(8, 2, 1, 2, 0), SampleSource::Average { start: 4, count: 2 });
    assert_eq!(sample_source(12, 6, 2, 1, 1), SampleSource::Average { start: 6, count: 6 });
}

#[test]
fn exhausted_stream_is_silent() {
    assert_eq!(sample_source(4, 2, 2, 2, 0), SampleSource::Silence);
    assert_eq!(sample_source(0, 1, 2, 0, 1), SampleSource::Silence);
    assert_eq!(sample_source(9, 0, 2, 0, 0), SampleSource::Silence);
}
