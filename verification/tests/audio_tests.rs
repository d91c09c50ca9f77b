use mim_tts::audio::{
    frame_width, needs_resample, preferred_input_range, InputRange, SampleFormatKind,
    TARGET_SAMPLE_RATE,
};

fn range(channels: u16, min: u32, max: u32, format: SampleFormatKind) -> InputRange {
    InputRange { channels, min_sample_rate: min, max_sample_rate: max, format }
}

#[test]
fn picks_first_range_recording_at_target_rate() {
    let ranges = vec![
        range(0, 8_000, 48_000, SampleFormatKind::F32),
        range(2, 44_100, 48_000, SampleFormatKind::F32),
        range(1, 8_000, 48_000, SampleFormatKind::I32),
        range(1, 16_000, 16_000, SampleFormatKind::U16),
        range(2, 8_000, 96_000, SampleFormatKind::I16),
    ];
    assert_eq!(preferred_input_range(&ranges), Some(3));
    assert_eq!(preferred_input_range(&ranges[..3].to_vec()), None);
    assert_eq!(preferred_input_range(&Vec::new()), None);
}

#[test]
fn frames_resampling_and_formats() {
    assert_eq!(frame_width(0), 1);
    assert_eq!(frame_width(2), 2);
    assert!(!needs_resample(TARGET_SAMPLE_RATE));
    assert!(needs_resample(48_000));
}
