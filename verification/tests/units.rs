use clip_engine::units::{
    advance, convert_duration_in_frames_to_other_frame_rate, convert_duration_in_frames_to_seconds,
    convert_duration_in_seconds_to_frames, convert_position_in_frames_to_seconds,
    convert_position_in_seconds_to_frames, magnitude, saturate_i64, saturate_u64, scale,
    scale_floor, signed_scale, signed_scale_floor, TempoFactor, MIDI_BASE_TEMPO, MIDI_FRAME_RATE,
    NANOS_PER_SECOND,
};

#[test]
fn scale_rounds_to_nearest_with_halves_up() {
    assert_eq!(scale(3, 1, 2), 2);
    assert_eq!(scale(5, 1, 4), 1);
    assert_eq!(scale(7, 3, 4), 5);
    assert_eq!(scale(0, 9, 4), 0);
    assert_eq!(scale(480, 44100, 48000), 441);
}

#[test]
fn scale_takes_a_zero_denominator_as_one() {
    assert_eq!(scale(7, 1, 0), 7);
    assert_eq!(scale_floor(7, 3, 0), 21);
}

#[test]
fn scale_saturates() {
    assert_eq!(scale(u64::MAX, 2, 1), u64::MAX);
    assert_eq!(scale(u64::MAX, u64::MAX, 1), u64::MAX);
    assert_eq!(scale_floor(u64::MAX, 3, 2), u64::MAX);
    assert_eq!(scale(u64::MAX, 1, 1), u64::MAX);
    assert_eq!(scale(u64::MAX - 1, 1, 1), u64::MAX - 1);
}

#[test]
fn scale_floor_rounds_down() {
    assert_eq!(scale_floor(7, 1, 2), 3);
    assert_eq!(scale_floor(1, 1_000_000_000, 3), 333_333_333);
}

#[test]
fn signed_scaling_keeps_the_sign() {
    assert_eq!(signed_scale(-3, 1, 2), -2);
    assert_eq!(signed_scale(3, 1, 2), 2);
    assert_eq!(signed_scale_floor(-3, 1, 2), -1);
    assert_eq!(signed_scale_floor(3, 1, 2), 1);
    assert_eq!(signed_scale(i64::MIN, 2, 1), i64::MIN);
    assert_eq!(signed_scale(i64::MAX, 2, 1), i64::MAX);
}

#[test]
fn magnitude_of_the_extremes() {
    assert_eq!(magnitude(i64::MIN), 9_223_372_036_854_775_808);
    assert_eq!(magnitude(-5), 5);
    assert_eq!(magnitude(5), 5);
    assert_eq!(magnitude(0), 0);
}

#[test]
fn saturation_of_wide_integers() {
    assert_eq!(saturate_i64(i64::MAX as i128 + 1), i64::MAX);
    assert_eq!(saturate_i64(i64::MIN as i128 - 1), i64::MIN);
    assert_eq!(saturate_i64(-7), -7);
    assert_eq!(saturate_u64(-1), 0);
    assert_eq!(saturate_u64(u64::MAX as i128 + 1), u64::MAX);
    assert_eq!(saturate_u64(12), 12);
}

#[test]
fn advance_adds_and_saturates() {
    assert_eq!(advance(-10, 4), -6);
    assert_eq!(advance(100, 480), 580);
    assert_eq!(advance(i64::MAX - 1, 5), i64::MAX);
    assert_eq!(advance(i64::MIN, u64::MAX), i64::MAX);
}

#[test]
fn frames_convert_between_rates() {
    assert_eq!(convert_duration_in_frames_to_other_frame_rate(480, 48000, 44100), 441);
    assert_eq!(convert_duration_in_frames_to_other_frame_rate(480, 48000, MIDI_FRAME_RATE), 10240);
    assert_eq!(convert_duration_in_frames_to_other_frame_rate(10240, MIDI_FRAME_RATE, 48000), 480);
    assert_eq!(convert_duration_in_frames_to_other_frame_rate(100, 0, 3), 300);
}

#[test]
fn frames_convert_to_nanoseconds_and_back() {
    assert_eq!(NANOS_PER_SECOND, 1_000_000_000);
    assert_eq!(convert_duration_in_frames_to_seconds(48000, 48000), 1_000_000_000);
    assert_eq!(convert_duration_in_frames_to_seconds(1, 3), 333_333_333);
    assert_eq!(convert_duration_in_seconds_to_frames(1_500_000_000, 48000), 72000);
    assert_eq!(convert_duration_in_seconds_to_frames(999_999_999, 1), 0);
}

#[test]
fn positions_convert_towards_zero() {
    assert_eq!(convert_position_in_seconds_to_frames(-1_500_000_000, 48000), -72000);
    assert_eq!(convert_position_in_seconds_to_frames(-1, 48000), 0);
    assert_eq!(convert_position_in_seconds_to_frames(2_000_000_000, 48000), 96000);
    assert_eq!(convert_position_in_frames_to_seconds(-24000, 48000), -500_000_000);
    assert_eq!(convert_position_in_frames_to_seconds(24000, 48000), 500_000_000);
}

#[test]
fn tempo_factor_is_kept_positive() {
    assert_eq!(TempoFactor::new(0, 0), TempoFactor { num: 1, den: 1 });
    assert_eq!(TempoFactor::new(0, 7), TempoFactor { num: 1, den: 7 });
    assert_eq!(TempoFactor::new(3, 0), TempoFactor { num: 3, den: 1 });
    assert_eq!(TempoFactor::new(3, 4), TempoFactor { num: 3, den: 4 });
    assert_eq!(TempoFactor::unity(), TempoFactor { num: 1, den: 1 });
    assert_eq!(TempoFactor { num: 0, den: 0 }.floored(), TempoFactor { num: 1, den: 1 });
    assert_eq!(MIDI_BASE_TEMPO, 120_000);
}
