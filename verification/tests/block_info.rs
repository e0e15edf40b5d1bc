use clip_engine::clip_source::block::BlockRequest;
use clip_engine::clip_source::block_info::{
    BlockInfo, CursorAndLengthInfo, SourceInfo, SourceInfoError,
};
use clip_engine::clip_source::source::{ClipPcmSource, InnerSourceKind};
use clip_engine::clip_source::state::{CursorInfo, Repetition, ResolvedPlayData};
use clip_engine::supplier::material::SourceMaterial;
use clip_engine::units::TempoFactor;

fn info(pos: i64, num: u32, den: u32, stop_countdown: Option<u64>) -> BlockInfo {
    let clip = ClipPcmSource::new(InnerSourceKind::Audio, SourceMaterial::new(48000, 96000));
    let cursor_and_length =
        clip.create_cursor_and_length_info_at(ResolvedPlayData { next_block_pos: pos }, 77, 60_000);
    assert_eq!(
        cursor_and_length,
        CursorAndLengthInfo {
            cursor_info: CursorInfo {
                timeline_cursor_pos: 77,
                play_info: ResolvedPlayData { next_block_pos: pos }
            },
            clip_length: 4_000_000_000,
            repetition: Repetition::Once,
        }
    );
    BlockInfo::new(
        &BlockRequest { frame_count: 480, sample_rate: 48000 },
        cursor_and_length,
        TempoFactor { num, den },
        stop_countdown,
    )
}

#[test]
fn block_info_at_the_tempo_of_the_material() {
    let b = info(1000, 1, 1, None);
    assert_eq!(b.frame_count(), 480);
    assert_eq!(b.sample_rate(), 48000);
    assert_eq!(b.duration(), 10_000_000);
    assert_eq!(b.tempo_adjusted_duration(), 10_000_000);
    assert_eq!(b.tempo_adjusted_frame_count(), 480);
    assert_eq!(b.start_frame(), 1000);
    assert_eq!(b.end_frame(), 1480);
    assert_eq!(b.tempo_adjusted_end_frame(), 1480);
    assert_eq!(b.start_pos(48000), 20_833_333);
    assert_eq!(b.stop_countdown(), None);
    assert_eq!(b.final_tempo_factor(), TempoFactor { num: 1, den: 1 });
    assert_eq!(b.tempo_adjusted_sample_rate(), 48000);
    assert!(!b.is_last_block());
    assert_eq!(b.cursor_and_lenght_info().clip_length, 4_000_000_000);
}

#[test]
fn block_info_at_another_tempo() {
    let b = info(-1000, 3, 2, Some(720));
    assert_eq!(b.tempo_adjusted_duration(), 15_000_000);
    assert_eq!(b.tempo_adjusted_frame_count(), 720);
    assert_eq!(b.end_frame(), -520);
    assert_eq!(b.tempo_adjusted_end_frame(), -280);
    assert_eq!(b.start_pos(48000), -20_833_333);
    assert_eq!(b.tempo_adjusted_sample_rate(), 32000);
    assert!(b.is_last_block());
    assert!(!info(0, 3, 2, Some(721)).is_last_block());
    assert!(info(0, 3, 2, Some(0)).is_last_block());
    // The frame count is rounded down, the sample rate to the nearest.
    assert_eq!(info(0, 1, 7, None).tempo_adjusted_frame_count(), 68);
    assert_eq!(info(0, 7, 1, None).tempo_adjusted_sample_rate(), 6857);
    // A factor of zero counts as the smallest there is.
    assert_eq!(info(0, 0, 0, None).tempo_adjusted_frame_count(), 480);
}

#[test]
fn source_info_of_a_source_that_can_be_played() {
    let info = SourceInfo::from_source(Some(44100), Some(2_000_000_000)).unwrap();
    assert_eq!(info.sample_rate(), 44100);
    assert_eq!(info.length(), 2_000_000_000);
    assert_eq!(info.frame_count(), 88200);
    assert_eq!(info.material(), SourceMaterial { frame_rate: 44100, frame_count: 88200 });
}

#[test]
fn source_info_errors() {
    assert_eq!(SourceInfo::from_source(None, Some(5)), Err(SourceInfoError::NoSampleRate));
    assert_eq!(SourceInfo::from_source(None, None), Err(SourceInfoError::NoSampleRate));
    assert_eq!(SourceInfo::from_source(Some(48000), None), Err(SourceInfoError::NoLength));
    assert_eq!(SourceInfo::from_source(Some(48000), Some(0)), Err(SourceInfoError::Empty));
    assert_eq!(SourceInfoError::NoSampleRate.message(), "source without sample rate");
    assert_eq!(SourceInfoError::NoLength.message(), "source without length");
    assert_eq!(SourceInfoError::Empty.message(), "source is empty");
    assert!(SourceInfo::from_source(Some(0), Some(1)).is_ok());
}
