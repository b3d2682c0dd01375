use sizefit::bitrate::{
    audio_bitrate, video_bitrate, AUDIO_BITRATE_CEIL, AUDIO_BITRATE_FLOOR,
};
use sizefit::error::TranscodeError;
use sizefit::plan::{build_plan, plan_for, preset_for_source, Preset};
use sizefit::timebase::TimeBase;
use sizefit::track::{Medium, SourceAsset, Track};

const MIB: u64 = 1024 * 1024;

#[test]
fn audio_bitrate_clamps_below_floor() {
    assert_eq!(audio_bitrate(0), 32768);
    assert_eq!(audio_bitrate(8 * MIB), 32768);
    assert_eq!(audio_bitrate(8 * MIB + 1), 32768);
}

#[test]
fn audio_bitrate_clamps_above_ceiling() {
    assert_eq!(audio_bitrate(500 * MIB), 131072);
    assert_eq!(audio_bitrate(500 * MIB - 1), 131071);
    assert_eq!(audio_bitrate(u64::MAX), 131072);
}

#[test]
fn audio_bitrate_interpolates_between_bounds() {
    assert_eq!(audio_bitrate(100 * MIB), 51150);
    assert_eq!(audio_bitrate(300 * MIB), 91111);
}

#[test]
fn audio_bitrate_is_monotone_over_samples() {
    let sizes = [
        0,
        MIB,
        8 * MIB,
        8 * MIB + 1,
        50 * MIB,
        100 * MIB,
        250 * MIB,
        499 * MIB,
        500 * MIB,
        700 * MIB,
    ];
    let mut last = 0;
    for s in sizes {
        let b = audio_bitrate(s);
        assert!(b >= last, "bitrate fell from {last} to {b} at size {s}");
        assert!(b >= AUDIO_BITRATE_FLOOR && b <= AUDIO_BITRATE_CEIL);
        last = b;
    }
}

#[test]
fn video_bitrate_is_the_remainder_over_duration() {
    // 25 MiB target, 2.4 MB of audio already produced, 600 s of content
    assert_eq!(video_bitrate(25 * MIB, 2400000, 600000), Ok(317525));
    assert_eq!(video_bitrate(25 * MIB, 5 * MIB, 600000), Ok(279620));
}

#[test]
fn video_bitrate_rejects_companion_at_or_over_target() {
    assert_eq!(
        video_bitrate(25 * MIB, 25 * MIB, 600000),
        Err(TranscodeError::BudgetInfeasible)
    );
    assert_eq!(
        video_bitrate(25 * MIB, 26 * MIB, 600000),
        Err(TranscodeError::BudgetInfeasible)
    );
}

#[test]
fn video_bitrate_rejects_a_zero_rate() {
    // one spare byte is 8000 bit-milliseconds; over nine seconds that
    // rounds down to nothing
    assert_eq!(
        video_bitrate(101, 100, 9000),
        Err(TranscodeError::BudgetInfeasible)
    );
}

#[test]
fn preset_follows_source_size() {
    assert_eq!(preset_for_source(0), Preset::Fast);
    assert_eq!(preset_for_source(MIB - 1), Preset::Fast);
    assert_eq!(preset_for_source(MIB), Preset::Slow);
    assert_eq!(preset_for_source(200 * MIB), Preset::Slow);
    assert_eq!(preset_for_source(200 * MIB + 1), Preset::Medium);
    assert_eq!(preset_for_source(500 * MIB), Preset::Medium);
    assert_eq!(preset_for_source(500 * MIB + 1), Preset::Fast);
}

#[test]
fn preset_options_text_round_trips_through_the_parser() {
    for preset in [Preset::Slow, Preset::Medium, Preset::Fast] {
        let parsed = sizefit::plan::parse_opts(preset.options_text()).unwrap();
        assert_eq!(parsed.len(), 1);
        assert_eq!(parsed[0].0, "preset");
    }
    let parsed = sizefit::plan::parse_opts(Preset::Slow.options_text()).unwrap();
    assert_eq!(parsed[0].1, "slow");
}

#[test]
fn build_plan_collects_all_attempt_parameters() {
    let plan = build_plan(300 * MIB, 600000, 25 * MIB, 2400000).unwrap();
    assert_eq!(plan.effective_target_bytes, 25 * MIB);
    assert_eq!(plan.duration_ms, 600000);
    assert_eq!(plan.audio_bitrate, 91111);
    assert_eq!(plan.video_bitrate, 317525);
    assert_eq!(plan.preset, Preset::Medium);
}

#[test]
fn plan_for_a_source_carries_its_duration() {
    let source = SourceAsset {
        tracks: vec![
            Track {
                index: 0,
                medium: Medium::Video,
                time_base: TimeBase::new(1, 90000),
            },
            Track {
                index: 1,
                medium: Medium::Audio,
                time_base: TimeBase::new(1, 44100),
            },
        ],
        duration_ms: 600000,
        size_bytes: 300 * MIB,
        metadata: vec![("title".to_string(), "clip".to_string())],
    };
    let plan = plan_for(&source, 25 * MIB, 2400000).unwrap();
    assert_eq!(plan.duration_ms, 600000);
    assert_eq!(plan.audio_bitrate, 91111);
    assert_eq!(plan.video_bitrate, 317525);
}

#[test]
fn build_plan_rejects_an_infeasible_budget() {
    assert_eq!(
        build_plan(300 * MIB, 600000, 25 * MIB, 30 * MIB),
        Err(TranscodeError::BudgetInfeasible)
    );
}
