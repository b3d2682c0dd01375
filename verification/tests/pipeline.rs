use sizefit::error::TranscodeError;
use sizefit::monitor::SizeBudgetMonitor;
use sizefit::pipeline::{DrainSignal, FrameRoute, TrackPipeline};
use sizefit::timebase::TimeBase;
use sizefit::track::Medium;

fn video_pipeline() -> TrackPipeline {
    TrackPipeline::new(
        Medium::Video,
        TimeBase::new(1, 1000),
        TimeBase::new(1, 90000),
        0,
    )
}

fn audio_pipeline() -> TrackPipeline {
    TrackPipeline::new(
        Medium::Audio,
        TimeBase::new(1, 44100),
        TimeBase::new(1, 44100),
        1,
    )
}

#[test]
fn empty_drain_finishes_in_one_pass_without_packets() {
    // nothing was fed, every stage is empty: the drain walks straight
    // through and emits nothing
    let mut p = video_pipeline();
    assert_eq!(p.begin_drain(), DrainSignal::DecoderEof);
    assert_eq!(p.stage_exhausted(), Some(DrainSignal::EncoderEof));
    assert_eq!(p.stage_exhausted(), None);
    assert!(p.is_finished());
    assert_eq!(p.packets_written, 0);
    assert_eq!(p.frame_count, 0);
}

#[test]
fn audio_drain_flushes_the_filter_between_decoder_and_encoder() {
    let mut p = audio_pipeline();
    assert_eq!(p.begin_drain(), DrainSignal::DecoderEof);
    assert_eq!(p.stage_exhausted(), Some(DrainSignal::FilterEof));
    assert_eq!(p.stage_exhausted(), Some(DrainSignal::EncoderEof));
    assert_eq!(p.stage_exhausted(), None);
    assert!(p.is_finished());
}

#[test]
fn video_frames_go_straight_to_the_encoder() {
    let mut p = video_pipeline();
    let d = p.on_decoded_frame(Some(40));
    assert_eq!(d.route, FrameRoute::ToEncoder);
    assert_eq!(d.pts, Some(40));
    assert!(d.clear_picture_kind);
    assert_eq!(p.frame_count, 1);
}

#[test]
fn audio_frames_go_through_the_filter() {
    let mut p = audio_pipeline();
    let d = p.on_decoded_frame(None);
    assert_eq!(d.route, FrameRoute::ToFilter);
    assert_eq!(d.pts, None);
    assert!(!d.clear_picture_kind);
}

#[test]
fn encoded_packets_are_rescaled_to_the_output_time_base() {
    let mut p = video_pipeline();
    // 1 ms ticks to 90 kHz ticks: multiply by 90
    let w = p.on_encoded_packet(1000).unwrap();
    assert_eq!(w.ts, 90000);
    assert_eq!(w.stream_index, 0);
    assert_eq!(p.packets_written, 1);
    let w2 = p.on_encoded_packet(1001).unwrap();
    assert_eq!(w2.ts, 90090);
    assert_eq!(p.packets_written, 2);
}

#[test]
fn a_backwards_timestamp_is_fatal_for_the_pass() {
    let mut p = video_pipeline();
    p.on_encoded_packet(1000).unwrap();
    assert_eq!(p.on_encoded_packet(999), Err(TranscodeError::BadTimestamp));
    // the failed packet is not booked
    assert_eq!(p.packets_written, 1);
}

#[test]
fn halting_feeding_discards_input_but_leaves_the_drain_available() {
    let mut p = video_pipeline();
    assert!(p.accepts_input());
    p.halt_feeding();
    assert!(!p.accepts_input());
    // already-buffered codec state still drains normally
    assert_eq!(p.begin_drain(), DrainSignal::DecoderEof);
    assert_eq!(p.stage_exhausted(), Some(DrainSignal::EncoderEof));
    assert_eq!(p.stage_exhausted(), None);
    assert!(p.is_finished());
}

#[test]
fn monitor_latches_once_a_sample_exceeds_the_target() {
    let mut m = SizeBudgetMonitor::new(1000);
    assert!(!m.sample(0));
    assert!(!m.sample(1000));
    assert!(m.sample(1001));
    assert!(m.sample(0));
    assert!(m.has_exceeded());
}

#[test]
fn one_byte_target_aborts_feeding_after_the_first_oversized_sample() {
    // a pass whose target is a single byte: the first frame that pushes
    // the artifact past one byte stops the feeding, and the pipeline
    // still shuts down cleanly so the container trailer can be written
    let mut m = SizeBudgetMonitor::new(1);
    let mut p = video_pipeline();

    // first frame arrives; the artifact does not exist yet
    p.on_decoded_frame(Some(0));
    assert!(!m.sample(0));
    assert!(p.accepts_input());

    // the encoder produced output and the artifact grew past one byte
    p.on_encoded_packet(0).unwrap();
    assert!(m.sample(2));
    p.halt_feeding();
    assert!(!p.accepts_input());

    // normal drain of already-buffered state follows
    p.begin_drain();
    assert_eq!(p.stage_exhausted(), Some(DrainSignal::EncoderEof));
    assert_eq!(p.stage_exhausted(), None);
    assert!(p.is_finished());
    assert_eq!(p.packets_written, 1);
}
