use sizefit::error::TranscodeError;
use sizefit::plan::{parse_opts, split_chars};
use sizefit::timebase::{rescale_ts, TimeBase};
use sizefit::track::{copy_packet, disposition, Disposition, Medium, Packet};

#[test]
fn a_single_binding_parses() {
    let opts = parse_opts("preset=slow").unwrap();
    assert_eq!(opts, vec![("preset".to_string(), "slow".to_string())]);
}

#[test]
fn several_bindings_parse_in_order() {
    let opts = parse_opts("a=1,b=2,c=3").unwrap();
    assert_eq!(
        opts,
        vec![
            ("a".to_string(), "1".to_string()),
            ("b".to_string(), "2".to_string()),
            ("c".to_string(), "3".to_string()),
        ]
    );
}

#[test]
fn a_trailing_comma_terminates_the_list() {
    let opts = parse_opts("a=1,").unwrap();
    assert_eq!(opts, vec![("a".to_string(), "1".to_string())]);
}

#[test]
fn the_empty_string_holds_no_options() {
    assert_eq!(parse_opts(""), Some(vec![]));
}

#[test]
fn a_piece_without_a_binding_is_rejected() {
    assert_eq!(parse_opts("a"), None);
    assert_eq!(parse_opts("a=1,b"), None);
    assert_eq!(parse_opts(","), None);
}

#[test]
fn a_piece_with_two_separators_is_rejected() {
    assert_eq!(parse_opts("a=1=2"), None);
}

#[test]
fn a_bare_separator_binds_the_empty_key_to_the_empty_value() {
    let opts = parse_opts("=").unwrap();
    assert_eq!(opts, vec![(String::new(), String::new())]);
}

#[test]
fn splitting_keeps_empty_middle_pieces() {
    assert_eq!(split_chars("a,,b", ','), vec!["a", "", "b"]);
    assert_eq!(split_chars("", ','), vec![""]);
    assert_eq!(split_chars("ab", ','), vec!["ab"]);
}

#[test]
fn rescaling_changes_the_tick_unit() {
    // milliseconds to a 90 kHz clock
    let from = TimeBase::new(1, 1000);
    let to = TimeBase::new(1, 90000);
    assert_eq!(rescale_ts(1000, from, to), Some(90000));
    // an NTSC frame count to milliseconds, rounding down
    let ntsc = TimeBase::new(1001, 30000);
    let ms = TimeBase::new(1, 1000);
    assert_eq!(rescale_ts(3003, ntsc, ms), Some(100200));
    assert_eq!(rescale_ts(0, from, to), Some(0));
}

#[test]
fn rescaling_overflow_is_reported() {
    let from = TimeBase::new(u32::MAX, 1);
    let to = TimeBase::new(1, u32::MAX);
    assert_eq!(rescale_ts(i64::MAX, from, to), None);
}

#[test]
fn only_audio_and_video_are_transcoded() {
    assert_eq!(disposition(Medium::Audio), Disposition::Transcode);
    assert_eq!(disposition(Medium::Video), Disposition::Transcode);
    assert_eq!(disposition(Medium::Subtitle), Disposition::StreamCopy);
    assert_eq!(disposition(Medium::Other), Disposition::StreamCopy);
}

#[test]
fn a_copied_subtitle_packet_keeps_its_payload_byte_for_byte() {
    let packet = Packet {
        stream_index: 2,
        ts: 3003,
        data: vec![0x1f, 0x00, 0x42, 0xff],
    };
    let from = TimeBase::new(1001, 30000);
    let to = TimeBase::new(1, 1000);
    let copied = copy_packet(&packet, 1, from, to).unwrap();
    assert_eq!(copied.data, vec![0x1f, 0x00, 0x42, 0xff]);
    assert_eq!(copied.ts, 100200);
    assert_eq!(copied.stream_index, 1);
}

#[test]
fn a_copied_packet_with_an_overflowing_timestamp_is_fatal() {
    let packet = Packet {
        stream_index: 0,
        ts: i64::MAX,
        data: vec![1],
    };
    let from = TimeBase::new(u32::MAX, 1);
    let to = TimeBase::new(1, u32::MAX);
    assert_eq!(
        copy_packet(&packet, 0, from, to),
        Err(TranscodeError::BadTimestamp)
    );
}
