use clip_engine::decimal::Decimal;
use clip_engine::progress::{Progress, ProgressParseError, Status};

fn dec(micros: u64) -> Decimal {
    Decimal { negative: false, micros }
}

#[test]
fn frame_line_sets_frame_and_nothing_else() {
    let mut p = Progress::default();
    let r = p.try_parse("frame=120");
    assert!(r.is_ok());
    assert_eq!(p.frame, Some(120));
    assert_eq!(p.fps, None);
    assert_eq!(p.total_size, None);
    assert_eq!(p.out_time, None);
    assert_eq!(p.dup_frames, None);
    assert_eq!(p.drop_frames, None);
    assert_eq!(p.speed, None);
    assert_eq!(p.status, Status::Unknown);
}

#[test]
fn speed_line_strips_trailing_x() {
    let mut p = Progress::default();
    assert!(p.try_parse("speed=1.5x").is_ok());
    assert_eq!(p.speed, Some(dec(1_500_000)));
}

#[test]
fn progress_end_sets_terminal_status() {
    let mut p = Progress::default();
    assert!(p.try_parse("progress=end").is_ok());
    assert_eq!(p.status, Status::End);
    assert!(p.should_stop());
}

#[test]
fn progress_continue_is_not_terminal() {
    let mut p = Progress::default();
    assert!(p.try_parse("progress=continue").is_ok());
    assert_eq!(p.status, Status::Continue);
    assert!(!p.should_stop());
}

#[test]
fn unrecognized_status_text_maps_to_unknown() {
    let mut p = Progress::default();
    assert!(p.try_parse("progress=whatever").is_ok());
    assert_eq!(p.status, Status::Unknown);
}

#[test]
fn unknown_key_is_soft_and_leaves_record_unchanged() {
    let mut p = Progress::default();
    p.try_parse("frame=7").unwrap();
    let r = p.try_parse("bogus_key=1");
    assert!(matches!(r, Err(ProgressParseError::UnknownKey(s)) if s == "bogus_key=1"));
    assert_eq!(p.frame, Some(7));
    assert_eq!(p.fps, None);
    assert_eq!(p.status, Status::Unknown);
}

#[test]
fn line_without_equals_reports_missing_value() {
    let mut p = Progress::default();
    let r = p.try_parse("no separator here");
    assert!(matches!(r, Err(ProgressParseError::ValueNotFound)));
}

#[test]
fn empty_line_reports_missing_value() {
    let mut p = Progress::default();
    assert!(matches!(p.try_parse(""), Err(ProgressParseError::ValueNotFound)));
    assert!(matches!(p.try_parse("   \n"), Err(ProgressParseError::ValueNotFound)));
}

#[test]
fn malformed_numeric_value_is_reported_and_field_stays_unset() {
    let mut p = Progress::default();
    let r = p.try_parse("frame=abc");
    assert!(matches!(r, Err(ProgressParseError::UnableToParseValue(s)) if s == "abc"));
    assert_eq!(p.frame, None);
}

#[test]
fn malformed_value_never_corrupts_an_earlier_field() {
    let mut p = Progress::default();
    p.try_parse("frame=10").unwrap();
    assert!(p.try_parse("frame=oops").is_err());
    assert_eq!(p.frame, Some(10));
}

#[test]
fn out_time_us_is_stored_as_seconds() {
    let mut p = Progress::default();
    assert!(p.try_parse("out_time_us=1500000").is_ok());
    assert_eq!(p.out_time, Some(dec(1_500_000)));
}

#[test]
fn ignored_keys_succeed_without_updating_anything() {
    let mut p = Progress::default();
    assert!(p.try_parse("out_time_ms=1500000").is_ok());
    assert!(p.try_parse("out_time=00:00:01.500000").is_ok());
    assert!(p.try_parse("bitrate= 129.6kbits/s").is_ok());
    assert!(p.try_parse("stream_0_0_q=29.0").is_ok());
    assert_eq!(p.out_time, None);
    assert_eq!(p.frame, None);
}

#[test]
fn lines_are_trimmed_before_splitting() {
    let mut p = Progress::default();
    assert!(p.try_parse("  frame=42\n").is_ok());
    assert_eq!(p.frame, Some(42));
}

#[test]
fn numeric_values_are_trimmed_before_parsing() {
    let mut p = Progress::default();
    assert!(p.try_parse("total_size= 1024").is_ok());
    assert_eq!(p.total_size, Some(1024));
}

#[test]
fn fps_parses_as_decimal() {
    let mut p = Progress::default();
    assert!(p.try_parse("fps=29.97").is_ok());
    assert_eq!(p.fps, Some(dec(29_970_000)));
}

#[test]
fn dup_and_drop_frames_parse() {
    let mut p = Progress::default();
    assert!(p.try_parse("dup_frames=3").is_ok());
    assert!(p.try_parse("drop_frames=4").is_ok());
    assert_eq!(p.dup_frames, Some(3));
    assert_eq!(p.drop_frames, Some(4));
}

#[test]
fn transcript_keeps_last_value_per_key_and_stops_on_end() {
    let lines: Vec<String> = vec![
        "frame=10",
        "fps=30",
        "out_time_us=2000000",
        "speed=0.994x",
        "progress=continue",
        "frame=240",
        "speed=1.01x",
        "garbage line",
        "progress=end",
        "frame=999",
    ]
    .into_iter()
    .map(|s| s.to_string())
    .collect();
    let mut p = Progress::default();
    let consumed = p.consume_transcript(&lines);
    assert_eq!(consumed, 9);
    assert_eq!(p.frame, Some(240));
    assert_eq!(p.fps, Some(dec(30_000_000)));
    assert_eq!(p.out_time, Some(dec(2_000_000)));
    assert_eq!(p.speed, Some(dec(1_010_000)));
    assert_eq!(p.total_size, None);
    assert_eq!(p.status, Status::End);
}

#[test]
fn transcript_without_end_is_consumed_whole() {
    let lines: Vec<String> = vec!["frame=1", "progress=continue", "frame=2"]
        .into_iter()
        .map(|s| s.to_string())
        .collect();
    let mut p = Progress::default();
    let consumed = p.consume_transcript(&lines);
    assert_eq!(consumed, 3);
    assert_eq!(p.frame, Some(2));
    assert_eq!(p.status, Status::Continue);
}

#[test]
fn default_progress_is_all_unset() {
    let p = Progress::default();
    assert_eq!(p.frame, None);
    assert_eq!(p.fps, None);
    assert_eq!(p.total_size, None);
    assert_eq!(p.out_time, None);
    assert_eq!(p.dup_frames, None);
    assert_eq!(p.drop_frames, None);
    assert_eq!(p.speed, None);
    assert_eq!(p.status, Status::Unknown);
    assert_eq!(Status::default(), Status::Unknown);
}

#[test]
fn numeric_values_accept_a_leading_plus() {
    let mut p = Progress::default();
    assert!(p.try_parse("frame=+99").is_ok());
    assert_eq!(p.frame, Some(99));
}
