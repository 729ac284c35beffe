use clip_engine::builder::{BuilderError, FFmpegBuilder, File, Param};
use clip_engine::decimal::Decimal;

#[test]
fn input_missing_path_fails_fast() {
    let mut b = FFmpegBuilder::new();
    let f = File::from("/nowhere/missing.mp4");
    let r = b.input(f, false);
    assert_eq!(r, Err(BuilderError::FileNotFound));
    assert_eq!(b.inputs.len(), 0);
}

#[test]
fn input_existing_path_is_appended() {
    let mut b = FFmpegBuilder::new();
    let f = File::from("a.mp4");
    let r = b.input(f, true);
    assert_eq!(r, Ok(()));
    assert_eq!(b.inputs.len(), 1);
    assert_eq!(b.inputs[0].path, "a.mp4");
}

#[test]
fn render_input_options_then_i_then_path_then_output() {
    let mut b = FFmpegBuilder::new();
    let f = File::from("P").option(Param::create_pair("ss", "5"));
    b.input(f, true).unwrap();
    b.output(File::from("Q"));
    let args = b.render();
    assert_eq!(args, vec!["-ss", "5", "-i", "P", "Q"]);
}

#[test]
fn render_orders_globals_inputs_filters_outputs() {
    let mut b = FFmpegBuilder::new();
    b.option(Param::Single("y".to_string()));
    b.input(File::from("in.mkv"), true).unwrap();
    b.video_filter("scale", "64:-1");
    b.audio_filter("atempo", "2");
    b.output(File::from("out.mkv").option(Param::create_pair("preset", "fast")));
    let args = b.render();
    assert_eq!(
        args,
        vec!["-y", "-i", "in.mkv", "-vf", "scale=64:-1", "-filter:a", "atempo=2", "-preset", "fast", "out.mkv"]
    );
}

#[test]
fn render_joins_filter_chain_with_comma_space() {
    let mut b = FFmpegBuilder::new();
    b.video_filter("scale", "64:-1");
    b.video_filter("fps=fps", "30");
    let args = b.render();
    assert_eq!(args, vec!["-vf", "scale=64:-1, fps=fps=30"]);
}

#[test]
fn render_omits_empty_filter_chains() {
    let mut b = FFmpegBuilder::new();
    b.input(File::from("x"), true).unwrap();
    let args = b.render();
    assert_eq!(args, vec!["-i", "x"]);
}

#[test]
fn set_speed_three_gives_setpts_div_three_and_clamped_tempo() {
    let mut b = FFmpegBuilder::new();
    b.set_speed(Decimal { negative: false, micros: 3_000_000 });
    let args = b.render();
    assert_eq!(args, vec!["-vf", "setpts=PTS/3", "-filter:a", "atempo=2"]);
}

#[test]
fn set_speed_quarter_clamps_tempo_up() {
    let mut b = FFmpegBuilder::new();
    b.set_speed(Decimal { negative: false, micros: 250_000 });
    let args = b.render();
    assert_eq!(args, vec!["-vf", "setpts=PTS/0.25", "-filter:a", "atempo=0.5"]);
}

#[test]
fn set_speed_in_range_is_not_clamped() {
    let mut b = FFmpegBuilder::new();
    b.set_speed(Decimal { negative: false, micros: 1_500_000 });
    let args = b.render();
    assert_eq!(args, vec!["-vf", "setpts=PTS/1.5", "-filter:a", "atempo=1.5"]);
}

#[test]
fn add_progress_options_appends_the_two_fixed_options() {
    let mut b = FFmpegBuilder::new();
    b.add_progress_options();
    let args = b.render();
    assert_eq!(args, vec!["-progress", "-", "-nostats"]);
}

#[test]
fn create_pair_holds_both_parts() {
    let p = Param::create_pair("b:v", "2500K");
    assert!(matches!(p, Param::Pair(k, v) if k == "b:v" && v == "2500K"));
}

#[test]
fn file_options_keep_their_order() {
    let f = File::from("v.mp4")
        .option(Param::create_pair("ss", "1"))
        .option(Param::create_pair("to", "2"));
    assert_eq!(f.options.len(), 2);
    assert!(matches!(&f.options[0], Param::Pair(k, v) if k == "ss" && v == "1"));
    assert!(matches!(&f.options[1], Param::Pair(k, v) if k == "to" && v == "2"));
}

#[test]
fn run_location_is_recorded_not_rendered() {
    let mut b = FFmpegBuilder::new();
    b.set_run_location("/opt/encoder".to_string());
    assert_eq!(b.run_location.as_deref(), Some("/opt/encoder"));
    assert_eq!(b.render(), Vec::<String>::new());
}

#[test]
fn bare_filter_stages_join_without_equals() {
    let mut b = FFmpegBuilder::new();
    b.video_filters.push(Param::Single("hflip".to_string()));
    b.video_filter("scale", "64:-1");
    let args = b.render();
    assert_eq!(args, vec!["-vf", "hflip, scale=64:-1"]);
}
