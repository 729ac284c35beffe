use clip_engine::builder::BuilderError;
use clip_engine::decimal::Decimal;
use clip_engine::factory::{
    create_clip_command, create_thumbnail_command, create_timeline_thumbnails_command,
    ClipCreationOptions,
};

fn dec(micros: u64) -> Decimal {
    Decimal { negative: false, micros }
}

fn sample_options() -> ClipCreationOptions {
    ClipCreationOptions {
        from: "videos/raw.mp4".to_string(),
        to: "clips/out.mp4".to_string(),
        start: dec(5_000_000),
        end: dec(12_500_000),
        video_bitrate: dec(2500_000_000),
        audio_bitrate: dec(192_000_000),
        framerate: dec(60_000_000),
        speed: dec(1_000_000),
        resolution: 720,
        mute: false,
        format: "mp4".to_string(),
        preset: "ultrafast".to_string(),
    }
}

#[test]
fn clip_command_renders_the_full_invocation() {
    let b = create_clip_command(&sample_options(), "/opt/encoder", true).unwrap();
    assert_eq!(b.run_location.as_deref(), Some("/opt/encoder"));
    let args = b.render();
    assert_eq!(
        args,
        vec![
            "-y", "-ss", "5", "-to", "12.5", "-hwaccel", "auto", "-i", "videos/raw.mp4", "-vf",
            "scale=-1:720, fps=fps=60, setpts=PTS/1", "-filter:a", "atempo=1", "-f", "mp4", "-b:v",
            "2500K", "-b:a", "192K", "-preset", "ultrafast", "clips/out.mp4"
        ]
    );
}

#[test]
fn clip_command_scales_framerate_down_when_slowed() {
    let mut options = sample_options();
    options.speed = dec(500_000);
    let b = create_clip_command(&options, "", true).unwrap();
    let args = b.render();
    assert!(args.contains(&"scale=-1:720, fps=fps=30, setpts=PTS/0.5".to_string()));
    assert!(args.contains(&"atempo=0.5".to_string()));
}

#[test]
fn clip_command_keeps_framerate_when_sped_up() {
    let mut options = sample_options();
    options.speed = dec(3_000_000);
    let b = create_clip_command(&options, "", true).unwrap();
    let args = b.render();
    assert!(args.contains(&"scale=-1:720, fps=fps=60, setpts=PTS/3".to_string()));
    assert!(args.contains(&"atempo=2".to_string()));
}

#[test]
fn clip_command_mute_adds_an_to_the_input() {
    let mut options = sample_options();
    options.mute = true;
    let b = create_clip_command(&options, "", true).unwrap();
    let args = b.render();
    let an = args.iter().position(|a| a == "-an").unwrap();
    let i = args.iter().position(|a| a == "-i").unwrap();
    assert!(an < i, "the mute flag belongs to the input, before -i");
}

#[test]
fn clip_command_missing_input_fails() {
    let r = create_clip_command(&sample_options(), "", false);
    assert!(matches!(r, Err(BuilderError::FileNotFound)));
}

#[test]
fn thumbnail_command_renders_the_full_invocation() {
    let b = create_thumbnail_command("v.mp4", "cache/t.jpg", "/opt/encoder", true).unwrap();
    assert_eq!(b.run_location.as_deref(), Some("/opt/encoder"));
    let args = b.render();
    assert_eq!(
        args,
        vec![
            "-sseof", "-3", "-i", "v.mp4", "-preset", "ultrafast", "-q:v", "5", "-update", "1",
            "-vf", "scale=240:-1", "cache/t.jpg"
        ]
    );
}

#[test]
fn thumbnail_command_missing_input_fails() {
    let r = create_thumbnail_command("v.mp4", "t.jpg", "", false);
    assert!(matches!(r, Err(BuilderError::FileNotFound)));
}

#[test]
fn timeline_command_renders_the_full_invocation() {
    let b = create_timeline_thumbnails_command("v.mp4", "cache/abc", true).unwrap();
    assert_eq!(b.run_location, None);
    let args = b.render();
    assert_eq!(
        args,
        vec![
            "-hwaccel", "auto", "-skip_frame", "nokey", "-i", "v.mp4", "-vf", "scale=64:-1", "-r",
            "1", "-tune", "fastdecode", "-preset", "fast", "cache/abc/%d.bmp"
        ]
    );
}

#[test]
fn timeline_command_missing_input_fails() {
    let r = create_timeline_thumbnails_command("v.mp4", "cache/abc", false);
    assert!(matches!(r, Err(BuilderError::FileNotFound)));
}
