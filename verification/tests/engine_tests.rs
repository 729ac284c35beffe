use clip_engine::cleaning::is_eligible_for_cleanup;
use clip_engine::config::{AppConfig, Configuration, UserSettings};
use clip_engine::formats::{get_output_formats, Limitation};
use clip_engine::gst::{GstreamerBuilder, GstreamerBuilderError};
use clip_engine::hashing::{thumbnail_cache_path, timeline_folder_path, to_hashed_name};
use clip_engine::media::{
    file_name_of, get_supported_video_extensions, timeline_probe_name,
    timeline_thumbnails_result, TimelineThumbnailsResult, VideoData,
};
use clip_engine::strategy::GstreamerThumbnailCreation;

#[test]
fn hashed_name_is_the_lowercase_hex_digest() {
    assert_eq!(to_hashed_name("abc"), "900150983cd24fb0d6963f7d28e17f72");
    assert_eq!(to_hashed_name(""), "d41d8cd98f00b204e9800998ecf8427e");
}

#[test]
fn thumbnail_cache_path_joins_folder_hash_and_extension() {
    assert_eq!(
        thumbnail_cache_path("/cache", "abc"),
        "/cache/900150983cd24fb0d6963f7d28e17f72.jpg"
    );
}

#[test]
fn timeline_folder_is_named_by_the_hash() {
    assert_eq!(
        timeline_folder_path("/cache", "abc"),
        "/cache/900150983cd24fb0d6963f7d28e17f72"
    );
}

#[test]
fn timeline_probe_is_the_duration_numbered_bitmap() {
    assert_eq!(timeline_probe_name(95), "95.bmp");
    assert_eq!(timeline_probe_name(0), "0.bmp");
}

#[test]
fn timeline_result_reports_found_or_generating() {
    assert!(matches!(
        timeline_thumbnails_result("/cache/x", true),
        TimelineThumbnailsResult::Found(p) if p == "/cache/x"
    ));
    assert!(matches!(
        timeline_thumbnails_result("/cache/x", false),
        TimelineThumbnailsResult::Generating(p) if p == "/cache/x"
    ));
}

#[test]
fn file_name_is_the_text_after_the_last_separator() {
    assert_eq!(file_name_of("videos/clips/a.mp4"), "a.mp4");
    assert_eq!(file_name_of("a.mp4"), "a.mp4");
    assert_eq!(file_name_of("videos/"), "");
    assert_eq!(file_name_of(""), "");
}

#[test]
fn video_data_carries_path_thumbnail_and_name() {
    let v = VideoData::new("videos/a.mp4", "/cache/h.jpg");
    assert_eq!(v.file, "videos/a.mp4");
    assert_eq!(v.thumbnail, "/cache/h.jpg");
    assert_eq!(v.name, "a.mp4");
}

#[test]
fn supported_extensions_are_the_seven_video_kinds() {
    let e = get_supported_video_extensions();
    assert_eq!(e, vec!["mp4", "mkv", "avi", "webm", "mov", "flv", "wmv"]);
}

#[test]
fn output_formats_list_the_four_choices_with_limitations() {
    let formats = get_output_formats();
    assert_eq!(formats.len(), 4);
    assert_eq!(formats[0].name, "mp4");
    assert_eq!(formats[0].extension, "mp4");
    assert_eq!(formats[0].preset, "ultrafast");
    assert!(formats[0].limitations.is_empty());
    assert_eq!(formats[1].name, "webm");
    assert!(formats[1].limitations.is_empty());
    assert_eq!(formats[2].name, "gif");
    assert_eq!(
        formats[2].limitations,
        vec![Limitation::NoBitrate, Limitation::NoAudio]
    );
    assert_eq!(formats[3].name, "webp");
    assert_eq!(formats[3].preset, "default");
    assert_eq!(
        formats[3].limitations,
        vec![Limitation::NoBitrate, Limitation::NoAudio]
    );
}

#[test]
fn cleanup_eligibility_is_strictly_older_than_a_week() {
    let week = 7 * 86400;
    assert!(!is_eligible_for_cleanup(0, week));
    assert!(!is_eligible_for_cleanup(100, week + 100));
    assert!(is_eligible_for_cleanup(99, week + 100));
    assert!(!is_eligible_for_cleanup(5, 10));
    assert!(is_eligible_for_cleanup(0, week + 1));
}

#[test]
fn config_defaults_hang_off_the_given_directories() {
    let app = AppConfig::default_in("/home/u/.cache/app");
    assert_eq!(app.thumbnail_cache, "/home/u/.cache/app/thumbnails");
    let user = UserSettings::default_in("/home/u/Videos");
    assert_eq!(user.clip_location, "/home/u/Videos/Clips");
    assert_eq!(user.videos_directory, "/home/u/Videos");
    let config = Configuration::init(app, user);
    assert_eq!(config.app_config.thumbnail_cache, "/home/u/.cache/app/thumbnails");
    assert_eq!(config.user_settings.videos_directory, "/home/u/Videos");
}

#[test]
fn pipeline_description_wraps_the_input_uri() {
    let mut b = GstreamerBuilder { input_file: None };
    b.set_input("file:///v.mp4");
    let d = b.build().unwrap();
    assert_eq!(d, "uridecodebin uri=file:///v.mp4 ! videoconvert ! appsink name=sink\n");
}

#[test]
fn pipeline_without_input_reports_the_missing_file() {
    let b = GstreamerBuilder { input_file: None };
    assert!(matches!(b.build(), Err(GstreamerBuilderError::InputFileMissing)));
}

#[test]
fn thumbnail_strategy_records_its_input() {
    let mut s = GstreamerThumbnailCreation { input_file: None };
    s.set_input("file:///v.mp4");
    assert_eq!(s.input_file.as_deref(), Some("file:///v.mp4"));
}
