//! The configuration records the engine works from. Persistence and the
//! platform's standard directories are collaborators' concerns: defaults are
//! computed from directories handed in as plain paths, and reading or
//! writing the records to disk happens outside this crate.

use vstd::prelude::*;
use vstd::string::*;

verus! {

/// Application-managed state: where thumbnails are cached.
#[derive(Debug, Clone)]
pub struct AppConfig {
    pub thumbnail_cache: String,
}

impl AppConfig {
    /// The default: a `thumbnails` folder under the given cache directory.
    pub fn default_in(cache_dir: &str) -> (r: AppConfig)
        ensures
            r.thumbnail_cache@ == cache_dir@ + seq!['/'] + "thumbnails"@,
    {
        let mut path = String::from_str(cache_dir);
        proof {
            reveal_strlit("/");
            assert("/"@ =~= seq!['/']);
        }
        path.append("/");
        path.append("thumbnails");
        AppConfig { thumbnail_cache: path }
    }
}

/// User-chosen settings: where clips are written and where source videos
/// are looked for.
#[derive(Debug, Clone)]
pub struct UserSettings {
    pub clip_location: String,
    pub videos_directory: String,
}

impl UserSettings {
    /// The default: clips under a `Clips` folder inside the given videos
    /// directory, and that directory itself as the source of videos.
    pub fn default_in(video_dir: &str) -> (r: UserSettings)
        ensures
            r.clip_location@ == video_dir@ + seq!['/'] + "Clips"@,
            r.videos_directory@ == video_dir@,
    {
        let mut clips = String::from_str(video_dir);
        proof {
            reveal_strlit("/");
            assert("/"@ =~= seq!['/']);
        }
        clips.append("/");
        clips.append("Clips");
        UserSettings { clip_location: clips, videos_directory: String::from_str(video_dir) }
    }
}

/// The two configuration records an engine instance carries.
#[derive(Debug, Clone)]
pub struct Configuration {
    pub app_config: AppConfig,
    pub user_settings: UserSettings,
}

impl Configuration {
    /// Bundles the two records.
    pub fn init(app_config: AppConfig, user_settings: UserSettings) -> (r: Configuration)
        ensures
            r.app_config == app_config,
            r.user_settings == user_settings,
    {
        Configuration { app_config, user_settings }
    }
}

} // verus!
