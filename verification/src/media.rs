//! Consumer-facing records about discovered videos and their thumbnails,
//! and the path text they are computed from.

use crate::text::{spec_u64_digits, u64_to_string};
use vstd::prelude::*;
use vstd::string::*;

verus! {

/// One discovered video as the consumer sees it: its thumbnail, its full
/// path, and its bare file name.
#[derive(Debug, Clone)]
pub struct VideoData {
    pub thumbnail: String,
    pub file: String,
    pub name: String,
}

/// What a timeline-thumbnail request found: a finished folder, or one whose
/// generation was just started.
#[derive(Debug, Clone)]
pub enum TimelineThumbnailsResult {
    Generating(String),
    Found(String),
}

/// The text after the last path separator; a path ending in a separator
/// yields the empty name.
pub open spec fn spec_after_last_slash(s: Seq<char>) -> Seq<char>
    decreases s.len(),
{
    if s.len() == 0 {
        s
    } else if s[s.len() - 1] == '/' {
        Seq::<char>::empty()
    } else {
        spec_after_last_slash(s.drop_last()).push(s[s.len() - 1])
    }
}

/// An index scan from the right pins [`spec_after_last_slash`] down.
proof fn lemma_after_last_slash_at(s: Seq<char>, j: int)
    requires
        0 <= j <= s.len(),
        forall|k: int| j <= k < s.len() ==> s[k] != '/',
        j > 0 ==> s[j - 1] == '/',
    ensures
        spec_after_last_slash(s) == s.subrange(j, s.len() as int),
    decreases s.len() - j,
{
    if j == s.len() {
        assert(s.subrange(j, s.len() as int) =~= Seq::<char>::empty());
        if s.len() == 0 {
            assert(spec_after_last_slash(s) == s);
            assert(s =~= Seq::<char>::empty());
        }
    } else {
        lemma_after_last_slash_at(s.drop_last(), j);
        assert(s.drop_last().subrange(j, s.drop_last().len() as int).push(s[s.len() - 1]) =~= s
            .subrange(j, s.len() as int));
    }
}

/// The bare file name of a path: the text after its last separator.
pub fn file_name_of(path: &str) -> (r: String)
    ensures
        r@ == spec_after_last_slash(path@),
{
    let len = path.unicode_len();
    let mut j: usize = len;
    while j > 0 && path.get_char(j - 1) != '/'
        invariant
            len == path@.len(),
            j <= len,
            forall|k: int| j <= k < len ==> path@[k] != '/',
        decreases j,
    {
        j -= 1;
    }
    proof {
        lemma_after_last_slash_at(path@, j as int);
    }
    String::from_str(path.substring_char(j, len))
}

impl VideoData {
    /// The record for one discovered video: the name is read off the path.
    pub fn new(file: &str, thumbnail: &str) -> (r: VideoData)
        ensures
            r.file@ == file@,
            r.thumbnail@ == thumbnail@,
            r.name@ == spec_after_last_slash(file@),
    {
        VideoData {
            thumbnail: String::from_str(thumbnail),
            file: String::from_str(file),
            name: file_name_of(file),
        }
    }
}

/// The probe file that tells a finished timeline folder apart: the folder is
/// complete when its last thumbnail, numbered by the video's whole seconds,
/// exists.
pub fn timeline_probe_name(duration_secs: u64) -> (r: String)
    ensures
        r@ == spec_u64_digits(duration_secs as nat) + ".bmp"@,
{
    let mut name = u64_to_string(duration_secs);
    name.append(".bmp");
    name
}

/// The decision a timeline-thumbnail request comes down to: a folder whose
/// probe file exists is `Found` as it is; otherwise generation starts and
/// the folder is reported as `Generating`.
pub fn timeline_thumbnails_result(folder_path: &str, probe_exists: bool) -> (r:
    TimelineThumbnailsResult)
    ensures
        probe_exists ==> (r matches TimelineThumbnailsResult::Found(p) && p@ == folder_path@),
        !probe_exists ==> (r matches TimelineThumbnailsResult::Generating(p) && p@
            == folder_path@),
{
    if probe_exists {
        TimelineThumbnailsResult::Found(String::from_str(folder_path))
    } else {
        TimelineThumbnailsResult::Generating(String::from_str(folder_path))
    }
}

/// The video file extensions the tool scans for.
pub fn get_supported_video_extensions() -> (r: Vec<String>)
    ensures
        r.deep_view() == seq!["mp4"@, "mkv"@, "avi"@, "webm"@, "mov"@, "flv"@, "wmv"@],
{
    let mut extensions: Vec<String> = Vec::new();
    extensions.push(String::from_str("mp4"));
    extensions.push(String::from_str("mkv"));
    extensions.push(String::from_str("avi"));
    extensions.push(String::from_str("webm"));
    extensions.push(String::from_str("mov"));
    extensions.push(String::from_str("flv"));
    extensions.push(String::from_str("wmv"));
    proof {
        assert(extensions.deep_view() =~= seq![
            "mp4"@,
            "mkv"@,
            "avi"@,
            "webm"@,
            "mov"@,
            "flv"@,
            "wmv"@,
        ]);
    }
    extensions
}

} // verus!
