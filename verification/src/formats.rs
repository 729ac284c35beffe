//! The output formats the clipping tool offers, with each format's encoder
//! preset and the capabilities it lacks.

use vstd::prelude::*;
use vstd::string::*;

verus! {

/// A capability an output format lacks.
#[derive(Debug, Clone, Copy, PartialEq, Eq, Structural)]
pub enum Limitation {
    NoBitrate,
    NoAudio,
}

/// One offered output format: its display name, file extension, the encoder
/// preset used for it, and its limitations.
#[derive(Debug)]
pub struct OutputFormat {
    pub name: String,
    pub extension: String,
    pub preset: String,
    pub limitations: Vec<Limitation>,
}

/// Builds one format entry.
fn format_entry(name: &str, extension: &str, preset: &str, limitations: Vec<Limitation>) -> (r:
    OutputFormat)
    ensures
        r.name@ == name@,
        r.extension@ == extension@,
        r.preset@ == preset@,
        r.limitations == limitations,
{
    OutputFormat {
        name: String::from_str(name),
        extension: String::from_str(extension),
        preset: String::from_str(preset),
        limitations,
    }
}

/// The fixed list of offered output formats: mp4, webm, gif and webp, the
/// last two without bitrate control or audio.
pub fn get_output_formats() -> (r: Vec<OutputFormat>)
    ensures
        r@.len() == 4,
        r@[0].name@ == "mp4"@ && r@[0].extension@ == "mp4"@ && r@[0].preset@ == "ultrafast"@
            && r@[0].limitations@ == Seq::<Limitation>::empty(),
        r@[1].name@ == "webm"@ && r@[1].extension@ == "webm"@ && r@[1].preset@ == "ultrafast"@
            && r@[1].limitations@ == Seq::<Limitation>::empty(),
        r@[2].name@ == "gif"@ && r@[2].extension@ == "gif"@ && r@[2].preset@ == "ultrafast"@
            && r@[2].limitations@ == seq![Limitation::NoBitrate, Limitation::NoAudio],
        r@[3].name@ == "webp"@ && r@[3].extension@ == "webp"@ && r@[3].preset@ == "default"@
            && r@[3].limitations@ == seq![Limitation::NoBitrate, Limitation::NoAudio],
{
    let mut gif_limits: Vec<Limitation> = Vec::new();
    gif_limits.push(Limitation::NoBitrate);
    gif_limits.push(Limitation::NoAudio);
    let mut webp_limits: Vec<Limitation> = Vec::new();
    webp_limits.push(Limitation::NoBitrate);
    webp_limits.push(Limitation::NoAudio);
    proof {
        assert(gif_limits@ =~= seq![Limitation::NoBitrate, Limitation::NoAudio]);
        assert(webp_limits@ =~= seq![Limitation::NoBitrate, Limitation::NoAudio]);
    }
    let mp4_limits: Vec<Limitation> = Vec::new();
    let webm_limits: Vec<Limitation> = Vec::new();
    proof {
        assert(mp4_limits@ =~= Seq::<Limitation>::empty());
        assert(webm_limits@ =~= Seq::<Limitation>::empty());
    }
    let mut formats: Vec<OutputFormat> = Vec::new();
    formats.push(format_entry("mp4", "mp4", "ultrafast", mp4_limits));
    formats.push(format_entry("webm", "webm", "ultrafast", webm_limits));
    formats.push(format_entry("gif", "gif", "ultrafast", gif_limits));
    formats.push(format_entry("webp", "webp", "default", webp_limits));
    formats
}

} // verus!
