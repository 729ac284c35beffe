//! Ready-made encoder invocations: a clip cut from a source video, a single
//! preview thumbnail, and a folder of timeline thumbnails.
//!
//! Each constructor only assembles an invocation; whether the source path
//! exists is probed by the caller and handed in, and a missing source fails
//! fast with [`BuilderError::FileNotFound`].

use crate::builder::{is_pair, is_single, spec_tempo_clamped, BuilderError, FFmpegBuilder, File,
    Param};
use crate::decimal::{spec_decimal_chars, Decimal, MICROS_PER_UNIT};
use crate::text::{spec_u64_digits, u64_to_string};
use vstd::prelude::*;
use vstd::string::*;

verus! {

/// Everything a clip request carries: source and destination paths, the cut
/// window in seconds, encoding rates, the playback-speed factor, the target
/// resolution, whether audio is dropped, and the output format and preset.
#[derive(Debug)]
pub struct ClipCreationOptions {
    pub from: String,
    pub to: String,
    pub start: Decimal,
    pub end: Decimal,
    pub video_bitrate: Decimal,
    pub audio_bitrate: Decimal,
    pub framerate: Decimal,
    pub speed: Decimal,
    pub resolution: u32,
    pub mute: bool,
    pub format: String,
    pub preset: String,
}

impl ClipCreationOptions {
    /// All numeric fields are well-formed decimals.
    pub open spec fn wf(self) -> bool {
        self.start.wf() && self.end.wf() && self.video_bitrate.wf() && self.audio_bitrate.wf()
            && self.framerate.wf() && self.speed.wf()
    }
}

/// The frame rate a clip is encoded at: scaled down with the speed factor
/// when the clip is slowed, unchanged otherwise.
pub open spec fn spec_clip_framerate(o: ClipCreationOptions) -> Decimal {
    if o.speed.as_int() < MICROS_PER_UNIT {
        Decimal {
            negative: (o.framerate.negative != o.speed.negative) && (o.framerate.micros
                * o.speed.micros) / (MICROS_PER_UNIT as int) > 0,
            micros: ((o.framerate.micros * o.speed.micros) / (MICROS_PER_UNIT as int)) as u64,
        }
    } else {
        o.framerate
    }
}

/// The invocation that cuts one clip: fast-seek window and hardware
/// acceleration on the input, scale, frame-rate and speed filters, and the
/// format, bitrate and preset parameters on the output.
pub fn create_clip_command(
    options: &ClipCreationOptions,
    ffmpeg_location: &str,
    input_exists: bool,
) -> (r: Result<FFmpegBuilder, BuilderError>)
    requires
        options.wf(),
        options.speed.as_int() < MICROS_PER_UNIT ==> (options.framerate.micros
            * options.speed.micros) / (MICROS_PER_UNIT as int) <= u64::MAX,
    ensures
        r is Ok <==> input_exists,
        !input_exists ==> r == Result::<FFmpegBuilder, BuilderError>::Err(
            BuilderError::FileNotFound,
        ),
        r matches Ok(b) ==> {
            &&& b.run_location matches Some(l) && l@ == ffmpeg_location@
            &&& b.options@.len() == 1
            &&& is_single(b.options@[0], "y"@)
            &&& b.inputs@.len() == 1
            &&& b.inputs@[0].path@ == options.from@
            &&& b.inputs@[0].options@.len() == (if options.mute {
                4int
            } else {
                3int
            })
            &&& is_pair(b.inputs@[0].options@[0], "ss"@, spec_decimal_chars(options.start))
            &&& is_pair(b.inputs@[0].options@[1], "to"@, spec_decimal_chars(options.end))
            &&& is_pair(b.inputs@[0].options@[2], "hwaccel"@, "auto"@)
            &&& options.mute ==> is_single(b.inputs@[0].options@[3], "an"@)
            &&& b.video_filters@.len() == 3
            &&& is_pair(
                b.video_filters@[0],
                "scale"@,
                seq!['-', '1', ':'] + spec_u64_digits(options.resolution as nat),
            )
            &&& is_pair(
                b.video_filters@[1],
                "fps=fps"@,
                spec_decimal_chars(spec_clip_framerate(*options)),
            )
            &&& is_pair(
                b.video_filters@[2],
                "setpts"@,
                seq!['P', 'T', 'S', '/'] + spec_decimal_chars(options.speed),
            )
            &&& b.audio_filters@.len() == 1
            &&& is_pair(
                b.audio_filters@[0],
                "atempo"@,
                spec_decimal_chars(spec_tempo_clamped(options.speed)),
            )
            &&& b.outputs@.len() == 1
            &&& b.outputs@[0].path@ == options.to@
            &&& b.outputs@[0].options@.len() == 4
            &&& is_pair(b.outputs@[0].options@[0], "f"@, options.format@)
            &&& is_pair(
                b.outputs@[0].options@[1],
                "b:v"@,
                spec_decimal_chars(options.video_bitrate) + seq!['K'],
            )
            &&& is_pair(
                b.outputs@[0].options@[2],
                "b:a"@,
                spec_decimal_chars(options.audio_bitrate) + seq!['K'],
            )
            &&& is_pair(b.outputs@[0].options@[3], "preset"@, options.preset@)
        },
{
    let mut instance = FFmpegBuilder::new();
    instance.set_run_location(String::from_str(ffmpeg_location));

    let one = Decimal { negative: false, micros: MICROS_PER_UNIT };
    let framerate = if options.speed.lt(one) {
        match options.framerate.mul(options.speed) {
            Some(d) => d,
            None => {
                proof {
                    assert(false);
                }
                options.framerate
            },
        }
    } else {
        options.framerate
    };

    let mut infile = File::from(options.from.as_str());
    infile = infile.option(Param::Pair(String::from_str("ss"), options.start.render()));
    infile = infile.option(Param::Pair(String::from_str("to"), options.end.render()));
    infile = infile.option(Param::create_pair("hwaccel", "auto"));
    if options.mute {
        infile = infile.option(Param::Single(String::from_str("an")));
    }
    match instance.input(infile, input_exists) {
        Ok(_) => {},
        Err(e) => {
            return Err(e);
        },
    }

    instance.option(Param::Single(String::from_str("y")));

    let mut scale_value = String::from_str("-1:");
    let resolution_digits = u64_to_string(options.resolution as u64);
    scale_value.append(resolution_digits.as_str());
    proof {
        reveal_strlit("-1:");
        assert("-1:"@ =~= seq!['-', '1', ':']);
    }
    instance.video_filter("scale", scale_value.as_str());

    let framerate_value = framerate.render();
    instance.video_filter("fps=fps", framerate_value.as_str());

    instance.set_speed(options.speed);

    let mut vb = options.video_bitrate.render();
    let mut ab = options.audio_bitrate.render();
    proof {
        reveal_strlit("K");
        assert("K"@ =~= seq!['K']);
    }
    vb.append("K");
    ab.append("K");
    let mut outfile = File::from(options.to.as_str());
    outfile = outfile.option(Param::Pair(String::from_str("f"), options.format.clone()));
    outfile = outfile.option(Param::Pair(String::from_str("b:v"), vb));
    outfile = outfile.option(Param::Pair(String::from_str("b:a"), ab));
    outfile = outfile.option(Param::Pair(String::from_str("preset"), options.preset.clone()));
    instance.output(outfile);

    Ok(instance)
}

/// The invocation that grabs one preview thumbnail: a seek to three seconds
/// before the end of the source, and a small, fast, single-image output.
pub fn create_thumbnail_command(
    of: &str,
    into: &str,
    ffmpeg_location: &str,
    input_exists: bool,
) -> (r: Result<FFmpegBuilder, BuilderError>)
    ensures
        r is Ok <==> input_exists,
        !input_exists ==> r == Result::<FFmpegBuilder, BuilderError>::Err(
            BuilderError::FileNotFound,
        ),
        r matches Ok(b) ==> {
            &&& b.run_location matches Some(l) && l@ == ffmpeg_location@
            &&& b.options@.len() == 0
            &&& b.inputs@.len() == 1
            &&& b.inputs@[0].path@ == of@
            &&& b.inputs@[0].options@.len() == 1
            &&& is_pair(b.inputs@[0].options@[0], "sseof"@, "-3"@)
            &&& b.video_filters@.len() == 0
            &&& b.audio_filters@.len() == 0
            &&& b.outputs@.len() == 1
            &&& b.outputs@[0].path@ == into@
            &&& b.outputs@[0].options@.len() == 4
            &&& is_pair(b.outputs@[0].options@[0], "preset"@, "ultrafast"@)
            &&& is_pair(b.outputs@[0].options@[1], "q:v"@, "5"@)
            &&& is_pair(b.outputs@[0].options@[2], "update"@, "1"@)
            &&& is_pair(b.outputs@[0].options@[3], "vf"@, "scale=240:-1"@)
        },
{
    let mut instance = FFmpegBuilder::new();
    instance.set_run_location(String::from_str(ffmpeg_location));
    let infile = File::from(of).option(Param::create_pair("sseof", "-3"));
    match instance.input(infile, input_exists) {
        Ok(_) => {},
        Err(e) => {
            return Err(e);
        },
    }
    let outfile = File::from(into).option(Param::create_pair("preset", "ultrafast")).option(
        Param::create_pair("q:v", "5"),
    ).option(Param::create_pair("update", "1")).option(Param::create_pair("vf", "scale=240:-1"));
    instance.output(outfile);
    Ok(instance)
}

/// The invocation that writes one small thumbnail per second of the source
/// into a folder, for a timeline strip: keyframes only, hardware
/// acceleration, and numbered bitmap outputs under the given folder.
pub fn create_timeline_thumbnails_command(from: &str, into: &str, input_exists: bool) -> (r: Result<
    FFmpegBuilder,
    BuilderError,
>)
    ensures
        r is Ok <==> input_exists,
        !input_exists ==> r == Result::<FFmpegBuilder, BuilderError>::Err(
            BuilderError::FileNotFound,
        ),
        r matches Ok(b) ==> {
            &&& b.run_location is None
            &&& b.options@.len() == 0
            &&& b.inputs@.len() == 1
            &&& b.inputs@[0].path@ == from@
            &&& b.inputs@[0].options@.len() == 2
            &&& is_pair(b.inputs@[0].options@[0], "hwaccel"@, "auto"@)
            &&& is_pair(b.inputs@[0].options@[1], "skip_frame"@, "nokey"@)
            &&& b.video_filters@.len() == 1
            &&& is_pair(b.video_filters@[0], "scale"@, "64:-1"@)
            &&& b.audio_filters@.len() == 0
            &&& b.outputs@.len() == 1
            &&& b.outputs@[0].path@ == into@ + seq!['/'] + "%d.bmp"@
            &&& b.outputs@[0].options@.len() == 3
            &&& is_pair(b.outputs@[0].options@[0], "r"@, "1"@)
            &&& is_pair(b.outputs@[0].options@[1], "tune"@, "fastdecode"@)
            &&& is_pair(b.outputs@[0].options@[2], "preset"@, "fast"@)
        },
{
    let mut instance = FFmpegBuilder::new();
    let infile = File::from(from).option(Param::create_pair("hwaccel", "auto")).option(
        Param::create_pair("skip_frame", "nokey"),
    );
    match instance.input(infile, input_exists) {
        Ok(_) => {},
        Err(e) => {
            return Err(e);
        },
    }
    instance.video_filter("scale", "64:-1");
    let mut folder = String::from_str(into);
    proof {
        reveal_strlit("/");
        assert("/"@ =~= seq!['/']);
    }
    folder.append("/");
    folder.append("%d.bmp");
    let outfile = File::from(folder.as_str()).option(Param::create_pair("r", "1")).option(
        Param::create_pair("tune", "fastdecode"),
    ).option(Param::create_pair("preset", "fast"));
    instance.output(outfile);
    Ok(instance)
}

} // verus!
