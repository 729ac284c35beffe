//! The command builder: a typed description of one encoder invocation.
//!
//! An invocation holds ordered global parameters, ordered input and output
//! files (each with its own parameters, applied immediately before its path),
//! and two named filter chains. Rendering lays the arguments out in a fixed
//! order; the builder itself never touches the filesystem — whether an input
//! path exists is probed by the caller and handed in as a plain value.

use crate::decimal::{spec_decimal_chars, Decimal};
use vstd::prelude::*;
use vstd::string::*;

verus! {

/// One command-line parameter: a bare flag or a key/value pair. The leading
/// dash is added at render time, so a malformed flag shape cannot be
/// constructed.
#[derive(Debug)]
pub enum Param {
    Single(String),
    Pair(String, String),
}

/// A path plus the parameters scoped to it. For inputs the parameters must
/// precede the path (seek flags, for one, only take effect there).
#[derive(Debug)]
pub struct File {
    pub path: String,
    pub options: Vec<Param>,
}

/// The one validation failure the builder raises: an input path that does
/// not exist when it is added.
#[derive(Debug, Clone, Copy, PartialEq, Eq, Structural)]
pub enum BuilderError {
    FileNotFound,
}

/// Whether `p` is the key/value pair `key`/`value`.
pub open spec fn is_pair(p: Param, key: Seq<char>, value: Seq<char>) -> bool {
    p matches Param::Pair(k, v) && k@ == key && v@ == value
}

/// Whether `p` is the bare flag `name`.
pub open spec fn is_single(p: Param, name: Seq<char>) -> bool {
    p matches Param::Single(s) && s@ == name
}

/// The argument strings one parameter renders to.
pub open spec fn spec_param_args(p: Param) -> Seq<Seq<char>> {
    match p {
        Param::Single(name) => seq![seq!['-'] + name@],
        Param::Pair(name, value) => seq![seq!['-'] + name@, value@],
    }
}

/// The argument strings of a parameter list, in order.
pub open spec fn spec_params_args(ps: Seq<Param>) -> Seq<Seq<char>>
    decreases ps.len(),
{
    if ps.len() == 0 {
        Seq::<Seq<char>>::empty()
    } else {
        spec_params_args(ps.drop_last()) + spec_param_args(ps.last())
    }
}

/// The argument strings of one file: its own parameters, then `-i` for an
/// input, then the path.
pub open spec fn spec_file_args(f: File, is_input: bool) -> Seq<Seq<char>> {
    spec_params_args(f.options@) + (if is_input {
        seq![seq!['-', 'i']]
    } else {
        Seq::<Seq<char>>::empty()
    }) + seq![f.path@]
}

/// The argument strings of a file list, in order.
pub open spec fn spec_files_args(fs: Seq<File>, is_input: bool) -> Seq<Seq<char>>
    decreases fs.len(),
{
    if fs.len() == 0 {
        Seq::<Seq<char>>::empty()
    } else {
        spec_files_args(fs.drop_last(), is_input) + spec_file_args(fs.last(), is_input)
    }
}

/// The element a parameter contributes to a filter chain.
pub open spec fn spec_filter_elem(p: Param) -> Seq<char> {
    match p {
        Param::Single(name) => name@,
        Param::Pair(name, value) => name@ + seq!['='] + value@,
    }
}

/// A filter chain as one string: the elements joined by a comma and a space.
pub open spec fn spec_filter_chain(ps: Seq<Param>) -> Seq<char>
    decreases ps.len(),
{
    if ps.len() == 0 {
        Seq::<char>::empty()
    } else if ps.len() == 1 {
        spec_filter_elem(ps[0])
    } else {
        spec_filter_chain(ps.drop_last()) + seq![',', ' '] + spec_filter_elem(ps.last())
    }
}

impl Param {
    /// A key/value parameter from its two parts.
    pub fn create_pair(key: &str, value: &str) -> (r: Param)
        ensures
            r matches Param::Pair(k, v) && k@ == key@ && v@ == value@,
    {
        Param::Pair(String::from_str(key), String::from_str(value))
    }
}

impl File {
    /// A file with no parameters of its own.
    pub fn from(path: &str) -> (r: File)
        ensures
            r.path@ == path@,
            r.options@ == Seq::<Param>::empty(),
    {
        let f = File { path: String::from_str(path), options: Vec::new() };
        proof {
            assert(f.options@ =~= Seq::<Param>::empty());
        }
        f
    }

    /// The file extended with one more scoped parameter.
    pub fn option(self, option: Param) -> (r: File)
        ensures
            r.path == self.path,
            r.options@ == self.options@.push(option),
    {
        let mut f = self;
        f.options.push(option);
        f
    }
}

/// An encoder invocation under construction.
#[derive(Debug)]
pub struct FFmpegBuilder {
    pub options: Vec<Param>,
    pub inputs: Vec<File>,
    pub outputs: Vec<File>,
    pub video_filters: Vec<Param>,
    pub audio_filters: Vec<Param>,
    pub run_location: Option<String>,
}

/// The rendered argument list: global parameters; each input's parameters,
/// `-i` and its path; the video filter chain under `-vf` when non-empty; the
/// audio filter chain under `-filter:a` when non-empty; each output's
/// parameters and its path.
pub open spec fn spec_render(b: FFmpegBuilder) -> Seq<Seq<char>> {
    spec_params_args(b.options@) + spec_files_args(b.inputs@, true) + (
    if b.video_filters@.len() == 0 {
        Seq::<Seq<char>>::empty()
    } else {
        seq![seq!['-', 'v', 'f'], spec_filter_chain(b.video_filters@)]
    }) + (if b.audio_filters@.len() == 0 {
        Seq::<Seq<char>>::empty()
    } else {
        seq![
            seq!['-', 'f', 'i', 'l', 't', 'e', 'r', ':', 'a'],
            spec_filter_chain(b.audio_filters@),
        ]
    }) + spec_files_args(b.outputs@, false)
}

impl FFmpegBuilder {
    /// An empty invocation. The encoder's location is a collaborator's
    /// concern and is set explicitly when one is known.
    pub fn new() -> (r: FFmpegBuilder)
        ensures
            r.options@ == Seq::<Param>::empty(),
            r.inputs@ == Seq::<File>::empty(),
            r.outputs@ == Seq::<File>::empty(),
            r.video_filters@ == Seq::<Param>::empty(),
            r.audio_filters@ == Seq::<Param>::empty(),
            r.run_location is None,
    {
        let b = FFmpegBuilder {
            options: Vec::new(),
            inputs: Vec::new(),
            outputs: Vec::new(),
            video_filters: Vec::new(),
            audio_filters: Vec::new(),
            run_location: None,
        };
        proof {
            assert(b.options@ =~= Seq::<Param>::empty());
            assert(b.inputs@ =~= Seq::<File>::empty());
            assert(b.outputs@ =~= Seq::<File>::empty());
            assert(b.video_filters@ =~= Seq::<Param>::empty());
            assert(b.audio_filters@ =~= Seq::<Param>::empty());
        }
        b
    }

    /// Records the directory the encoder runs from.
    pub fn set_run_location(&mut self, location: String)
        ensures
            final(self).run_location == Some(location),
            final(self).options == old(self).options,
            final(self).inputs == old(self).inputs,
            final(self).outputs == old(self).outputs,
            final(self).video_filters == old(self).video_filters,
            final(self).audio_filters == old(self).audio_filters,
    {
        self.run_location = Some(location);
    }

    /// Appends a global parameter; no validation applies.
    pub fn option(&mut self, option: Param)
        ensures
            final(self).options@ == old(self).options@.push(option),
            final(self).inputs == old(self).inputs,
            final(self).outputs == old(self).outputs,
            final(self).video_filters == old(self).video_filters,
            final(self).audio_filters == old(self).audio_filters,
            final(self).run_location == old(self).run_location,
    {
        self.options.push(option);
    }

    /// Appends an input file. The caller probes the filesystem and passes
    /// whether the path exists at call time; a missing path fails fast here,
    /// before any process is spawned, and leaves the invocation unchanged.
    pub fn input(&mut self, input: File, path_exists: bool) -> (r: Result<(), BuilderError>)
        ensures
            r is Ok <==> path_exists,
            path_exists ==> final(self).inputs@ == old(self).inputs@.push(input),
            !path_exists ==> r == Result::<(), BuilderError>::Err(BuilderError::FileNotFound)
                && final(self).inputs == old(self).inputs,
            final(self).options == old(self).options,
            final(self).outputs == old(self).outputs,
            final(self).video_filters == old(self).video_filters,
            final(self).audio_filters == old(self).audio_filters,
            final(self).run_location == old(self).run_location,
    {
        if !path_exists {
            return Err(BuilderError::FileNotFound);
        }
        self.inputs.push(input);
        Ok(())
    }

    /// Appends an output file; outputs are created by the run, so no
    /// existence check applies.
    pub fn output(&mut self, output: File)
        ensures
            final(self).outputs@ == old(self).outputs@.push(output),
            final(self).options == old(self).options,
            final(self).inputs == old(self).inputs,
            final(self).video_filters == old(self).video_filters,
            final(self).audio_filters == old(self).audio_filters,
            final(self).run_location == old(self).run_location,
    {
        self.outputs.push(output);
    }

    /// Appends a `key=value` stage to the video filter chain.
    pub fn video_filter(&mut self, key: &str, value: &str)
        ensures
            final(self).video_filters@.len() == old(self).video_filters@.len() + 1,
            final(self).video_filters@.drop_last() == old(self).video_filters@,
            final(self).video_filters@.last() matches Param::Pair(k, v) && k@ == key@ && v@
                == value@,
            final(self).options == old(self).options,
            final(self).inputs == old(self).inputs,
            final(self).outputs == old(self).outputs,
            final(self).audio_filters == old(self).audio_filters,
            final(self).run_location == old(self).run_location,
    {
        self.video_filters.push(Param::create_pair(key, value));
        proof {
            assert(self.video_filters@.drop_last() =~= old(self).video_filters@);
        }
    }

    /// Appends a `key=value` stage to the audio filter chain.
    pub fn audio_filter(&mut self, key: &str, value: &str)
        ensures
            final(self).audio_filters@.len() == old(self).audio_filters@.len() + 1,
            final(self).audio_filters@.drop_last() == old(self).audio_filters@,
            final(self).audio_filters@.last() matches Param::Pair(k, v) && k@ == key@ && v@
                == value@,
            final(self).options == old(self).options,
            final(self).inputs == old(self).inputs,
            final(self).outputs == old(self).outputs,
            final(self).video_filters == old(self).video_filters,
            final(self).run_location == old(self).run_location,
    {
        self.audio_filters.push(Param::create_pair(key, value));
        proof {
            assert(self.audio_filters@.drop_last() =~= old(self).audio_filters@);
        }
    }
}

/// Renders one parameter onto an argument list.
fn push_param(args: &mut Vec<String>, p: &Param)
    ensures
        final(args).deep_view() == old(args).deep_view() + spec_param_args(*p),
{
    proof {
        reveal_strlit("-");
        assert("-"@ =~= seq!['-']);
    }
    match p {
        Param::Single(name) => {
            let mut s = String::from_str("-");
            s.append(name.as_str());
            args.push(s);
        },
        Param::Pair(name, value) => {
            let mut s = String::from_str("-");
            s.append(name.as_str());
            args.push(s);
            args.push(value.clone());
        },
    }
    proof {
        assert(args.deep_view() =~= old(args).deep_view() + spec_param_args(*p));
    }
}

/// Renders one file onto an argument list.
fn push_file(args: &mut Vec<String>, f: &File, is_input: bool)
    ensures
        final(args).deep_view() == old(args).deep_view() + spec_file_args(*f, is_input),
{
    let ghost base = args.deep_view();
    let mut i: usize = 0;
    proof {
        assert(f.options@.subrange(0, 0) =~= Seq::<Param>::empty());
        assert(args.deep_view() =~= base + spec_params_args(f.options@.subrange(0, 0)));
    }
    while i < f.options.len()
        invariant
            i <= f.options@.len(),
            args.deep_view() == base + spec_params_args(f.options@.subrange(0, i as int)),
        decreases f.options@.len() - i,
    {
        push_param(args, &f.options[i]);
        proof {
            let cur = f.options@.subrange(0, i + 1);
            assert(cur.drop_last() =~= f.options@.subrange(0, i as int));
            assert(cur.last() == f.options@[i as int]);
            assert(args.deep_view() =~= base + spec_params_args(cur));
        }
        i += 1;
    }
    proof {
        assert(f.options@.subrange(0, f.options@.len() as int) =~= f.options@);
    }
    let ghost mid = args.deep_view();
    if is_input {
        proof {
            reveal_strlit("-i");
            assert("-i"@ =~= seq!['-', 'i']);
        }
        args.push(String::from_str("-i"));
        proof {
            assert(args.deep_view() =~= mid.push(seq!['-', 'i']));
        }
    }
    let ghost mid2 = args.deep_view();
    args.push(f.path.clone());
    proof {
        assert(args.deep_view() =~= mid2.push(f.path@));
        assert(args.deep_view() =~= base + spec_file_args(*f, is_input));
    }
}

/// Playback speed forced into the audio tempo stage's hard range
/// `[0.5, 2.0]`, in micros.
pub open spec fn spec_tempo_clamped(speed: Decimal) -> Decimal {
    if speed.as_int() < 500000 {
        Decimal { negative: false, micros: 500000 }
    } else if speed.as_int() > 2000000 {
        Decimal { negative: false, micros: 2000000 }
    } else {
        speed
    }
}

/// Whatever playback speed is requested, the audio tempo parameter the
/// builder emits lies in the external tool's hard range `[0.5, 2.0]`.
pub proof fn lemma_tempo_clamped_in_range(speed: Decimal)
    ensures
        500000 <= spec_tempo_clamped(speed).as_int() <= 2000000,
{
}

impl FFmpegBuilder {
    /// One filter chain as a single argument, per [`spec_filter_chain`].
    fn create_filter_string(&self, filters: &Vec<Param>) -> (r: String)
        ensures
            r@ == spec_filter_chain(filters@),
    {
        let mut out = String::new();
        proof {
            assert(filters@.subrange(0, 0) =~= Seq::<Param>::empty());
        }
        let mut i: usize = 0;
        while i < filters.len()
            invariant
                i <= filters@.len(),
                out@ == spec_filter_chain(filters@.subrange(0, i as int)),
            decreases filters@.len() - i,
        {
            if i > 0 {
                proof {
                    reveal_strlit(", ");
                    assert(", "@ =~= seq![',', ' ']);
                }
                out.append(", ");
            }
            match &filters[i] {
                Param::Single(name) => {
                    out.append(name.as_str());
                },
                Param::Pair(key, value) => {
                    out.append(key.as_str());
                    proof {
                        reveal_strlit("=");
                        assert("="@ =~= seq!['=']);
                    }
                    out.append("=");
                    out.append(value.as_str());
                },
            }
            proof {
                let cur = filters@.subrange(0, i + 1);
                assert(cur.drop_last() =~= filters@.subrange(0, i as int));
                assert(cur.last() == filters@[i as int]);
                assert(out@ =~= spec_filter_chain(cur));
            }
            i += 1;
        }
        proof {
            assert(filters@.subrange(0, filters@.len() as int) =~= filters@);
        }
        out
    }

    /// Renders the invocation into its argument list, per [`spec_render`].
    /// Rendering is pure: the builder is left untouched and equal inputs
    /// yield equal argument lists.
    pub fn render(&self) -> (r: Vec<String>)
        ensures
            r.deep_view() == spec_render(*self),
    {
        let mut args: Vec<String> = Vec::new();
        proof {
            assert(self.options@.subrange(0, 0) =~= Seq::<Param>::empty());
            assert(args.deep_view() =~= spec_params_args(self.options@.subrange(0, 0)));
        }
        let mut i: usize = 0;
        while i < self.options.len()
            invariant
                i <= self.options@.len(),
                args.deep_view() == spec_params_args(self.options@.subrange(0, i as int)),
            decreases self.options@.len() - i,
        {
            push_param(&mut args, &self.options[i]);
            proof {
                let cur = self.options@.subrange(0, i + 1);
                assert(cur.drop_last() =~= self.options@.subrange(0, i as int));
                assert(cur.last() == self.options@[i as int]);
                assert(args.deep_view() =~= spec_params_args(cur));
            }
            i += 1;
        }
        proof {
            assert(self.options@.subrange(0, self.options@.len() as int) =~= self.options@);
        }
        let ghost seg_options = spec_params_args(self.options@);
        let mut i: usize = 0;
        proof {
            assert(self.inputs@.subrange(0, 0) =~= Seq::<File>::empty());
            assert(args.deep_view() =~= seg_options + spec_files_args(
                self.inputs@.subrange(0, 0),
                true,
            ));
        }
        while i < self.inputs.len()
            invariant
                i <= self.inputs@.len(),
                args.deep_view() == seg_options + spec_files_args(
                    self.inputs@.subrange(0, i as int),
                    true,
                ),
            decreases self.inputs@.len() - i,
        {
            push_file(&mut args, &self.inputs[i], true);
            proof {
                let cur = self.inputs@.subrange(0, i + 1);
                assert(cur.drop_last() =~= self.inputs@.subrange(0, i as int));
                assert(cur.last() == self.inputs@[i as int]);
                assert(args.deep_view() =~= seg_options + spec_files_args(cur, true));
            }
            i += 1;
        }
        proof {
            assert(self.inputs@.subrange(0, self.inputs@.len() as int) =~= self.inputs@);
        }
        let ghost seg_inputs = seg_options + spec_files_args(self.inputs@, true);
        if self.video_filters.len() > 0 {
            proof {
                reveal_strlit("-vf");
                assert("-vf"@ =~= seq!['-', 'v', 'f']);
            }
            args.push(String::from_str("-vf"));
            let chain = self.create_filter_string(&self.video_filters);
            args.push(chain);
        }
        let ghost seg_vf = seg_inputs + (if self.video_filters@.len() == 0 {
            Seq::<Seq<char>>::empty()
        } else {
            seq![seq!['-', 'v', 'f'], spec_filter_chain(self.video_filters@)]
        });
        proof {
            assert(args.deep_view() =~= seg_vf);
        }
        if self.audio_filters.len() > 0 {
            proof {
                reveal_strlit("-filter:a");
                assert("-filter:a"@ =~= seq!['-', 'f', 'i', 'l', 't', 'e', 'r', ':', 'a']);
            }
            args.push(String::from_str("-filter:a"));
            let chain = self.create_filter_string(&self.audio_filters);
            args.push(chain);
        }
        let ghost seg_af = seg_vf + (if self.audio_filters@.len() == 0 {
            Seq::<Seq<char>>::empty()
        } else {
            seq![
                seq!['-', 'f', 'i', 'l', 't', 'e', 'r', ':', 'a'],
                spec_filter_chain(self.audio_filters@),
            ]
        });
        proof {
            assert(args.deep_view() =~= seg_af);
        }
        let mut i: usize = 0;
        proof {
            assert(self.outputs@.subrange(0, 0) =~= Seq::<File>::empty());
            assert(args.deep_view() =~= seg_af + spec_files_args(
                self.outputs@.subrange(0, 0),
                false,
            ));
        }
        while i < self.outputs.len()
            invariant
                i <= self.outputs@.len(),
                args.deep_view() == seg_af + spec_files_args(
                    self.outputs@.subrange(0, i as int),
                    false,
                ),
            decreases self.outputs@.len() - i,
        {
            push_file(&mut args, &self.outputs[i], false);
            proof {
                let cur = self.outputs@.subrange(0, i + 1);
                assert(cur.drop_last() =~= self.outputs@.subrange(0, i as int));
                assert(cur.last() == self.outputs@[i as int]);
                assert(args.deep_view() =~= seg_af + spec_files_args(cur, false));
            }
            i += 1;
        }
        proof {
            assert(self.outputs@.subrange(0, self.outputs@.len() as int) =~= self.outputs@);
            assert(args.deep_view() =~= spec_render(*self));
        }
        args
    }

    /// Appends the two fixed global parameters a progress-streamed run
    /// needs: machine-readable telemetry directed to standard output, and
    /// normal human-readable statistics suppressed so the parser's input
    /// stays clean.
    pub fn add_progress_options(&mut self)
        ensures
            final(self).options@.len() == old(self).options@.len() + 2,
            final(self).options@.drop_last().drop_last() == old(self).options@,
            final(self).options@[final(self).options@.len() - 2] matches Param::Pair(k, v) && k@
                == "progress"@ && v@ == "-"@,
            final(self).options@.last() matches Param::Single(s) && s@ == "nostats"@,
            final(self).inputs == old(self).inputs,
            final(self).outputs == old(self).outputs,
            final(self).video_filters == old(self).video_filters,
            final(self).audio_filters == old(self).audio_filters,
            final(self).run_location == old(self).run_location,
    {
        self.option(Param::create_pair("progress", "-"));
        self.option(Param::Single(String::from_str("nostats")));
        proof {
            assert(self.options@.drop_last().drop_last() =~= old(self).options@);
        }
    }

    /// Composes the speed change: a video stage rescaling presentation
    /// timestamps by the reciprocal of the factor, and an audio tempo stage
    /// clamped into the tool's hard range `[0.5, 2.0]`.
    pub fn set_speed(&mut self, speed: Decimal)
        requires
            speed.wf(),
        ensures
            final(self).video_filters@.len() == old(self).video_filters@.len() + 1,
            final(self).video_filters@.drop_last() == old(self).video_filters@,
            final(self).video_filters@.last() matches Param::Pair(k, v) && k@ == "setpts"@ && v@
                == seq!['P', 'T', 'S', '/'] + spec_decimal_chars(speed),
            final(self).audio_filters@.len() == old(self).audio_filters@.len() + 1,
            final(self).audio_filters@.drop_last() == old(self).audio_filters@,
            final(self).audio_filters@.last() matches Param::Pair(k, v) && k@ == "atempo"@ && v@
                == spec_decimal_chars(spec_tempo_clamped(speed)),
            final(self).options == old(self).options,
            final(self).inputs == old(self).inputs,
            final(self).outputs == old(self).outputs,
            final(self).run_location == old(self).run_location,
    {
        let rendered = speed.render();
        let mut pts = String::from_str("PTS/");
        pts.append(rendered.as_str());
        proof {
            reveal_strlit("PTS/");
            assert("PTS/"@ =~= seq!['P', 'T', 'S', '/']);
        }
        self.video_filter("setpts", pts.as_str());
        let lo = Decimal { negative: false, micros: 500000 };
        let hi = Decimal { negative: false, micros: 2000000 };
        let clamped = speed.clamp(lo, hi);
        proof {
            assert(clamped == spec_tempo_clamped(speed));
        }
        let tempo = clamped.render();
        self.audio_filter("atempo", tempo.as_str());
    }
}

} // verus!
