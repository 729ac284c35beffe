//! The progress parser: an incremental state machine over the encoder's
//! `key=value` telemetry lines.
//!
//! Each line updates at most one field of a [`Progress`] record. Unknown or
//! malformed lines are reported as soft errors and never disturb what earlier
//! lines established, so a stream may degrade gracefully.

use crate::decimal::{spec_parse_decimal, parse_decimal, Decimal};
use crate::text::{
    find_char, lemma_find_props, parse_u64, spec_find, spec_parse_u64, spec_strip_trailing,
    spec_trim, str_eq, strip_trailing, trim_str,
};
use vstd::prelude::*;
use vstd::string::*;

verus! {

/// The run status a `progress` line reports. `End` is terminal; anything the
/// tool may invent later maps to `Unknown`, the safe default.
#[derive(Debug, Clone, Copy, PartialEq, Eq, Structural)]
pub enum Status {
    Continue,
    End,
    Unknown,
}

impl Default for Status {
    /// Before any `progress` line arrives the status is unknown.
    fn default() -> (r: Status)
        ensures
            r == Status::Unknown,
    {
        Status::Unknown
    }
}

/// One snapshot of the encoder's progress. Every field is optional: not
/// every telemetry line carries every key, and parsing may be partial.
#[derive(Debug, Clone)]
pub struct Progress {
    /// Frame the encoder is on.
    pub frame: Option<u64>,
    /// Frame rate the encoder is processing at.
    pub fps: Option<Decimal>,
    /// Bytes of output produced so far.
    pub total_size: Option<u64>,
    /// How far the encoder has processed, in seconds.
    pub out_time: Option<Decimal>,
    /// Duplicated frames.
    pub dup_frames: Option<u64>,
    /// Dropped frames.
    pub drop_frames: Option<u64>,
    /// Processing speed relative to playback speed.
    pub speed: Option<Decimal>,
    /// The run status last reported.
    pub status: Status,
}

impl Default for Progress {
    /// A fresh record: no field seen yet, status unknown.
    fn default() -> (r: Progress)
        ensures
            r.frame is None,
            r.fps is None,
            r.total_size is None,
            r.out_time is None,
            r.dup_frames is None,
            r.drop_frames is None,
            r.speed is None,
            r.status == Status::Unknown,
    {
        Progress {
            frame: None,
            fps: None,
            total_size: None,
            out_time: None,
            dup_frames: None,
            drop_frames: None,
            speed: None,
            status: Status::Unknown,
        }
    }
}

/// How one telemetry line can fail. A failure is local to its line: the
/// caller logs it and reads on.
#[derive(Debug, Clone)]
pub enum ProgressParseError {
    /// No key part could be taken from the line. Kept for callers that match
    /// on every variant; the splitting used here always yields a (possibly
    /// empty) key, so this variant is never produced.
    KeyNotFound,
    /// The line holds no `=`, so no value part exists.
    ValueNotFound,
    /// The value of a recognized numeric key did not parse; carries that
    /// value text.
    UnableToParseValue(String),
    /// The key is not recognized; carries the whole `key=value` text.
    UnknownKey(String),
}

/// What one line did, at the specification level: a field update, a
/// recognized key that carries nothing, or one of the soft failures with
/// its reported text.
pub enum LineOutcome {
    Updated,
    Ignored,
    MissingValue,
    BadValue(Seq<char>),
    UnknownKey(Seq<char>),
}

/// The executable error that corresponds to a specification-level outcome.
pub open spec fn outcome_matches(r: Result<(), ProgressParseError>, oc: LineOutcome) -> bool {
    match oc {
        LineOutcome::Updated => r is Ok,
        LineOutcome::Ignored => r is Ok,
        LineOutcome::MissingValue => r matches Err(ProgressParseError::ValueNotFound),
        LineOutcome::BadValue(v) => r matches Err(ProgressParseError::UnableToParseValue(s)) && s@
            == v,
        LineOutcome::UnknownKey(kv) => r matches Err(ProgressParseError::UnknownKey(s)) && s@
            == kv,
    }
}

/// The status a `progress` value maps to.
pub open spec fn spec_status_of(v: Seq<char>) -> Status {
    if v == "continue"@ {
        Status::Continue
    } else if v == "end"@ {
        Status::End
    } else {
        Status::Unknown
    }
}

/// What dispatching one `key`/`value` pair does to a record.
pub open spec fn spec_set(p: Progress, key: Seq<char>, value: Seq<char>) -> (Progress, LineOutcome) {
    if key == "frame"@ {
        match spec_parse_u64(spec_trim(value)) {
            Some(n) => (Progress { frame: Some(n), ..p }, LineOutcome::Updated),
            None => (p, LineOutcome::BadValue(value)),
        }
    } else if key == "fps"@ {
        match spec_parse_decimal(spec_trim(value)) {
            Some(d) => (Progress { fps: Some(d), ..p }, LineOutcome::Updated),
            None => (p, LineOutcome::BadValue(value)),
        }
    } else if key == "total_size"@ {
        match spec_parse_u64(spec_trim(value)) {
            Some(n) => (Progress { total_size: Some(n), ..p }, LineOutcome::Updated),
            None => (p, LineOutcome::BadValue(value)),
        }
    } else if key == "out_time_us"@ {
        match spec_parse_u64(spec_trim(value)) {
            Some(n) => (
                Progress { out_time: Some(Decimal { negative: false, micros: n }), ..p },
                LineOutcome::Updated,
            ),
            None => (p, LineOutcome::BadValue(value)),
        }
    } else if key == "out_time_ms"@ || key == "out_time"@ || key == "bitrate"@ || key
        == "stream_0_0_q"@ {
        (p, LineOutcome::Ignored)
    } else if key == "dup_frames"@ {
        match spec_parse_u64(spec_trim(value)) {
            Some(n) => (Progress { dup_frames: Some(n), ..p }, LineOutcome::Updated),
            None => (p, LineOutcome::BadValue(value)),
        }
    } else if key == "drop_frames"@ {
        match spec_parse_u64(spec_trim(value)) {
            Some(n) => (Progress { drop_frames: Some(n), ..p }, LineOutcome::Updated),
            None => (p, LineOutcome::BadValue(value)),
        }
    } else if key == "speed"@ {
        let stripped = spec_strip_trailing(value, 'x');
        match spec_parse_decimal(spec_trim(stripped)) {
            Some(d) => (Progress { speed: Some(d), ..p }, LineOutcome::Updated),
            None => (p, LineOutcome::BadValue(stripped)),
        }
    } else if key == "progress"@ {
        (Progress { status: spec_status_of(value), ..p }, LineOutcome::Updated)
    } else {
        (p, LineOutcome::UnknownKey(key + seq!['='] + value))
    }
}

/// What one whole line does: trim it, split at the first `=`, dispatch.
/// A line without `=` has no value part and changes nothing.
pub open spec fn spec_try_parse(p: Progress, line: Seq<char>) -> (Progress, LineOutcome) {
    let t = spec_trim(line);
    match spec_find(t, '=') {
        None => (p, LineOutcome::MissingValue),
        Some(i) => spec_set(p, t.subrange(0, i), t.subrange(i + 1, t.len() as int)),
    }
}

impl Progress {
    /// Dispatches one already-split `key`/`value` pair, per [`spec_set`].
    fn set(&mut self, key: &str, value: &str) -> (r: Result<(), ProgressParseError>)
        ensures
            *final(self) == spec_set(*old(self), key@, value@).0,
            outcome_matches(r, spec_set(*old(self), key@, value@).1),
    {
        if str_eq(key, "frame") {
            match parse_u64(trim_str(value)) {
                Some(n) => {
                    self.frame = Some(n);
                    Ok(())
                },
                None => Err(ProgressParseError::UnableToParseValue(String::from_str(value))),
            }
        } else if str_eq(key, "fps") {
            match parse_decimal(trim_str(value)) {
                Some(d) => {
                    self.fps = Some(d);
                    Ok(())
                },
                None => Err(ProgressParseError::UnableToParseValue(String::from_str(value))),
            }
        } else if str_eq(key, "total_size") {
            match parse_u64(trim_str(value)) {
                Some(n) => {
                    self.total_size = Some(n);
                    Ok(())
                },
                None => Err(ProgressParseError::UnableToParseValue(String::from_str(value))),
            }
        } else if str_eq(key, "out_time_us") {
            match parse_u64(trim_str(value)) {
                Some(n) => {
                    self.out_time = Some(Decimal { negative: false, micros: n });
                    Ok(())
                },
                None => Err(ProgressParseError::UnableToParseValue(String::from_str(value))),
            }
        } else if str_eq(key, "out_time_ms") || str_eq(key, "out_time") || str_eq(key, "bitrate")
            || str_eq(key, "stream_0_0_q") {
            Ok(())
        } else if str_eq(key, "dup_frames") {
            match parse_u64(trim_str(value)) {
                Some(n) => {
                    self.dup_frames = Some(n);
                    Ok(())
                },
                None => Err(ProgressParseError::UnableToParseValue(String::from_str(value))),
            }
        } else if str_eq(key, "drop_frames") {
            match parse_u64(trim_str(value)) {
                Some(n) => {
                    self.drop_frames = Some(n);
                    Ok(())
                },
                None => Err(ProgressParseError::UnableToParseValue(String::from_str(value))),
            }
        } else if str_eq(key, "speed") {
            let stripped = strip_trailing(value, 'x');
            match parse_decimal(trim_str(stripped)) {
                Some(d) => {
                    self.speed = Some(d);
                    Ok(())
                },
                None => Err(ProgressParseError::UnableToParseValue(String::from_str(stripped))),
            }
        } else if str_eq(key, "progress") {
            self.status = if str_eq(value, "continue") {
                Status::Continue
            } else if str_eq(value, "end") {
                Status::End
            } else {
                Status::Unknown
            };
            Ok(())
        } else {
            let mut message = String::from_str(key);
            proof {
                reveal_strlit("=");
                assert("="@ =~= seq!['=']);
            }
            message.append("=");
            message.append(value);
            proof {
                assert(message@ =~= key@ + seq!['='] + value@);
            }
            Err(ProgressParseError::UnknownKey(message))
        }
    }

    /// Consumes one telemetry line, per [`spec_try_parse`]: on success
    /// exactly one field is updated; on any failure the record is unchanged
    /// and the error says why.
    pub fn try_parse(&mut self, line: &str) -> (r: Result<(), ProgressParseError>)
        ensures
            *final(self) == spec_try_parse(*old(self), line@).0,
            outcome_matches(r, spec_try_parse(*old(self), line@).1),
    {
        let trimmed = trim_str(line);
        let tlen = trimmed.unicode_len();
        match find_char(trimmed, '=') {
            None => Err(ProgressParseError::ValueNotFound),
            Some(i) => {
                proof {
                    lemma_find_props(trimmed@, '=');
                }
                let key = trimmed.substring_char(0, i);
                let value = trimmed.substring_char(i + 1, tlen);
                self.set(key, value)
            },
        }
    }

    /// Whether the reader loop must stop: the status is terminal.
    pub fn should_stop(&self) -> (r: bool)
        ensures
            r == (self.status == Status::End),
    {
        self.status == Status::End
    }

    /// Feeds a whole transcript to the parser as the reader loop does: each
    /// line is parsed in order, failures are soft, and consumption stops
    /// right after a line that reports the terminal status. Returns how many
    /// lines were consumed.
    pub fn consume_transcript(&mut self, lines: &Vec<String>) -> (n: usize)
        ensures
            *final(self) == spec_consume(*old(self), lines.deep_view()).0,
            n == spec_consume(*old(self), lines.deep_view()).1,
    {
        let ghost all = lines.deep_view();
        let mut i: usize = 0;
        proof {
            assert(all.skip(0) =~= all);
        }
        while i < lines.len()
            invariant
                i <= lines@.len(),
                all == lines.deep_view(),
                spec_consume(*old(self), all).0 == spec_consume(*self, all.skip(i as int)).0,
                spec_consume(*old(self), all).1 == spec_consume(*self, all.skip(i as int)).1 + i,
            decreases lines@.len() - i,
        {
            let ghost before = *self;
            proof {
                assert(all.skip(i as int)[0] == lines@[i as int]@);
            }
            let _ = self.try_parse(lines[i].as_str());
            if self.should_stop() {
                return i + 1;
            }
            proof {
                assert(all.skip(i as int).drop_first() =~= all.skip(i + 1));
            }
            i += 1;
        }
        proof {
            assert(all.skip(i as int) =~= Seq::<Seq<char>>::empty());
        }
        i
    }
}

/// The plain left fold of telemetry lines into a record; failures are soft,
/// so every line is folded.
pub open spec fn spec_fold_lines(p: Progress, lines: Seq<Seq<char>>) -> Progress
    decreases lines.len(),
{
    if lines.len() == 0 {
        p
    } else {
        spec_fold_lines(spec_try_parse(p, lines[0]).0, lines.drop_first())
    }
}

/// The reader-loop semantics: lines are folded in order and consumption
/// stops right after the first line that leaves the status terminal.
/// Returns the final record and how many lines were consumed.
pub open spec fn spec_consume(p: Progress, lines: Seq<Seq<char>>) -> (Progress, nat)
    decreases lines.len(),
{
    if lines.len() == 0 {
        (p, 0nat)
    } else {
        let np = spec_try_parse(p, lines[0]).0;
        if np.status == Status::End {
            (np, 1nat)
        } else {
            let rec = spec_consume(np, lines.drop_first());
            (rec.0, (rec.1 + 1) as nat)
        }
    }
}

/// The new record differs from the old in at most one field.
pub open spec fn spec_field_local_update(p: Progress, np: Progress) -> bool {
    ||| np == Progress { frame: np.frame, ..p }
    ||| np == Progress { fps: np.fps, ..p }
    ||| np == Progress { total_size: np.total_size, ..p }
    ||| np == Progress { out_time: np.out_time, ..p }
    ||| np == Progress { dup_frames: np.dup_frames, ..p }
    ||| np == Progress { drop_frames: np.drop_frames, ..p }
    ||| np == Progress { speed: np.speed, ..p }
    ||| np == Progress { status: np.status, ..p }
}

/// Progress updates are field-local: whatever the line holds, parsing it
/// updates at most the one field its key names.
pub proof fn lemma_parse_field_local(p: Progress, line: Seq<char>)
    ensures
        spec_field_local_update(p, spec_try_parse(p, line).0),
{
}

/// A line that fails — missing value, malformed value or unknown key —
/// leaves the record exactly as it was: failures never corrupt previously
/// parsed fields.
pub proof fn lemma_parse_failure_preserves(p: Progress, line: Seq<char>)
    ensures
        !(spec_try_parse(p, line).1 is Updated || spec_try_parse(p, line).1 is Ignored)
            ==> spec_try_parse(p, line).0 == p,
{
}

/// An unrecognized key in particular is reported softly and changes nothing.
pub proof fn lemma_unknown_key_preserves(p: Progress, line: Seq<char>)
    ensures
        spec_try_parse(p, line).1 matches LineOutcome::UnknownKey(_) ==> spec_try_parse(
            p,
            line,
        ).0 == p,
{
}

/// The reader loop stops exactly once and right after the first line whose
/// parse leaves the terminal status: the record handed back is the fold of
/// exactly the consumed prefix, no shorter non-empty prefix ends terminal,
/// and a loop that stopped before the end of the stream stopped on `End`.
pub proof fn lemma_consume_stops_at_end(p: Progress, lines: Seq<Seq<char>>)
    ensures
        spec_consume(p, lines).1 <= lines.len(),
        spec_consume(p, lines).0 == spec_fold_lines(
            p,
            lines.take(spec_consume(p, lines).1 as int),
        ),
        forall|k: int|
            1 <= k < spec_consume(p, lines).1 ==> spec_fold_lines(p, lines.take(k)).status
                != Status::End,
        spec_consume(p, lines).1 < lines.len() ==> spec_consume(p, lines).0.status == Status::End,
    decreases lines.len(),
{
    if lines.len() > 0 {
        let np = spec_try_parse(p, lines[0]).0;
        let rest = lines.drop_first();
        assert forall|k: int| 1 <= k <= lines.len() implies spec_fold_lines(p, lines.take(k))
            == spec_fold_lines(np, rest.take(k - 1)) by {
            assert(lines.take(k)[0] == lines[0]);
            assert(lines.take(k).drop_first() =~= rest.take(k - 1));
        }
        if np.status == Status::End {
            assert(rest.take(0) =~= Seq::<Seq<char>>::empty());
        } else {
            lemma_consume_stops_at_end(np, rest);
            let n = spec_consume(p, lines).1;
            assert(spec_consume(np, rest).1 == n - 1);
            assert(rest.take(0) =~= Seq::<Seq<char>>::empty());
            assert forall|k: int|
                1 <= k < n implies spec_fold_lines(p, lines.take(k)).status != Status::End by {
                if k == 1 {
                    assert(spec_fold_lines(np, rest.take(0)) == np);
                } else {
                    assert(spec_fold_lines(np, rest.take(k - 1)).status != Status::End);
                }
            }
        }
    }
}

} // verus!
