//! Parsing the encoder's `-version` banner into a major/minor version.
//!
//! The banner's third whitespace-separated token carries the version text,
//! e.g. `4.4.1-essentials`; its first two segments, split on dots and
//! dashes, are the major and minor numbers.

use crate::text::{
    find_char, is_ws, is_ws_char, parse_u64, spec_find, spec_parse_u64,
};
use vstd::prelude::*;
use vstd::string::*;

verus! {

/// Why no version could be read: the tool is not there at all (its banner is
/// too short or the process could not run), or the banner's version text
/// does not parse.
#[derive(Debug, Clone, Copy, PartialEq, Eq, Structural)]
pub enum VersionResultError {
    NotInstalled,
    ParseError,
}

/// A tool's version, to the precision the banner gives.
#[derive(Debug, Clone, Copy, PartialEq, Eq, Structural)]
pub struct Version {
    pub major: u64,
    pub minor: u64,
}

/// Length of the whitespace-free token at the head of `s`.
pub open spec fn spec_token_len(s: Seq<char>) -> nat
    decreases s.len(),
{
    if s.len() == 0 || is_ws_char(s[0]) {
        0
    } else {
        1 + spec_token_len(s.drop_first())
    }
}

/// The head token is never longer than the text.
pub proof fn lemma_token_len_le(s: Seq<char>)
    ensures
        spec_token_len(s) <= s.len(),
    decreases s.len(),
{
    if s.len() > 0 && !is_ws_char(s[0]) {
        lemma_token_len_le(s.drop_first());
    }
}

/// The whitespace-separated tokens of `s`, in order.
pub open spec fn spec_tokens(s: Seq<char>) -> Seq<Seq<char>>
    decreases s.len(),
    via spec_tokens_dec
{
    if s.len() == 0 {
        Seq::<Seq<char>>::empty()
    } else if is_ws_char(s[0]) {
        spec_tokens(s.drop_first())
    } else {
        let tl = spec_token_len(s) as int;
        seq![s.subrange(0, tl)] + spec_tokens(s.subrange(tl, s.len() as int))
    }
}

#[via_fn]
proof fn spec_tokens_dec(s: Seq<char>) {
    lemma_token_len_le(s);
}

/// An index scan pins the head token's length down.
proof fn lemma_token_len_at(s: Seq<char>, j: int)
    requires
        0 <= j <= s.len(),
        forall|k: int| 0 <= k < j ==> !is_ws_char(s[k]),
        j < s.len() ==> is_ws_char(s[j]),
    ensures
        spec_token_len(s) == j,
    decreases j,
{
    if j > 0 {
        assert forall|k: int| 0 <= k < j - 1 implies !is_ws_char(s.drop_first()[k]) by {
            assert(s.drop_first()[k] == s[k + 1]);
        }
        if j < s.len() {
            assert(s.drop_first()[j - 1] == s[j]);
        }
        lemma_token_len_at(s.drop_first(), j - 1);
    }
}

/// Splits `s` on whitespace, per [`spec_tokens`].
pub fn tokens_of(s: &str) -> (r: Vec<String>)
    ensures
        r.deep_view() == spec_tokens(s@),
    decreases s@.len(),
{
    let len = s.unicode_len();
    if len == 0 {
        let empty: Vec<String> = Vec::new();
        proof {
            assert(empty.deep_view() =~= spec_tokens(s@));
        }
        return empty;
    }
    if is_ws(s.get_char(0)) {
        let rest = s.substring_char(1, len);
        proof {
            assert(rest@ =~= s@.drop_first());
        }
        return tokens_of(rest);
    }
    let mut j: usize = 1;
    while j < len && !is_ws(s.get_char(j))
        invariant
            len == s@.len(),
            1 <= j <= len,
            forall|k: int| 0 <= k < j ==> !is_ws_char(s@[k]),
        decreases len - j,
    {
        j += 1;
    }
    proof {
        lemma_token_len_at(s@, j as int);
    }
    let token = s.substring_char(0, j);
    let rest = s.substring_char(j, len);
    let mut remainder = tokens_of(rest);
    let mut result: Vec<String> = Vec::new();
    result.push(String::from_str(token));
    result.append(&mut remainder);
    proof {
        assert(result.deep_view() =~= spec_tokens(s@));
    }
    result
}

/// First index of a version separator, a dot or a dash.
pub open spec fn spec_find_sep(s: Seq<char>) -> Option<int> {
    match (spec_find(s, '.'), spec_find(s, '-')) {
        (None, None) => None,
        (Some(a), None) => Some(a),
        (None, Some(b)) => Some(b),
        (Some(a), Some(b)) => Some(
            if a <= b {
                a
            } else {
                b
            },
        ),
    }
}

/// First version separator in `s`, per [`spec_find_sep`].
fn find_sep(s: &str) -> (r: Option<usize>)
    ensures
        match r {
            Some(i) => spec_find_sep(s@) == Some(i as int),
            None => spec_find_sep(s@) is None,
        },
{
    match (find_char(s, '.'), find_char(s, '-')) {
        (None, None) => None,
        (Some(a), None) => Some(a),
        (None, Some(b)) => Some(b),
        (Some(a), Some(b)) => Some(
            if a <= b {
                a
            } else {
                b
            },
        ),
    }
}

/// The version a `-version` banner reports: the banner's third token, its
/// first two dot-or-dash segments read as numbers. A banner of fewer than
/// three tokens means the tool is not installed; version text whose first
/// two segments are not plain numbers does not parse.
pub open spec fn spec_parse_version(banner: Seq<char>) -> Result<Version, VersionResultError> {
    let toks = spec_tokens(banner);
    if toks.len() <= 2 {
        Err(VersionResultError::NotInstalled)
    } else {
        let vt = toks[2];
        match spec_find_sep(vt) {
            None => Err(VersionResultError::ParseError),
            Some(i) => {
                let seg0 = vt.subrange(0, i);
                let tail = vt.subrange(i + 1, vt.len() as int);
                let seg1 = match spec_find_sep(tail) {
                    None => tail,
                    Some(j) => tail.subrange(0, j),
                };
                match (spec_parse_u64(seg0), spec_parse_u64(seg1)) {
                    (Some(major), Some(minor)) => Ok(Version { major, minor }),
                    _ => Err(VersionResultError::ParseError),
                }
            },
        }
    }
}

/// Reads the version out of a `-version` banner, per [`spec_parse_version`].
pub fn parse_version_output(banner: &str) -> (r: Result<Version, VersionResultError>)
    ensures
        r == spec_parse_version(banner@),
{
    let toks = tokens_of(banner);
    if toks.len() <= 2 {
        return Err(VersionResultError::NotInstalled);
    }
    let vt = &toks[2];
    proof {
        assert(vt@ == spec_tokens(banner@)[2]);
    }
    let vts = vt.as_str();
    let vtlen = vts.unicode_len();
    match find_sep(vts) {
        None => Err(VersionResultError::ParseError),
        Some(i) => {
            proof {
                crate::text::lemma_find_props(vts@, '.');
                crate::text::lemma_find_props(vts@, '-');
            }
            let seg0 = vts.substring_char(0, i);
            let tail = vts.substring_char(i + 1, vtlen);
            let seg1 = match find_sep(tail) {
                None => tail,
                Some(j) => {
                    proof {
                        crate::text::lemma_find_props(tail@, '.');
                        crate::text::lemma_find_props(tail@, '-');
                    }
                    tail.substring_char(0, j)
                },
            };
            match (parse_u64(seg0), parse_u64(seg1)) {
                (Some(major), Some(minor)) => Ok(Version { major, minor }),
                _ => Err(VersionResultError::ParseError),
            }
        },
    }
}

} // verus!
