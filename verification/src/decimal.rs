//! Signed fixed-point decimals with six fractional digits (micro precision).
//!
//! The encoder's telemetry carries decimal numbers (frame rate, playback
//! speed, elapsed seconds reported in integer microseconds), and the command
//! builder renders such numbers back into filter arguments. Micro precision
//! represents every value the telemetry protocol and the builder exchange
//! exactly, so the whole pipeline stays in integer arithmetic.

use crate::text::{
    lemma_u64_digits_len, lemma_zeros_chars, spec_strip_trailing, strip_trailing,
    spec_u64_digits, spec_zeros, u64_to_string,
    all_digits, check_all_digits, digits_val_checked, find_char, lemma_digits_val_bound,
    lemma_find_props, pow10_small, spec_digits_val, spec_find, spec_pow10,
};
use vstd::prelude::*;
use vstd::string::*;

verus! {

/// Scale factor: one unit is a million micros.
pub const MICROS_PER_UNIT: u64 = 1000000;

/// A signed decimal number, stored as a magnitude in micros plus a sign.
/// Zero is always stored non-negative.
#[derive(Clone, Copy, Debug, PartialEq, Eq, Structural)]
pub struct Decimal {
    pub negative: bool,
    pub micros: u64,
}

impl Decimal {
    /// No negative zero: the sign flag is only set on a non-zero magnitude.
    pub open spec fn wf(self) -> bool {
        self.negative ==> self.micros > 0
    }

    /// The value in micros, as a mathematical integer.
    pub open spec fn as_int(self) -> int {
        if self.negative {
            -(self.micros as int)
        } else {
            self.micros as int
        }
    }

    /// Builds a decimal from a sign and a magnitude in micros,
    /// normalising negative zero away.
    pub fn new(negative: bool, micros: u64) -> (r: Decimal)
        ensures
            r.wf(),
            r.micros == micros,
            r.negative == (negative && micros > 0),
    {
        Decimal { negative: negative && micros > 0, micros }
    }

    /// The decimal for a whole number of units.
    pub fn from_units(units: u64) -> (r: Decimal)
        requires
            units * MICROS_PER_UNIT <= u64::MAX,
        ensures
            r.wf(),
            r.as_int() == units * MICROS_PER_UNIT,
    {
        Decimal { negative: false, micros: units * MICROS_PER_UNIT }
    }

    /// Strict order on the represented values.
    pub fn lt(self, other: Decimal) -> (r: bool)
        requires
            self.wf(),
            other.wf(),
        ensures
            r == (self.as_int() < other.as_int()),
    {
        if self.negative {
            if other.negative {
                self.micros > other.micros
            } else {
                true
            }
        } else {
            if other.negative {
                false
            } else {
                self.micros < other.micros
            }
        }
    }

    /// The value forced into `[lo, hi]`.
    pub fn clamp(self, lo: Decimal, hi: Decimal) -> (r: Decimal)
        requires
            self.wf(),
            lo.wf(),
            hi.wf(),
            lo.as_int() <= hi.as_int(),
        ensures
            r.wf(),
            self.as_int() < lo.as_int() ==> r == lo,
            self.as_int() > hi.as_int() ==> r == hi,
            lo.as_int() <= self.as_int() <= hi.as_int() ==> r == self,
            lo.as_int() <= r.as_int() <= hi.as_int(),
    {
        if self.lt(lo) {
            lo
        } else if hi.lt(self) {
            hi
        } else {
            self
        }
    }

    /// The product, rounded toward zero to micro precision; `None` when the
    /// magnitude does not fit.
    pub fn mul(self, rhs: Decimal) -> (r: Option<Decimal>)
        requires
            self.wf(),
            rhs.wf(),
        ensures
            match r {
                Some(d) => {
                    &&& d.wf()
                    &&& d.micros == (self.micros * rhs.micros) / (MICROS_PER_UNIT as int)
                    &&& d.negative == ((self.negative != rhs.negative) && d.micros > 0)
                },
                None => (self.micros * rhs.micros) / (MICROS_PER_UNIT as int) > u64::MAX,
            },
    {
        proof {
            assert((self.micros as int) * (rhs.micros as int) <= (u64::MAX as int) * (
            u64::MAX as int)) by (nonlinear_arith)
                requires
                    0 <= self.micros <= u64::MAX,
                    0 <= rhs.micros <= u64::MAX,
            {}
        }
        let wide: u128 = (self.micros as u128) * (rhs.micros as u128);
        let scaled: u128 = wide / (MICROS_PER_UNIT as u128);
        if scaled > u64::MAX as u128 {
            None
        } else {
            let m = scaled as u64;
            Some(Decimal { negative: (self.negative != rhs.negative) && m > 0, micros: m })
        }
    }
}

/// The canonical rendering of a decimal: an optional minus sign, the whole
/// units, and, when the fractional part is non-zero, a point followed by the
/// fractional digits with trailing zeros removed. Whole numbers render with
/// no point at all.
pub open spec fn spec_decimal_chars(d: Decimal) -> Seq<char> {
    let units = d.micros as nat / (MICROS_PER_UNIT as nat);
    let frac = d.micros as nat % (MICROS_PER_UNIT as nat);
    let sign = if d.negative {
        seq!['-']
    } else {
        Seq::<char>::empty()
    };
    if frac == 0 {
        sign + spec_u64_digits(units)
    } else {
        let fd = spec_u64_digits(frac);
        let pad = if fd.len() <= 6 {
            spec_zeros((6 - fd.len()) as nat)
        } else {
            Seq::<char>::empty()
        };
        sign + spec_u64_digits(units) + seq!['.'] + spec_strip_trailing(pad + fd, '0')
    }
}

impl Decimal {
    /// Renders the value, per [`spec_decimal_chars`].
    pub fn render(&self) -> (r: String)
        ensures
            r@ == spec_decimal_chars(*self),
    {
        let units = self.micros / MICROS_PER_UNIT;
        let frac = self.micros % MICROS_PER_UNIT;
        let mut out = String::new();
        if self.negative {
            proof {
                reveal_strlit("-");
                assert("-"@ =~= seq!['-']);
            }
            out.append("-");
        }
        let us = u64_to_string(units);
        out.append(us.as_str());
        if frac != 0 {
            proof {
                reveal_strlit(".");
                assert("."@ =~= seq!['.']);
            }
            out.append(".");
            let ghost fracn = frac as nat;
            let fd = u64_to_string(frac);
            let fdl = fd.unicode_len();
            proof {
                assert(spec_pow10(0) == 1);
                assert(spec_pow10(1) == 10);
                assert(spec_pow10(2) == 100);
                assert(spec_pow10(3) == 1000);
                assert(spec_pow10(4) == 10000);
                assert(spec_pow10(5) == 100000);
                assert(spec_pow10(6) == 1000000);
                lemma_u64_digits_len(fracn, 6);
            }
            let mut padded = String::new();
            let mut p: usize = fdl;
            while p < 6
                invariant
                    fdl <= p <= 6,
                    padded@.len() == p - fdl,
                    forall|i: int| 0 <= i < padded@.len() ==> padded@[i] == '0',
                decreases 6 - p,
            {
                proof {
                    reveal_strlit("0");
                    assert("0"@ =~= seq!['0']);
                }
                padded.append("0");
                p += 1;
            }
            proof {
                lemma_zeros_chars((6 - fdl) as nat);
                assert(padded@ =~= spec_zeros((6 - fdl) as nat));
            }
            padded.append(fd.as_str());
            let trimmed = strip_trailing(padded.as_str(), '0');
            out.append(trimmed);
        }
        proof {
            assert(out@ =~= spec_decimal_chars(*self));
        }
        out
    }
}

/// The decimal written by `units` units plus `frac` micros, when it fits.
pub open spec fn spec_make_decimal(neg: bool, units: nat, frac: nat) -> Option<Decimal> {
    let total = units * (MICROS_PER_UNIT as nat) + frac;
    if total <= u64::MAX {
        Some(Decimal { negative: neg && total > 0, micros: total as u64 })
    } else {
        None
    }
}

/// Micros written by a fractional-digit string; digits beyond the sixth are
/// finer than micro precision and are ignored.
pub open spec fn spec_frac_micros(f: Seq<char>) -> nat {
    let g = if f.len() <= 6 {
        f
    } else {
        f.subrange(0, 6)
    };
    spec_digits_val(g) * spec_pow10((6 - g.len()) as nat)
}

/// The decimal-number grammar: an optional sign, then digits with at most one
/// point and at least one digit in all. The magnitude is truncated toward
/// zero to micro precision; a magnitude over `u64::MAX` micros is rejected.
pub open spec fn spec_parse_decimal(s: Seq<char>) -> Option<Decimal> {
    let neg = s.len() > 0 && s[0] == '-';
    let t = if s.len() > 0 && (s[0] == '-' || s[0] == '+') {
        s.drop_first()
    } else {
        s
    };
    match spec_find(t, '.') {
        None => if t.len() > 0 && all_digits(t) {
            spec_make_decimal(neg, spec_digits_val(t), 0)
        } else {
            None
        },
        Some(k) => {
            let ip = t.subrange(0, k);
            let fp = t.subrange(k + 1, t.len() as int);
            if ip.len() + fp.len() > 0 && all_digits(ip) && all_digits(fp) {
                spec_make_decimal(neg, spec_digits_val(ip), spec_frac_micros(fp))
            } else {
                None
            }
        },
    }
}

/// Assembles a decimal from parsed parts, per [`spec_make_decimal`].
fn make_decimal(neg: bool, units: u64, frac: u64) -> (r: Option<Decimal>)
    ensures
        r == spec_make_decimal(neg, units as nat, frac as nat),
        r matches Some(d) ==> d.wf(),
{
    let total = match units.checked_mul(MICROS_PER_UNIT) {
        Some(p) => p.checked_add(frac),
        None => None,
    };
    match total {
        Some(tot) => Some(Decimal::new(neg, tot)),
        None => None,
    }
}

/// Parses `s` as a decimal number, per [`spec_parse_decimal`].
pub fn parse_decimal(s: &str) -> (r: Option<Decimal>)
    ensures
        r == spec_parse_decimal(s@),
        r matches Some(d) ==> d.wf(),
{
    let len = s.unicode_len();
    let mut neg = false;
    let mut i0: usize = 0;
    if len > 0 {
        let c = s.get_char(0);
        if c == '-' {
            neg = true;
            i0 = 1;
        } else if c == '+' {
            i0 = 1;
        }
    }
    let t = s.substring_char(i0, len);
    proof {
        assert(t@ =~= (if s@.len() > 0 && (s@[0] == '-' || s@[0] == '+') {
            s@.drop_first()
        } else {
            s@
        }));
    }
    let tlen = t.unicode_len();
    match find_char(t, '.') {
        None => {
            if tlen == 0 {
                return None;
            }
            match digits_val_checked(t) {
                Some(v) => make_decimal(neg, v, 0),
                None => {
                    proof {
                        if all_digits(t@) {
                            assert(spec_digits_val(t@) > u64::MAX);
                        }
                    }
                    None
                },
            }
        },
        Some(k) => {
            proof {
                lemma_find_props(t@, '.');
            }
            let ip = t.substring_char(0, k);
            let fp = t.substring_char(k + 1, tlen);
            let iplen = ip.unicode_len();
            let fplen = fp.unicode_len();
            if iplen == 0 && fplen == 0 {
                return None;
            }
            if !check_all_digits(fp) {
                return None;
            }
            let g = if fplen <= 6 {
                fp
            } else {
                fp.substring_char(0, 6)
            };
            proof {
                assert forall|j: int| 0 <= j < g@.len() implies crate::text::is_digit_char(
                    g@[j],
                ) by {
                    assert(g@[j] == fp@[j]);
                }
                lemma_digits_val_bound(g@);
                crate::text::lemma_pow10_mono(g@.len(), 6);
                crate::text::lemma_pow10_mono((6 - g@.len()) as nat, 6);
                crate::text::lemma_pow10_pos((6 - g@.len()) as nat);
                assert(spec_pow10(0) == 1);
                assert(spec_pow10(1) == 10);
                assert(spec_pow10(2) == 100);
                assert(spec_pow10(3) == 1000);
                assert(spec_pow10(4) == 10000);
                assert(spec_pow10(5) == 100000);
                assert(spec_pow10(6) == 1000000);
            }
            let fv = match digits_val_checked(g) {
                Some(v) => v,
                None => {
                    proof {
                        assert(false);
                    }
                    return None;
                },
            };
            let scale = pow10_small(if fplen >= 6 {
                0
            } else {
                6 - fplen
            });
            proof {
                assert((spec_digits_val(g@) as int) * (spec_pow10((6 - g@.len()) as nat) as int)
                    < 1000000int * 1000000int) by (nonlinear_arith)
                    requires
                        spec_digits_val(g@) < spec_pow10(g@.len()),
                        spec_pow10(g@.len()) <= 1000000,
                        spec_pow10((6 - g@.len()) as nat) <= 1000000,
                        spec_pow10((6 - g@.len()) as nat) >= 1,
                {}
            }
            let fmicros = fv * scale;
            proof {
                assert(fmicros == spec_frac_micros(fp@));
            }
            match digits_val_checked(ip) {
                Some(v) => make_decimal(neg, v, fmicros),
                None => {
                    proof {
                        if all_digits(ip@) {
                            assert(spec_digits_val(ip@) > u64::MAX);
                        }
                    }
                    None
                },
            }
        },
    }
}

} // verus!
