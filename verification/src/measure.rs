//! Temperatures, pressure and accumulated rainfall.

use vstd::prelude::*;
use crate::lex::{
    at, decimal_at, digit_val, digit_value, is_at, is_digit, lit, plus, res_of,
    span, spec_decimal, spec_lit, spec_plus, Class, Decimal, Span,
};
use crate::visibility::{spec_visibility_unit, visibility_unit_at};
use crate::wind::{spec_speed_unit, speed_unit_at};
use crate::ws::{marks_ws, spec_ws, ws, ws_marks};
use crate::list::Element;
use crate::lex::{scan, scan_class};
use crate::error::{digits_marks, lit_marks, mark, marks_digits, marks_lit, Marks, Token, Tracker};

verus! {

/// A temperature in degrees Celsius as written.
#[derive(Clone, Copy, PartialEq, Eq, Debug)]
pub struct Temperature {
    /// `M` or `-` before the digits.
    pub negative: bool,
    pub degrees: Span,
}

/// Air temperature and dewpoint.
#[derive(Clone, Copy, PartialEq, Eq, Debug)]
pub struct Temperatures {
    pub air: Temperature,
    pub dewpoint: Option<Temperature>,
}

/// The unit of a pressure value.
#[derive(Clone, Copy, PartialEq, Eq, Debug)]
pub enum PressureUnit {
    InchesOfMercury,
    Hectopascals,
    Pascals,
}

/// A pressure as written, with the unit it is read in.
#[derive(Clone, Copy, PartialEq, Eq, Debug)]
pub struct Pressure {
    pub value: Decimal,
    pub unit: PressureUnit,
}

/// Rainfall in millimeters.
#[derive(Clone, Copy, PartialEq, Eq, Debug)]
pub struct AccumulatedRainfall {
    pub recent: Decimal,
    pub past: Decimal,
}

/// `("M" / "-")? digits`
pub open spec fn spec_temperature(s: Seq<char>, p: int) -> Option<(int, Temperature)> {
    let (p1, negative) = if at(s, p, 'M') || at(s, p, '-') {
        (p + 1, true)
    } else {
        (p, false)
    };
    match spec_plus(s, p1, Class::Digit) {
        Some(q) => Some((q, Temperature { negative, degrees: span(p1, q) })),
        None => None,
    }
}

/// Whether a visibility unit or a wind speed unit follows `p`.
pub open spec fn unit_follows(s: Seq<char>, p: int) -> bool {
    spec_visibility_unit(s, p) is Some || spec_speed_unit(s, p) is Some
}

/// `air ("/" / ".") ("XX" / "//")`, `air ("/" / ".") dewpoint?`, each not
/// followed by a unit; or `XX/XX` (`Some(None)`).
pub open spec fn spec_temperatures(s: Seq<char>, p: int) -> Option<(int, Option<Temperatures>)> {
    let with_air = match spec_temperature(s, p) {
        None => None,
        Some((q1, air)) => if at(s, q1, '/') || at(s, q1, '.') {
            let q2 = q1 + 1;
            let no_dewpoint = if (spec_lit(s, q2, seq!['X', 'X']) is Some || spec_lit(s, q2, seq!['/', '/']) is Some)
                && !unit_follows(s, q2 + 2) {
                Some((q2 + 2, Some(Temperatures { air, dewpoint: None })))
            } else {
                None
            };
            match no_dewpoint {
                Some(r) => Some(r),
                None => {
                    let (q3, dewpoint) = match spec_temperature(s, q2) {
                        Some((r, t)) => (r, Some(t)),
                        None => (q2, None),
                    };
                    if !unit_follows(s, q3) {
                        Some((q3, Some(Temperatures { air, dewpoint })))
                    } else {
                        None
                    }
                },
            }
        } else {
            None
        },
    };
    match with_air {
        Some(r) => Some(r),
        None => match spec_lit(s, p, seq!['X', 'X', '/', 'X', 'X']) {
            Some(q) => Some((q, None)),
            None => None,
        },
    }
}

/// The value of the digits in `[a, b)`.
pub open spec fn digits_value(s: Seq<char>, a: int, b: int) -> int
    decreases b - a,
{
    if b <= a {
        0
    } else {
        10 * digits_value(s, a, b - 1) + digit_value(s[b - 1])
    }
}

/// Whether the digit run `[a, b)` holds a digit other than `0`.
pub open spec fn has_nonzero(s: Seq<char>, a: int, b: int) -> bool {
    exists|i: int| a <= i < b && s[i] != '0'
}

/// Whether the decimal is above the whole number `n`.
pub open spec fn decimal_above(s: Seq<char>, d: Decimal, n: int) -> bool {
    let w = digits_value(s, d.whole.start as int, d.whole.end as int);
    w > n || (w == n && match d.fraction {
        Some(f) => has_nonzero(s, f.start as int, f.end as int),
        None => false,
    })
}

/// The altimeter setting `A`, or a pressure unit `QFE`, `QNH` or `Q`: whether
/// it is the altimeter setting, and the end.
pub open spec fn spec_pressure_unit(s: Seq<char>, p: int) -> Option<(int, bool)> {
    if let Some(q) = spec_lit(s, p, seq!['Q', 'F', 'E']) {
        Some((q, false))
    } else if let Some(q) = spec_lit(s, p, seq!['Q', 'N', 'H']) {
        Some((q, false))
    } else if at(s, p, 'Q') {
        Some((p + 1, false))
    } else if at(s, p, 'A') {
        Some((p + 1, true))
    } else {
        None
    }
}

/// A pressure group. An altimeter setting above 2000 is in inches of mercury
/// and in hectopascals otherwise; `Q` values are read as pascals. Slashes or
/// `NIL` in place of the value give `Some(None)`.
pub open spec fn spec_pressure(s: Seq<char>, p: int) -> Option<(int, Option<Pressure>)> {
    match spec_pressure_unit(s, p) {
        None => None,
        Some((q1, altimeter)) => {
            let p2 = spec_ws(s, q1);
            match spec_decimal(s, p2) {
                Some((q2, value)) => {
                    let unit = if !altimeter {
                        PressureUnit::Pascals
                    } else if decimal_above(s, value, 2000) {
                        PressureUnit::InchesOfMercury
                    } else {
                        PressureUnit::Hectopascals
                    };
                    Some((q2, Some(Pressure { value, unit })))
                },
                None => if spec_lit(s, p2, seq!['/', '/', '/', '/']) is Some || spec_lit(s, p2, seq!['N', 'I', 'L']) is Some {
                    let q2 = if spec_lit(s, p2, seq!['/', '/', '/', '/']) is Some {
                        p2 + 4
                    } else {
                        p2 + 3
                    };
                    Some((q2, None))
                } else {
                    None
                },
            }
        },
    }
}

/// `digits "." digits`
pub open spec fn spec_rain_amount(s: Seq<char>, p: int) -> Option<(int, Decimal)> {
    match spec_plus(s, p, Class::Digit) {
        None => None,
        Some(q) => if at(s, q, '.') {
            match spec_plus(s, q + 1, Class::Digit) {
                Some(r) => Some((r, Decimal { whole: span(p, q), fraction: Some(span(q + 1, r)) })),
                None => None,
            }
        } else {
            None
        },
    }
}

/// `RF recent/past`
pub open spec fn spec_accumulated_rainfall(s: Seq<char>, p: int) -> Option<(int, AccumulatedRainfall)> {
    if spec_lit(s, p, seq!['R', 'F']) is Some {
        match spec_rain_amount(s, p + 2) {
            None => None,
            Some((q, recent)) => if at(s, q, '/') {
                match spec_rain_amount(s, q + 1) {
                    Some((r, past)) => Some((r, AccumulatedRainfall { recent, past })),
                    None => None,
                }
            } else {
                None
            },
        }
    } else {
        None
    }
}

fn temperature_at(s: &Vec<char>, p: usize) -> (r: Option<(usize, Temperature)>)
    requires
        p <= s.len(),
    ensures
        res_of(r) == spec_temperature(s@, p as int),
        r matches Some((q, _)) ==> p < q <= s.len(),
{
    let (p1, negative) = if is_at(s, p, 'M') || is_at(s, p, '-') {
        (p + 1, true)
    } else {
        (p, false)
    };
    let q = plus(s, p1, Class::Digit)?;
    Some((q, Temperature { negative, degrees: Span { start: p1, end: q } }))
}

fn unit_follows_at(s: &Vec<char>, p: usize) -> (b: bool)
    requires
        p <= s.len(),
    ensures
        b == unit_follows(s@, p as int),
{
    visibility_unit_at(s, p).is_some() || speed_unit_at(s, p).is_some()
}

pub fn temperatures_at(s: &Vec<char>, p: usize) -> (r: Option<(usize, Option<Temperatures>)>)
    requires
        p <= s.len(),
    ensures
        res_of(r) == spec_temperatures(s@, p as int),
        r matches Some((q, _)) ==> p < q <= s.len(),
{
    if let Some((q1, air)) = temperature_at(s, p) {
        if is_at(s, q1, '/') || is_at(s, q1, '.') {
            let q2 = q1 + 1;
            if (lit(s, q2, &['X', 'X']).is_some() || lit(s, q2, &['/', '/']).is_some())
                && !unit_follows_at(s, q2 + 2) {
                return Some((q2 + 2, Some(Temperatures { air, dewpoint: None })));
            }
            let (q3, dewpoint) = match temperature_at(s, q2) {
                Some((r, t)) => (r, Some(t)),
                None => (q2, None),
            };
            if !unit_follows_at(s, q3) {
                return Some((q3, Some(Temperatures { air, dewpoint })));
            }
        }
    }
    match lit(s, p, &['X', 'X', '/', 'X', 'X']) {
        Some(q) => Some((q, None)),
        None => None,
    }
}

/// The value of the digits in `[a, b)`, capped at `cap`.
fn capped_value(s: &Vec<char>, a: usize, b: usize, cap: u64) -> (v: u64)
    requires
        a <= b <= s.len(),
        cap <= 1_000_000,
        forall|i: int| a <= i < b ==> is_digit(#[trigger] s@[i]),
    ensures
        v == if digits_value(s@, a as int, b as int) < cap {
            digits_value(s@, a as int, b as int)
        } else {
            cap as int
        },
{
    let mut v: u64 = 0;
    let mut i = a;
    while i < b
        invariant
            a <= i <= b <= s.len(),
            cap <= 1_000_000,
            forall|k: int| a <= k < b ==> is_digit(#[trigger] s@[k]),
            digits_value(s@, a as int, i as int) >= 0,
            v == if digits_value(s@, a as int, i as int) < cap {
                digits_value(s@, a as int, i as int)
            } else {
                cap as int
            },
        decreases b - i,
    {
        let d = digit_val(s[i]) as u64;
        assert(digits_value(s@, a as int, i + 1) == 10 * digits_value(s@, a as int, i as int)
            + digit_value(s@[i as int]));
        if v >= cap {
            v = cap;
        } else {
            let n = 10 * v + d;
            v = if n < cap {
                n
            } else {
                cap
            };
        }
        i += 1;
    }
    v
}

/// Whether a digit other than `0` stands in `[a, b)`.
fn nonzero_at(s: &Vec<char>, a: usize, b: usize) -> (r: bool)
    requires
        a <= b <= s.len(),
    ensures
        r == has_nonzero(s@, a as int, b as int),
{
    let mut i = a;
    while i < b
        invariant
            a <= i <= b <= s.len(),
            forall|k: int| a <= k < i ==> s@[k] == '0',
        decreases b - i,
    {
        if s[i] != '0' {
            return true;
        }
        i += 1;
    }
    false
}

fn pressure_unit_at(s: &Vec<char>, p: usize) -> (r: Option<(usize, bool)>)
    requires
        p <= s.len(),
    ensures
        res_of(r) == spec_pressure_unit(s@, p as int),
        r matches Some((q, _)) ==> p < q <= s.len(),
{
    if let Some(q) = lit(s, p, &['Q', 'F', 'E']) {
        Some((q, false))
    } else if let Some(q) = lit(s, p, &['Q', 'N', 'H']) {
        Some((q, false))
    } else if is_at(s, p, 'Q') {
        Some((p + 1, false))
    } else if is_at(s, p, 'A') {
        Some((p + 1, true))
    } else {
        None
    }
}

/// Whether an altimeter value is above 2000.
fn altimeter_above(s: &Vec<char>, d: Decimal) -> (b: bool)
    requires
        d.whole.start <= d.whole.end <= s.len(),
        forall|i: int| d.whole.start <= i < d.whole.end ==> is_digit(#[trigger] s@[i]),
        d.fraction matches Some(f) ==> f.start <= f.end <= s.len(),
    ensures
        b == decimal_above(s@, d, 2000),
{
    let w = capped_value(s, d.whole.start, d.whole.end, 2001);
    if w > 2000 {
        true
    } else if w == 2000 {
        match d.fraction {
            Some(f) => nonzero_at(s, f.start, f.end),
            None => false,
        }
    } else {
        false
    }
}

pub fn pressure_at(s: &Vec<char>, p: usize) -> (r: Option<(usize, Option<Pressure>)>)
    requires
        p <= s.len(),
    ensures
        res_of(r) == spec_pressure(s@, p as int),
        r matches Some((q, _)) ==> p < q <= s.len(),
{
    let (q1, altimeter) = pressure_unit_at(s, p)?;
    let p2 = ws(s, q1);
    match decimal_at(s, p2) {
        Some((q2, value)) => {
            let unit = if !altimeter {
                PressureUnit::Pascals
            } else {
                proof {
                    crate::lex::lemma_scan(s@, p2 as int, Class::Digit);
                    if value.fraction is Some {
                        crate::lex::lemma_scan(s@, value.whole.end + 1, Class::Digit);
                    }
                }
                if altimeter_above(s, value) {
                    PressureUnit::InchesOfMercury
                } else {
                    PressureUnit::Hectopascals
                }
            };
            Some((q2, Some(Pressure { value, unit })))
        },
        None => {
            if lit(s, p2, &['/', '/', '/', '/']).is_some() {
                Some((p2 + 4, None))
            } else if lit(s, p2, &['N', 'I', 'L']).is_some() {
                Some((p2 + 3, None))
            } else {
                None
            }
        },
    }
}

fn rain_amount_at(s: &Vec<char>, p: usize) -> (r: Option<(usize, Decimal)>)
    requires
        p <= s.len(),
    ensures
        res_of(r) == spec_rain_amount(s@, p as int),
        r matches Some((q, _)) ==> p < q <= s.len(),
{
    let q = plus(s, p, Class::Digit)?;
    if !is_at(s, q, '.') {
        return None;
    }
    let r = plus(s, q + 1, Class::Digit)?;
    Some((r, Decimal { whole: Span { start: p, end: q }, fraction: Some(Span { start: q + 1, end: r }) }))
}

pub fn accumulated_rainfall_at(s: &Vec<char>, p: usize) -> (r: Option<(usize, AccumulatedRainfall)>)
    requires
        p <= s.len(),
    ensures
        res_of(r) == spec_accumulated_rainfall(s@, p as int),
        r matches Some((q, _)) ==> p < q <= s.len(),
{
    if lit(s, p, &['R', 'F']).is_none() {
        return None;
    }
    let (q, recent) = rain_amount_at(s, p + 2)?;
    if !is_at(s, q, '/') {
        return None;
    }
    let (r, past) = rain_amount_at(s, q + 1)?;
    Some((r, AccumulatedRainfall { recent, past }))
}

impl Element for Option<Pressure> {
    type Spec = Option<Pressure>;

    open spec fn spec_of(&self) -> Option<Pressure> {
        *self
    }

    open spec fn spec_parse(s: Seq<char>, p: int) -> Option<(int, Option<Pressure>)> {
        spec_pressure(s, p)
    }

    fn parse(s: &Vec<char>, p: usize) -> (r: Option<(usize, Option<Pressure>)>) {
        pressure_at(s, p)
    }
}

/// Marks of `pressure` at `p`. The second alternative repeats the unit and
/// the whitespace of the first, which mark nothing new; it marks only its
/// slashes and `NIL`.
pub open spec fn marks_pressure(s: Seq<char>, p: int, m: Marks) -> Marks {
    match spec_pressure_unit(s, p) {
        None => mark(m, p, Token::PressureUnit),
        Some((u, _)) => {
            let m1 = marks_ws(s, u, m);
            let w = spec_ws(s, u);
            let d = scan(s, w, Class::Digit);
            let m2 = mark(m1, d, Token::Digit);
            if d == w {
                let m3 = marks_lit(s, w, seq!['/', '/', '/', '/'], Token::Slash4, m2);
                if spec_lit(s, w, seq!['/', '/', '/', '/']) is Some {
                    m3
                } else {
                    marks_lit(s, w, seq!['N', 'I', 'L'], Token::Nil, m3)
                }
            } else if at(s, d, '.') {
                marks_digits(s, d + 1, m2)
            } else {
                mark(m2, d, Token::Dot)
            }
        },
    }
}

pub fn pressure_marks(s: &Vec<char>, p: usize, tr: &mut Tracker)
    requires
        p <= s.len(),
    ensures
        final(tr)@ == marks_pressure(s@, p as int, old(tr)@),
{
    match pressure_unit_at(s, p) {
        None => tr.mark(p, Token::PressureUnit),
        Some((u, _)) => {
            ws_marks(s, u, tr);
            let w = ws(s, u);
            let d = scan_class(s, w, Class::Digit);
            tr.mark(d, Token::Digit);
            if d == w {
                lit_marks(s, w, &['/', '/', '/', '/'], Token::Slash4, tr);
                if lit(s, w, &['/', '/', '/', '/']).is_none() {
                    lit_marks(s, w, &['N', 'I', 'L'], Token::Nil, tr);
                }
            } else if is_at(s, d, '.') {
                digits_marks(s, d + 1, tr);
            } else {
                tr.mark(d, Token::Dot);
            }
        },
    }
}

} // verus!
