//! Surface wind: direction, speed, gusts and variable directions.

use vstd::prelude::*;
use crate::lex::{
    at, decimal_at, has_run, is_at, lit, num3, plus, res_of, run_of, span,
    spec_decimal, spec_lit, spec_plus, three_digits, Class, Decimal, Span,
};
use crate::ws::{marks_ws, spec_ws, ws, ws_marks};
use crate::lex::{scan, scan_class};
use crate::error::{
    digits_marks, digits_upto_marks, lit_marks, mark, marks_digits, marks_digits_upto, marks_lit,
    Marks, Token, Tracker,
};

verus! {

/// The unit in which wind speeds are given.
#[derive(Clone, Copy, PartialEq, Eq, Debug)]
pub enum SpeedUnit {
    /// `MPS`
    MetersPerSecond,
    /// `KT`, `KTS` or `KTM`
    Knots,
    /// `KMH`
    KilometersPerHour,
}

/// A wind speed as written, with its unit.
#[derive(Clone, Copy, PartialEq, Eq, Debug)]
pub struct WindSpeed {
    pub value: Decimal,
    pub unit: SpeedUnit,
}

/// A wind group.
#[derive(Clone, Copy, PartialEq, Eq, Debug)]
pub struct Wind {
    /// Direction in degrees; `None` for variable (`VRB`) or missing directions.
    pub direction: Option<u16>,
    pub speed: Option<WindSpeed>,
    pub peak_gust: Option<WindSpeed>,
    /// The two extreme directions, in degrees, of a varying wind.
    pub variance: Option<(u16, u16)>,
}

/// `MPS`, `KTM`, `KTS`, `KT` or `KMH`.
pub open spec fn spec_speed_unit(s: Seq<char>, p: int) -> Option<(int, SpeedUnit)> {
    if let Some(q) = spec_lit(s, p, seq!['M', 'P', 'S']) {
        Some((q, SpeedUnit::MetersPerSecond))
    } else if let Some(q) = spec_lit(s, p, seq!['K', 'T', 'M']) {
        Some((q, SpeedUnit::Knots))
    } else if let Some(q) = spec_lit(s, p, seq!['K', 'T', 'S']) {
        Some((q, SpeedUnit::Knots))
    } else if let Some(q) = spec_lit(s, p, seq!['K', 'T']) {
        Some((q, SpeedUnit::Knots))
    } else if let Some(q) = spec_lit(s, p, seq!['K', 'M', 'H']) {
        Some((q, SpeedUnit::KilometersPerHour))
    } else {
        None
    }
}

/// Optional direction: `VRB` (no direction) or three digits.
pub open spec fn spec_direction(s: Seq<char>, p: int) -> (int, Option<u16>) {
    if spec_lit(s, p, seq!['V', 'R', 'B']) is Some {
        (p + 3, None)
    } else if run_of(s, p, 3, Class::Digit) {
        (p + 3, Some(num3(s, p) as u16))
    } else {
        (p, None)
    }
}

/// Optional speed: `P` and two digits (the `P` is dropped), or a decimal.
pub open spec fn spec_speed(s: Seq<char>, p: int) -> (int, Option<Decimal>) {
    if at(s, p, 'P') && run_of(s, p + 1, 2, Class::Digit) {
        (p + 3, Some(Decimal { whole: span(p + 1, p + 3), fraction: None }))
    } else {
        match spec_decimal(s, p) {
            Some((q, d)) => (q, Some(d)),
            None => (p, None),
        }
    }
}

/// Optional gust: `G//` (unknown gust) or `G` and digits.
pub open spec fn spec_gust(s: Seq<char>, p: int) -> (int, Option<Decimal>) {
    if at(s, p, 'G') {
        if spec_lit(s, p + 1, seq!['/', '/']) is Some {
            (p + 3, None)
        } else {
            match spec_plus(s, p + 1, Class::Digit) {
                Some(q) => (q, Some(Decimal { whole: span(p + 1, q), fraction: None })),
                None => (p, None),
            }
        }
    } else {
        (p, None)
    }
}

/// `dddVddd`.
pub open spec fn spec_variance(s: Seq<char>, p: int) -> Option<(int, (u16, u16))> {
    if run_of(s, p, 3, Class::Digit) && at(s, p + 3, 'V') && run_of(s, p + 4, 3, Class::Digit) {
        Some((p + 7, (num3(s, p) as u16, num3(s, p + 4) as u16)))
    } else {
        None
    }
}

/// `/////` or `//////` for a missing wind.
pub open spec fn spec_missing_wind(s: Seq<char>, p: int) -> Option<int> {
    match spec_lit(s, p, seq!['/', '/', '/', '/', '/', '/']) {
        Some(q) => Some(q),
        None => spec_lit(s, p, seq!['/', '/', '/', '/', '/']),
    }
}

/// A wind group. `Some(None)` is a missing wind (slashes in place of values).
pub open spec fn spec_wind(s: Seq<char>, p: int) -> Option<(int, Option<Wind>)> {
    let (p1, direction) = spec_direction(s, p);
    let (p2, speed) = spec_speed(s, p1);
    let (p3, gust) = spec_gust(s, p2);
    match spec_speed_unit(s, p3) {
        Some((q, unit)) => {
            let p4 = spec_ws(s, q);
            let (p5, variance) = match spec_variance(s, p4) {
                Some((r, v)) => (r, Some(v)),
                None => (p4, None),
            };
            Some((p5, Some(Wind {
                direction,
                speed: match speed {
                    Some(d) => Some(WindSpeed { value: d, unit }),
                    None => None,
                },
                peak_gust: match gust {
                    Some(d) => Some(WindSpeed { value: d, unit }),
                    None => None,
                },
                variance,
            })))
        },
        None => match spec_missing_wind(s, p) {
            None => None,
            Some(q) => match spec_speed_unit(s, q) {
                None => None,
                Some((r, _)) => {
                    let r1 = spec_ws(s, r);
                    match spec_lit(s, r1, seq!['/', '/', '/', 'V', '/', '/', '/']) {
                        Some(r2) => Some((r2, None)),
                        None => Some((r1, None)),
                    }
                },
            },
        },
    }
}

pub fn speed_unit_at(s: &Vec<char>, p: usize) -> (r: Option<(usize, SpeedUnit)>)
    requires
        p <= s.len(),
    ensures
        res_of(r) == spec_speed_unit(s@, p as int),
        r matches Some((q, _)) ==> p < q <= s.len(),
{
    if let Some(q) = lit(s, p, &['M', 'P', 'S']) {
        Some((q, SpeedUnit::MetersPerSecond))
    } else if let Some(q) = lit(s, p, &['K', 'T', 'M']) {
        Some((q, SpeedUnit::Knots))
    } else if let Some(q) = lit(s, p, &['K', 'T', 'S']) {
        Some((q, SpeedUnit::Knots))
    } else if let Some(q) = lit(s, p, &['K', 'T']) {
        Some((q, SpeedUnit::Knots))
    } else if let Some(q) = lit(s, p, &['K', 'M', 'H']) {
        Some((q, SpeedUnit::KilometersPerHour))
    } else {
        None
    }
}

fn direction_at(s: &Vec<char>, p: usize) -> (r: (usize, Option<u16>))
    requires
        p <= s.len(),
    ensures
        (r.0 as int, r.1) == spec_direction(s@, p as int),
        p <= r.0 <= s.len(),
{
    if lit(s, p, &['V', 'R', 'B']).is_some() {
        (p + 3, None)
    } else if has_run(s, p, 3, Class::Digit) {
        (p + 3, Some(three_digits(s, p)))
    } else {
        (p, None)
    }
}

fn speed_at(s: &Vec<char>, p: usize) -> (r: (usize, Option<Decimal>))
    requires
        p <= s.len(),
    ensures
        (r.0 as int, r.1) == spec_speed(s@, p as int),
        p <= r.0 <= s.len(),
{
    if is_at(s, p, 'P') && has_run(s, p + 1, 2, Class::Digit) {
        (p + 3, Some(Decimal { whole: Span { start: p + 1, end: p + 3 }, fraction: None }))
    } else {
        match decimal_at(s, p) {
            Some((q, d)) => (q, Some(d)),
            None => (p, None),
        }
    }
}

fn gust_at(s: &Vec<char>, p: usize) -> (r: (usize, Option<Decimal>))
    requires
        p <= s.len(),
    ensures
        (r.0 as int, r.1) == spec_gust(s@, p as int),
        p <= r.0 <= s.len(),
{
    if is_at(s, p, 'G') {
        if lit(s, p + 1, &['/', '/']).is_some() {
            (p + 3, None)
        } else {
            match plus(s, p + 1, Class::Digit) {
                Some(q) => (q, Some(Decimal { whole: Span { start: p + 1, end: q }, fraction: None })),
                None => (p, None),
            }
        }
    } else {
        (p, None)
    }
}

pub fn variance_at(s: &Vec<char>, p: usize) -> (r: Option<(usize, (u16, u16))>)
    requires
        p <= s.len(),
    ensures
        res_of(r) == spec_variance(s@, p as int),
        r matches Some((q, _)) ==> p < q <= s.len(),
{
    if has_run(s, p, 3, Class::Digit) && is_at(s, p + 3, 'V') && has_run(s, p + 4, 3, Class::Digit) {
        Some((p + 7, (three_digits(s, p), three_digits(s, p + 4))))
    } else {
        None
    }
}

pub fn wind_at(s: &Vec<char>, p: usize) -> (r: Option<(usize, Option<Wind>)>)
    requires
        p <= s.len(),
    ensures
        res_of(r) == spec_wind(s@, p as int),
        r matches Some((q, _)) ==> p < q <= s.len(),
{
    let (p1, direction) = direction_at(s, p);
    let (p2, speed) = speed_at(s, p1);
    let (p3, gust) = gust_at(s, p2);
    match speed_unit_at(s, p3) {
        Some((q, unit)) => {
            let p4 = ws(s, q);
            let (p5, variance) = match variance_at(s, p4) {
                Some((r, v)) => (r, Some(v)),
                None => (p4, None),
            };
            Some((p5, Some(Wind {
                direction,
                speed: match speed {
                    Some(d) => Some(WindSpeed { value: d, unit }),
                    None => None,
                },
                peak_gust: match gust {
                    Some(d) => Some(WindSpeed { value: d, unit }),
                    None => None,
                },
                variance,
            })))
        },
        None => {
            let q = match lit(s, p, &['/', '/', '/', '/', '/', '/']) {
                Some(q) => q,
                None => match lit(s, p, &['/', '/', '/', '/', '/']) {
                    Some(q) => q,
                    None => {
                        return None;
                    },
                },
            };
            match speed_unit_at(s, q) {
                None => None,
                Some((r, _)) => {
                    let r1 = ws(s, r);
                    match lit(s, r1, &['/', '/', '/', 'V', '/', '/', '/']) {
                        Some(r2) => Some((r2, None)),
                        None => Some((r1, None)),
                    }
                },
            }
        },
    }
}

/// Marks of the optional direction at `p`.
pub open spec fn marks_direction(s: Seq<char>, p: int, m: Marks) -> Marks {
    if spec_lit(s, p, seq!['V', 'R', 'B']) is Some {
        m
    } else {
        marks_digits_upto(s, p, 3, mark(m, p, Token::Vrb))
    }
}

/// Marks of the optional speed at `p`.
pub open spec fn marks_speed(s: Seq<char>, p: int, m: Marks) -> Marks {
    let m1 = if at(s, p, 'P') {
        marks_digits_upto(s, p + 1, 2, m)
    } else {
        mark(m, p, Token::P)
    };
    if at(s, p, 'P') && run_of(s, p + 1, 2, Class::Digit) {
        m1
    } else {
        let d = scan(s, p, Class::Digit);
        let m2 = mark(m1, d, Token::Digit);
        if d == p {
            m2
        } else if at(s, d, '.') {
            marks_digits(s, d + 1, m2)
        } else {
            mark(m2, d, Token::Dot)
        }
    }
}

/// Marks of the optional gust at `p`.
pub open spec fn marks_gust(s: Seq<char>, p: int, m: Marks) -> Marks {
    if !at(s, p, 'G') {
        mark(m, p, Token::G)
    } else if spec_lit(s, p + 1, seq!['/', '/']) is Some {
        m
    } else {
        marks_digits(s, p + 1, mark(m, p + 1, Token::Slash2))
    }
}

/// Marks of the optional variable directions at `p`.
pub open spec fn marks_variance(s: Seq<char>, p: int, m: Marks) -> Marks {
    let m1 = marks_digits_upto(s, p, 3, m);
    if !run_of(s, p, 3, Class::Digit) {
        m1
    } else if !at(s, p + 3, 'V') {
        mark(m1, p + 3, Token::V)
    } else {
        marks_digits_upto(s, p + 4, 3, m1)
    }
}

/// Marks of `wind` at `p`: those of each optional part, then of the unit;
/// without a unit, those of the missing wind.
pub open spec fn marks_wind(s: Seq<char>, p: int, m: Marks) -> Marks {
    let p1 = spec_direction(s, p).0;
    let m1 = marks_direction(s, p, m);
    let p2 = spec_speed(s, p1).0;
    let m2 = marks_speed(s, p1, m1);
    let p3 = spec_gust(s, p2).0;
    let m3 = marks_gust(s, p2, m2);
    match spec_speed_unit(s, p3) {
        Some((q, _)) => marks_variance(s, spec_ws(s, q), marks_ws(s, q, m3)),
        None => {
            let m4 = mark(m3, p3, Token::VelocityUnit);
            let m5 = marks_lit(s, p, seq!['/', '/', '/', '/', '/', '/'], Token::Slash6, m4);
            let m6 = if spec_lit(s, p, seq!['/', '/', '/', '/', '/', '/']) is Some {
                m5
            } else {
                marks_lit(s, p, seq!['/', '/', '/', '/', '/'], Token::Slash5, m5)
            };
            match spec_missing_wind(s, p) {
                None => m6,
                Some(q) => match spec_speed_unit(s, q) {
                    None => mark(m6, q, Token::VelocityUnit),
                    Some((r, _)) => marks_lit(
                        s,
                        spec_ws(s, r),
                        seq!['/', '/', '/', 'V', '/', '/', '/'],
                        Token::MissingVariance,
                        marks_ws(s, r, m6),
                    ),
                },
            }
        },
    }
}

fn direction_marks(s: &Vec<char>, p: usize, tr: &mut Tracker)
    requires
        p <= s.len(),
    ensures
        final(tr)@ == marks_direction(s@, p as int, old(tr)@),
{
    if lit(s, p, &['V', 'R', 'B']).is_none() {
        tr.mark(p, Token::Vrb);
        digits_upto_marks(s, p, 3, tr);
    }
}

fn speed_marks(s: &Vec<char>, p: usize, tr: &mut Tracker)
    requires
        p <= s.len(),
    ensures
        final(tr)@ == marks_speed(s@, p as int, old(tr)@),
{
    let prefixed = is_at(s, p, 'P');
    if prefixed {
        digits_upto_marks(s, p + 1, 2, tr);
    } else {
        tr.mark(p, Token::P);
    }
    if !(prefixed && has_run(s, p + 1, 2, Class::Digit)) {
        let d = scan_class(s, p, Class::Digit);
        tr.mark(d, Token::Digit);
        if d != p {
            if is_at(s, d, '.') {
                digits_marks(s, d + 1, tr);
            } else {
                tr.mark(d, Token::Dot);
            }
        }
    }
}

fn gust_marks(s: &Vec<char>, p: usize, tr: &mut Tracker)
    requires
        p <= s.len(),
    ensures
        final(tr)@ == marks_gust(s@, p as int, old(tr)@),
{
    if !is_at(s, p, 'G') {
        tr.mark(p, Token::G);
    } else if lit(s, p + 1, &['/', '/']).is_none() {
        tr.mark(p + 1, Token::Slash2);
        digits_marks(s, p + 1, tr);
    }
}

fn variance_marks(s: &Vec<char>, p: usize, tr: &mut Tracker)
    requires
        p <= s.len(),
    ensures
        final(tr)@ == marks_variance(s@, p as int, old(tr)@),
{
    digits_upto_marks(s, p, 3, tr);
    if has_run(s, p, 3, Class::Digit) {
        if !is_at(s, p + 3, 'V') {
            tr.mark(p + 3, Token::V);
        } else {
            digits_upto_marks(s, p + 4, 3, tr);
        }
    }
}

pub fn wind_marks(s: &Vec<char>, p: usize, tr: &mut Tracker)
    requires
        p <= s.len(),
    ensures
        final(tr)@ == marks_wind(s@, p as int, old(tr)@),
{
    let (p1, _) = direction_at(s, p);
    direction_marks(s, p, tr);
    let (p2, _) = speed_at(s, p1);
    speed_marks(s, p1, tr);
    let (p3, _) = gust_at(s, p2);
    gust_marks(s, p2, tr);
    match speed_unit_at(s, p3) {
        Some((q, _)) => {
            ws_marks(s, q, tr);
            let p4 = ws(s, q);
            variance_marks(s, p4, tr);
        },
        None => {
            tr.mark(p3, Token::VelocityUnit);
            lit_marks(s, p, &['/', '/', '/', '/', '/', '/'], Token::Slash6, tr);
            let q = match lit(s, p, &['/', '/', '/', '/', '/', '/']) {
                Some(q) => Some(q),
                None => {
                    lit_marks(s, p, &['/', '/', '/', '/', '/'], Token::Slash5, tr);
                    lit(s, p, &['/', '/', '/', '/', '/'])
                },
            };
            if let Some(q) = q {
                match speed_unit_at(s, q) {
                    None => tr.mark(q, Token::VelocityUnit),
                    Some((r, _)) => {
                        ws_marks(s, r, tr);
                        let r1 = ws(s, r);
                        lit_marks(s, r1, &['/', '/', '/', 'V', '/', '/', '/'], Token::MissingVariance, tr);
                    },
                }
            }
        },
    }
}

} // verus!
