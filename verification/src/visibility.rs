//! Prevailing, minimum and directional visibility.

use vstd::prelude::*;
use crate::lex::{
    at, is_at, lit, plus, res_of, scan, scan_class, span, spec_lit,
    spec_plus, Class, Span,
};
use crate::ws::{required_ws, spec_required_ws, spec_ws, spec_ws_or_eof, ws, ws_or_eof};

verus! {

/// The unit of a distance.
#[derive(Clone, Copy, PartialEq, Eq, Debug)]
pub enum LengthUnit {
    Meters,
    Kilometers,
    StatuteMiles,
    Feet,
}

/// A non-negative number as written: whole, fraction or both.
#[derive(Clone, Copy, PartialEq, Eq, Debug)]
pub enum Magnitude {
    Whole(Span),
    Fraction { numerator: Span, denominator: Span },
    Mixed { whole: Span, numerator: Span, denominator: Span },
}

/// Marks a value beyond the range of the instrument.
#[derive(Clone, Copy, PartialEq, Eq, Debug)]
pub enum OutOfRange {
    /// `M`: less than the value given.
    Below,
    /// `P`: more than the value given.
    Above,
}

/// A visibility distance.
#[derive(Clone, Copy, PartialEq, Eq, Debug)]
pub struct RawVisibility {
    pub value: Magnitude,
    pub unit: LengthUnit,
    pub out_of_range: Option<OutOfRange>,
}

/// The eight points of the compass.
#[derive(Clone, Copy, PartialEq, Eq, Debug)]
pub enum CompassDirection {
    North,
    NorthEast,
    East,
    SouthEast,
    South,
    SouthWest,
    West,
    NorthWest,
}

/// A visibility toward one direction.
#[derive(Clone, Copy, PartialEq, Eq, Debug)]
pub struct DirectionalVisibility {
    pub direction: CompassDirection,
    pub distance: RawVisibility,
}

#[derive(Clone, Copy, PartialEq, Eq, Debug)]
pub enum DirectionalOrRawVisibility {
    Directional(DirectionalVisibility),
    Raw(RawVisibility),
}

/// A visibility group.
#[derive(Clone, Copy, PartialEq, Eq, Debug)]
pub struct Visibility {
    pub prevailing: Option<RawVisibility>,
    pub minimum: Option<DirectionalOrRawVisibility>,
    pub maximum_directional: Option<DirectionalVisibility>,
}

/// Optional `M` or `P`.
pub open spec fn spec_out_of_range(s: Seq<char>, p: int) -> (int, Option<OutOfRange>) {
    if at(s, p, 'M') {
        (p + 1, Some(OutOfRange::Below))
    } else if at(s, p, 'P') {
        (p + 1, Some(OutOfRange::Above))
    } else {
        (p, None)
    }
}

/// Optional whitespace, then `M`, `KM` or `SM`, which must be followed by
/// whitespace or the end of the input.
pub open spec fn spec_visibility_unit(s: Seq<char>, p: int) -> Option<(int, LengthUnit)> {
    let q = spec_ws(s, p);
    let u = if at(s, q, 'M') {
        Some((q + 1, LengthUnit::Meters))
    } else if spec_lit(s, q, seq!['K', 'M']) is Some {
        Some((q + 2, LengthUnit::Kilometers))
    } else if spec_lit(s, q, seq!['S', 'M']) is Some {
        Some((q + 2, LengthUnit::StatuteMiles))
    } else {
        None
    };
    match u {
        Some((r, unit)) => if spec_ws_or_eof(s, r) is Some {
            Some((r, unit))
        } else {
            None
        },
        None => None,
    }
}

/// An optional visibility unit; meters when absent.
pub open spec fn spec_opt_unit(s: Seq<char>, p: int) -> (int, LengthUnit) {
    match spec_visibility_unit(s, p) {
        Some((q, u)) => (q, u),
        None => (p, LengthUnit::Meters),
    }
}

/// `out_of_range? whole whitespace? numerator "/" denominator unit?`
pub open spec fn spec_raw_mixed(s: Seq<char>, p: int) -> Option<(int, RawVisibility)> {
    let (p1, oor) = spec_out_of_range(s, p);
    match spec_plus(s, p1, Class::Digit) {
        None => None,
        Some(q1) => {
            let p2 = spec_ws(s, q1);
            match spec_plus(s, p2, Class::Digit) {
                None => None,
                Some(q2) => if at(s, q2, '/') {
                    match spec_plus(s, q2 + 1, Class::Digit) {
                        None => None,
                        Some(q3) => {
                            let (q4, unit) = spec_opt_unit(s, q3);
                            Some((q4, RawVisibility {
                                value: Magnitude::Mixed {
                                    whole: span(p1, q1),
                                    numerator: span(p2, q2),
                                    denominator: span(q2 + 1, q3),
                                },
                                unit,
                                out_of_range: oor,
                            }))
                        },
                    }
                } else {
                    None
                },
            }
        },
    }
}

/// `out_of_range? numerator "/" denominator unit?`
pub open spec fn spec_raw_fraction(s: Seq<char>, p: int) -> Option<(int, RawVisibility)> {
    let (p1, oor) = spec_out_of_range(s, p);
    match spec_plus(s, p1, Class::Digit) {
        None => None,
        Some(q1) => if at(s, q1, '/') {
            match spec_plus(s, q1 + 1, Class::Digit) {
                None => None,
                Some(q2) => {
                    let (q3, unit) = spec_opt_unit(s, q2);
                    Some((q3, RawVisibility {
                        value: Magnitude::Fraction {
                            numerator: span(p1, q1),
                            denominator: span(q1 + 1, q2),
                        },
                        unit,
                        out_of_range: oor,
                    }))
                },
            }
        } else {
            None
        },
    }
}

/// `out_of_range? digits unit?`
pub open spec fn spec_raw_whole(s: Seq<char>, p: int) -> Option<(int, RawVisibility)> {
    let (p1, oor) = spec_out_of_range(s, p);
    match spec_plus(s, p1, Class::Digit) {
        None => None,
        Some(q1) => {
            let (q2, unit) = spec_opt_unit(s, q1);
            Some((q2, RawVisibility { value: Magnitude::Whole(span(p1, q1)), unit, out_of_range: oor }))
        },
    }
}

/// A distance: mixed number, fraction or whole number, each with an optional unit.
pub open spec fn spec_raw_visibility(s: Seq<char>, p: int) -> Option<(int, RawVisibility)> {
    match spec_raw_mixed(s, p) {
        Some(r) => Some(r),
        None => match spec_raw_fraction(s, p) {
            Some(r) => Some(r),
            None => spec_raw_whole(s, p),
        },
    }
}

/// `NE`, `NW`, `N`, `SE`, `SW`, `S`, `E` or `W`.
pub open spec fn spec_compass(s: Seq<char>, p: int) -> Option<(int, CompassDirection)> {
    if spec_lit(s, p, seq!['N', 'E']) is Some {
        Some((p + 2, CompassDirection::NorthEast))
    } else if spec_lit(s, p, seq!['N', 'W']) is Some {
        Some((p + 2, CompassDirection::NorthWest))
    } else if at(s, p, 'N') {
        Some((p + 1, CompassDirection::North))
    } else if spec_lit(s, p, seq!['S', 'E']) is Some {
        Some((p + 2, CompassDirection::SouthEast))
    } else if spec_lit(s, p, seq!['S', 'W']) is Some {
        Some((p + 2, CompassDirection::SouthWest))
    } else if at(s, p, 'S') {
        Some((p + 1, CompassDirection::South))
    } else if at(s, p, 'E') {
        Some((p + 1, CompassDirection::East))
    } else if at(s, p, 'W') {
        Some((p + 1, CompassDirection::West))
    } else {
        None
    }
}

/// A distance followed by a compass direction.
pub open spec fn spec_directional(s: Seq<char>, p: int) -> Option<(int, DirectionalVisibility)> {
    match spec_raw_visibility(s, p) {
        None => None,
        Some((q, distance)) => match spec_compass(s, q) {
            None => None,
            Some((r, direction)) => Some((r, DirectionalVisibility { direction, distance })),
        },
    }
}

pub open spec fn spec_directional_or_raw(s: Seq<char>, p: int) -> Option<(int, DirectionalOrRawVisibility)> {
    match spec_directional(s, p) {
        Some((q, d)) => Some((q, DirectionalOrRawVisibility::Directional(d))),
        None => match spec_raw_visibility(s, p) {
            Some((q, r)) => Some((q, DirectionalOrRawVisibility::Raw(r))),
            None => None,
        },
    }
}

/// The groups that report no visibility: `digits* NDV unit?`, `//// unit`, and
/// `////NDV unit?`.
pub open spec fn spec_no_visibility(s: Seq<char>, p: int) -> Option<int> {
    let d = scan(s, p, Class::Digit);
    if spec_lit(s, d, seq!['N', 'D', 'V']) is Some {
        Some(spec_opt_unit(s, d + 3).0)
    } else if spec_lit(s, p, seq!['/', '/', '/', '/']) is Some && spec_visibility_unit(s, p + 4) is Some {
        match spec_visibility_unit(s, p + 4) {
            Some((q, _)) => Some(q),
            None => None,
        }
    } else if spec_lit(s, p, seq!['/', '/', '/', '/', 'N', 'D', 'V']) is Some {
        Some(spec_opt_unit(s, p + 7).0)
    } else {
        None
    }
}

/// `prevailing ws minimum ws maximum required_ws` and the same without the
/// maximum.
pub open spec fn spec_visibility_prevailing_minimum(s: Seq<char>, p: int) -> Option<(int, Visibility)> {
    match spec_raw_visibility(s, p) {
        None => None,
        Some((q1, prevailing)) => {
            let p2 = spec_ws(s, q1);
            match spec_directional_or_raw(s, p2) {
                None => None,
                Some((q2, minimum)) => {
                    let p3 = spec_ws(s, q2);
                    let with_max = match spec_directional(s, p3) {
                        None => None,
                        Some((q3, maximum)) => match spec_required_ws(s, q3) {
                            None => None,
                            Some(q4) => Some((q4, Visibility {
                                prevailing: Some(prevailing),
                                minimum: Some(minimum),
                                maximum_directional: Some(maximum),
                            })),
                        },
                    };
                    match with_max {
                        Some(r) => Some(r),
                        None => match spec_required_ws(s, q2) {
                            None => None,
                            Some(q4) => Some((q4, Visibility {
                                prevailing: Some(prevailing),
                                minimum: Some(minimum),
                                maximum_directional: None,
                            })),
                        },
                    }
                },
            }
        },
    }
}

/// `minimum ws maximum required_ws` and `minimum required_ws`, both directional.
pub open spec fn spec_visibility_directional(s: Seq<char>, p: int) -> Option<(int, Visibility)> {
    match spec_directional(s, p) {
        None => None,
        Some((q1, minimum)) => {
            let p2 = spec_ws(s, q1);
            let with_max = match spec_directional(s, p2) {
                None => None,
                Some((q2, maximum)) => match spec_required_ws(s, q2) {
                    None => None,
                    Some(q3) => Some((q3, Visibility {
                        prevailing: None,
                        minimum: Some(DirectionalOrRawVisibility::Directional(minimum)),
                        maximum_directional: Some(maximum),
                    })),
                },
            };
            match with_max {
                Some(r) => Some(r),
                None => match spec_required_ws(s, q1) {
                    None => None,
                    Some(q3) => Some((q3, Visibility {
                        prevailing: None,
                        minimum: Some(DirectionalOrRawVisibility::Directional(minimum)),
                        maximum_directional: None,
                    })),
                },
            }
        },
    }
}

/// `prevailing required_ws`.
pub open spec fn spec_visibility_prevailing(s: Seq<char>, p: int) -> Option<(int, Visibility)> {
    match spec_raw_visibility(s, p) {
        None => None,
        Some((q1, prevailing)) => match spec_required_ws(s, q1) {
            None => None,
            Some(q2) => Some((q2, Visibility {
                prevailing: Some(prevailing),
                minimum: None,
                maximum_directional: None,
            })),
        },
    }
}

/// A visibility group; `Some(None)` when the group reports no visibility.
pub open spec fn spec_visibility(s: Seq<char>, p: int) -> Option<(int, Option<Visibility>)> {
    match spec_no_visibility(s, p) {
        Some(q) => Some((q, None)),
        None => match spec_visibility_prevailing_minimum(s, p) {
            Some((q, v)) => Some((q, Some(v))),
            None => match spec_visibility_directional(s, p) {
                Some((q, v)) => Some((q, Some(v))),
                None => match spec_visibility_prevailing(s, p) {
                    Some((q, v)) => Some((q, Some(v))),
                    None => None,
                },
            },
        },
    }
}

fn out_of_range_at(s: &Vec<char>, p: usize) -> (r: (usize, Option<OutOfRange>))
    requires
        p <= s.len(),
    ensures
        (r.0 as int, r.1) == spec_out_of_range(s@, p as int),
        p <= r.0 <= s.len(),
{
    if is_at(s, p, 'M') {
        (p + 1, Some(OutOfRange::Below))
    } else if is_at(s, p, 'P') {
        (p + 1, Some(OutOfRange::Above))
    } else {
        (p, None)
    }
}

pub fn visibility_unit_at(s: &Vec<char>, p: usize) -> (r: Option<(usize, LengthUnit)>)
    requires
        p <= s.len(),
    ensures
        res_of(r) == spec_visibility_unit(s@, p as int),
        r matches Some((q, _)) ==> p < q <= s.len(),
{
    let q = ws(s, p);
    let u = if is_at(s, q, 'M') {
        Some((q + 1, LengthUnit::Meters))
    } else if lit(s, q, &['K', 'M']).is_some() {
        Some((q + 2, LengthUnit::Kilometers))
    } else if lit(s, q, &['S', 'M']).is_some() {
        Some((q + 2, LengthUnit::StatuteMiles))
    } else {
        None
    };
    match u {
        Some((r, unit)) => if ws_or_eof(s, r).is_some() {
            Some((r, unit))
        } else {
            None
        },
        None => None,
    }
}

fn opt_unit_at(s: &Vec<char>, p: usize) -> (r: (usize, LengthUnit))
    requires
        p <= s.len(),
    ensures
        (r.0 as int, r.1) == spec_opt_unit(s@, p as int),
        p <= r.0 <= s.len(),
{
    match visibility_unit_at(s, p) {
        Some((q, u)) => (q, u),
        None => (p, LengthUnit::Meters),
    }
}

fn raw_mixed_at(s: &Vec<char>, p: usize) -> (r: Option<(usize, RawVisibility)>)
    requires
        p <= s.len(),
    ensures
        res_of(r) == spec_raw_mixed(s@, p as int),
        r matches Some((q, _)) ==> p < q <= s.len(),
{
    let (p1, oor) = out_of_range_at(s, p);
    let q1 = plus(s, p1, Class::Digit)?;
    let p2 = ws(s, q1);
    let q2 = plus(s, p2, Class::Digit)?;
    if !is_at(s, q2, '/') {
        return None;
    }
    let q3 = plus(s, q2 + 1, Class::Digit)?;
    let (q4, unit) = opt_unit_at(s, q3);
    Some((q4, RawVisibility {
        value: Magnitude::Mixed {
            whole: Span { start: p1, end: q1 },
            numerator: Span { start: p2, end: q2 },
            denominator: Span { start: q2 + 1, end: q3 },
        },
        unit,
        out_of_range: oor,
    }))
}

fn raw_fraction_at(s: &Vec<char>, p: usize) -> (r: Option<(usize, RawVisibility)>)
    requires
        p <= s.len(),
    ensures
        res_of(r) == spec_raw_fraction(s@, p as int),
        r matches Some((q, _)) ==> p < q <= s.len(),
{
    let (p1, oor) = out_of_range_at(s, p);
    let q1 = plus(s, p1, Class::Digit)?;
    if !is_at(s, q1, '/') {
        return None;
    }
    let q2 = plus(s, q1 + 1, Class::Digit)?;
    let (q3, unit) = opt_unit_at(s, q2);
    Some((q3, RawVisibility {
        value: Magnitude::Fraction {
            numerator: Span { start: p1, end: q1 },
            denominator: Span { start: q1 + 1, end: q2 },
        },
        unit,
        out_of_range: oor,
    }))
}

fn raw_whole_at(s: &Vec<char>, p: usize) -> (r: Option<(usize, RawVisibility)>)
    requires
        p <= s.len(),
    ensures
        res_of(r) == spec_raw_whole(s@, p as int),
        r matches Some((q, _)) ==> p < q <= s.len(),
{
    let (p1, oor) = out_of_range_at(s, p);
    let q1 = plus(s, p1, Class::Digit)?;
    let (q2, unit) = opt_unit_at(s, q1);
    Some((q2, RawVisibility { value: Magnitude::Whole(Span { start: p1, end: q1 }), unit, out_of_range: oor }))
}

pub fn raw_visibility_at(s: &Vec<char>, p: usize) -> (r: Option<(usize, RawVisibility)>)
    requires
        p <= s.len(),
    ensures
        res_of(r) == spec_raw_visibility(s@, p as int),
        r matches Some((q, _)) ==> p < q <= s.len(),
{
    match raw_mixed_at(s, p) {
        Some(r) => Some(r),
        None => match raw_fraction_at(s, p) {
            Some(r) => Some(r),
            None => raw_whole_at(s, p),
        },
    }
}

fn compass_at(s: &Vec<char>, p: usize) -> (r: Option<(usize, CompassDirection)>)
    requires
        p <= s.len(),
    ensures
        res_of(r) == spec_compass(s@, p as int),
        r matches Some((q, _)) ==> p < q <= s.len(),
{
    if lit(s, p, &['N', 'E']).is_some() {
        Some((p + 2, CompassDirection::NorthEast))
    } else if lit(s, p, &['N', 'W']).is_some() {
        Some((p + 2, CompassDirection::NorthWest))
    } else if is_at(s, p, 'N') {
        Some((p + 1, CompassDirection::North))
    } else if lit(s, p, &['S', 'E']).is_some() {
        Some((p + 2, CompassDirection::SouthEast))
    } else if lit(s, p, &['S', 'W']).is_some() {
        Some((p + 2, CompassDirection::SouthWest))
    } else if is_at(s, p, 'S') {
        Some((p + 1, CompassDirection::South))
    } else if is_at(s, p, 'E') {
        Some((p + 1, CompassDirection::East))
    } else if is_at(s, p, 'W') {
        Some((p + 1, CompassDirection::West))
    } else {
        None
    }
}

fn directional_at(s: &Vec<char>, p: usize) -> (r: Option<(usize, DirectionalVisibility)>)
    requires
        p <= s.len(),
    ensures
        res_of(r) == spec_directional(s@, p as int),
        r matches Some((q, _)) ==> p < q <= s.len(),
{
    let (q, distance) = raw_visibility_at(s, p)?;
    let (r, direction) = compass_at(s, q)?;
    Some((r, DirectionalVisibility { direction, distance }))
}

fn directional_or_raw_at(s: &Vec<char>, p: usize) -> (r: Option<(usize, DirectionalOrRawVisibility)>)
    requires
        p <= s.len(),
    ensures
        res_of(r) == spec_directional_or_raw(s@, p as int),
        r matches Some((q, _)) ==> p < q <= s.len(),
{
    match directional_at(s, p) {
        Some((q, d)) => Some((q, DirectionalOrRawVisibility::Directional(d))),
        None => match raw_visibility_at(s, p) {
            Some((q, r)) => Some((q, DirectionalOrRawVisibility::Raw(r))),
            None => None,
        },
    }
}

fn no_visibility_at(s: &Vec<char>, p: usize) -> (r: Option<usize>)
    requires
        p <= s.len(),
    ensures
        match r {
            Some(q) => spec_no_visibility(s@, p as int) == Some(q as int) && p < q <= s.len(),
            None => spec_no_visibility(s@, p as int) is None,
        },
{
    let d = scan_class(s, p, Class::Digit);
    if lit(s, d, &['N', 'D', 'V']).is_some() {
        return Some(opt_unit_at(s, d + 3).0);
    }
    if lit(s, p, &['/', '/', '/', '/']).is_some() {
        if let Some((q, _)) = visibility_unit_at(s, p + 4) {
            return Some(q);
        }
    }
    if lit(s, p, &['/', '/', '/', '/', 'N', 'D', 'V']).is_some() {
        return Some(opt_unit_at(s, p + 7).0);
    }
    None
}

fn visibility_prevailing_minimum_at(s: &Vec<char>, p: usize) -> (r: Option<(usize, Visibility)>)
    requires
        p <= s.len(),
    ensures
        res_of(r) == spec_visibility_prevailing_minimum(s@, p as int),
        r matches Some((q, _)) ==> p < q <= s.len(),
{
    let (q1, prevailing) = raw_visibility_at(s, p)?;
    let p2 = ws(s, q1);
    let (q2, minimum) = directional_or_raw_at(s, p2)?;
    let p3 = ws(s, q2);
    if let Some((q3, maximum)) = directional_at(s, p3) {
        if let Some(q4) = required_ws(s, q3) {
            return Some((q4, Visibility {
                prevailing: Some(prevailing),
                minimum: Some(minimum),
                maximum_directional: Some(maximum),
            }));
        }
    }
    let q4 = required_ws(s, q2)?;
    Some((q4, Visibility { prevailing: Some(prevailing), minimum: Some(minimum), maximum_directional: None }))
}

fn visibility_directional_at(s: &Vec<char>, p: usize) -> (r: Option<(usize, Visibility)>)
    requires
        p <= s.len(),
    ensures
        res_of(r) == spec_visibility_directional(s@, p as int),
        r matches Some((q, _)) ==> p < q <= s.len(),
{
    let (q1, minimum) = directional_at(s, p)?;
    let p2 = ws(s, q1);
    if let Some((q2, maximum)) = directional_at(s, p2) {
        if let Some(q3) = required_ws(s, q2) {
            return Some((q3, Visibility {
                prevailing: None,
                minimum: Some(DirectionalOrRawVisibility::Directional(minimum)),
                maximum_directional: Some(maximum),
            }));
        }
    }
    let q3 = required_ws(s, q1)?;
    Some((q3, Visibility {
        prevailing: None,
        minimum: Some(DirectionalOrRawVisibility::Directional(minimum)),
        maximum_directional: None,
    }))
}

fn visibility_prevailing_at(s: &Vec<char>, p: usize) -> (r: Option<(usize, Visibility)>)
    requires
        p <= s.len(),
    ensures
        res_of(r) == spec_visibility_prevailing(s@, p as int),
        r matches Some((q, _)) ==> p < q <= s.len(),
{
    let (q1, prevailing) = raw_visibility_at(s, p)?;
    let q2 = required_ws(s, q1)?;
    Some((q2, Visibility { prevailing: Some(prevailing), minimum: None, maximum_directional: None }))
}

pub fn visibility_at(s: &Vec<char>, p: usize) -> (r: Option<(usize, Option<Visibility>)>)
    requires
        p <= s.len(),
    ensures
        res_of(r) == spec_visibility(s@, p as int),
        r matches Some((q, _)) ==> p < q <= s.len(),
{
    if let Some(q) = no_visibility_at(s, p) {
        return Some((q, None));
    }
    if let Some((q, v)) = visibility_prevailing_minimum_at(s, p) {
        return Some((q, Some(v)));
    }
    if let Some((q, v)) = visibility_directional_at(s, p) {
        return Some((q, Some(v)));
    }
    if let Some((q, v)) = visibility_prevailing_at(s, p) {
        return Some((q, Some(v)));
    }
    None
}

} // verus!
