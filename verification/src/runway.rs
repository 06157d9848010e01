//! Runway visual range and runway state groups.

use vstd::prelude::*;
use crate::lex::{
    at, has_run, is_at, is_digit, lit, num2, plus, res_of, run_of, scan,
    scan_class, span, spec_lit, spec_plus, two_digits, Class, Span,
};
use crate::list::Element;
use crate::visibility::{LengthUnit, Magnitude, OutOfRange, RawVisibility};
use crate::ws::{spec_ws_or_eof, ws_or_eof};

verus! {

/// The tendency of a runway visual range.
#[derive(Clone, Copy, PartialEq, Eq, Debug)]
pub enum VisibilityTrend {
    /// `D`
    Decreasing,
    /// `N`
    NoChange,
    /// `U`
    Increasing,
}

#[derive(Clone, Copy, PartialEq, Eq, Debug)]
pub enum VisibilityType {
    Varying { lower: RawVisibility, upper: RawVisibility },
    Fixed(RawVisibility),
}

/// A runway visual range group.
#[derive(Clone, Copy, PartialEq, Eq, Debug)]
pub struct RunwayVisibility {
    pub designator: Span,
    pub visibility: VisibilityType,
    pub trend: Option<VisibilityTrend>,
}

/// What covers a runway (one digit).
#[derive(Clone, Copy, PartialEq, Eq, Debug)]
pub enum DepositType {
    ClearAndDry,
    Damp,
    WetOrWaterPatches,
    RimeOrFrost,
    DrySnow,
    WetSnow,
    Slush,
    Ice,
    CompactedSnow,
    FrozenRuts,
}

/// How much of a runway is covered.
#[derive(Clone, Copy, PartialEq, Eq, Debug)]
pub enum Coverage {
    /// `1`: 10% or less.
    UpToTenPercent,
    /// `2`: 11% to 25%.
    UpToQuarter,
    /// `5`: 26% to 50%.
    UpToHalf,
    /// `9`: 51% to 100%.
    UpToWhole,
}

/// Estimated braking action, codes `91` to `95` and `99`.
#[derive(Clone, Copy, PartialEq, Eq, Debug)]
pub enum BrakingAction {
    Poor,
    MediumPoor,
    Medium,
    MediumGood,
    Good,
    Unreliable,
}

#[derive(Clone, Copy, PartialEq, Eq, Debug)]
pub enum RunwayReportInfo {
    /// `CLRD`: contamination cleared; the friction digits if given.
    Cleared { friction: Option<Span> },
    /// `SNOCLO`: closed because of snow or ice.
    ClosedSnowOrIce,
    Condition {
        deposit: DepositType,
        coverage: Option<Coverage>,
        /// Depth of the deposit in millimeters.
        depth: Option<u8>,
        /// Friction coefficient in hundredths.
        friction_coefficient: Option<u8>,
        braking_action: Option<BrakingAction>,
    },
}

/// A runway state group.
#[derive(Clone, Copy, PartialEq, Eq, Debug)]
pub struct RunwayReport {
    pub designator: Span,
    pub report_info: RunwayReportInfo,
}

/// Digits and an optional `L`, `C`, `R` or `D`.
pub open spec fn spec_designator(s: Seq<char>, p: int) -> Option<int> {
    match spec_plus(s, p, Class::Digit) {
        None => None,
        Some(q) => if at(s, q, 'L') || at(s, q, 'C') || at(s, q, 'R') || at(s, q, 'D') {
            Some(q + 1)
        } else {
            Some(q)
        },
    }
}

/// Optional `M` or `P`.
pub open spec fn spec_bound(s: Seq<char>, p: int) -> (int, Option<OutOfRange>) {
    if at(s, p, 'M') {
        (p + 1, Some(OutOfRange::Below))
    } else if at(s, p, 'P') {
        (p + 1, Some(OutOfRange::Above))
    } else {
        (p, None)
    }
}

/// `out_of_range? digits` as a bounded whole value.
pub open spec fn spec_runway_value(s: Seq<char>, p: int) -> Option<(int, (Option<OutOfRange>, Span))> {
    let (p1, oor) = spec_bound(s, p);
    match spec_plus(s, p1, Class::Digit) {
        None => None,
        Some(q) => Some((q, (oor, span(p1, q)))),
    }
}

/// Optional `FT`: feet if present, meters otherwise.
pub open spec fn spec_feet(s: Seq<char>, p: int) -> (int, LengthUnit) {
    if spec_lit(s, p, seq!['F', 'T']) is Some {
        (p + 2, LengthUnit::Feet)
    } else {
        (p, LengthUnit::Meters)
    }
}

pub open spec fn runway_distance(v: (Option<OutOfRange>, Span), unit: LengthUnit) -> RawVisibility {
    RawVisibility { value: Magnitude::Whole(v.1), unit, out_of_range: v.0 }
}

/// `lower V upper FT?`
pub open spec fn spec_runway_range(s: Seq<char>, p: int) -> Option<(int, (RawVisibility, RawVisibility))> {
    match spec_runway_value(s, p) {
        None => None,
        Some((q1, lower)) => if at(s, q1, 'V') {
            match spec_runway_value(s, q1 + 1) {
                None => None,
                Some((q2, upper)) => {
                    let (q3, unit) = spec_feet(s, q2);
                    Some((q3, (runway_distance(lower, unit), runway_distance(upper, unit))))
                },
            }
        } else {
            None
        },
    }
}

/// `value FT?`
pub open spec fn spec_runway_fixed(s: Seq<char>, p: int) -> Option<(int, RawVisibility)> {
    match spec_runway_value(s, p) {
        None => None,
        Some((q1, v)) => {
            let (q2, unit) = spec_feet(s, q1);
            Some((q2, runway_distance(v, unit)))
        },
    }
}

pub open spec fn trend_char(c: char) -> Option<VisibilityTrend> {
    if c == 'D' {
        Some(VisibilityTrend::Decreasing)
    } else if c == 'N' {
        Some(VisibilityTrend::NoChange)
    } else if c == 'U' {
        Some(VisibilityTrend::Increasing)
    } else {
        None
    }
}

/// Optional `/`? followed by `D`, `N` or `U`.
pub open spec fn spec_visibility_trend(s: Seq<char>, p: int) -> (int, Option<VisibilityTrend>) {
    let p1 = if at(s, p, '/') {
        p + 1
    } else {
        p
    };
    if 0 <= p1 < s.len() && trend_char(s[p1]) is Some {
        (p1 + 1, trend_char(s[p1]))
    } else {
        (p, None)
    }
}

/// What follows a runway visual range value: a trend and an optional `/`.
pub open spec fn spec_rvr_tail(s: Seq<char>, p: int) -> (int, Option<VisibilityTrend>) {
    let (q, trend) = spec_visibility_trend(s, p);
    if at(s, q, '/') {
        (q + 1, trend)
    } else {
        (q, trend)
    }
}

/// `R designator /`, the start of runway groups; the end and the designator.
pub open spec fn spec_runway_head(s: Seq<char>, p: int) -> Option<(int, Span)> {
    if at(s, p, 'R') {
        match spec_designator(s, p + 1) {
            None => None,
            Some(q) => if at(s, q, '/') {
                Some((q + 1, span(p + 1, q)))
            } else {
                None
            },
        }
    } else {
        None
    }
}

/// `R designator? ///// /*` followed by whitespace or the end: no value.
pub open spec fn spec_missing_rvr(s: Seq<char>, p: int) -> Option<int> {
    if at(s, p, 'R') {
        let q = match spec_designator(s, p + 1) {
            Some(q) => q,
            None => p + 1,
        };
        if spec_lit(s, q, seq!['/', '/', '/', '/', '/']) is Some {
            let r = scan(s, q + 5, Class::Slash);
            if spec_ws_or_eof(s, r) is Some {
                Some(r)
            } else {
                None
            }
        } else {
            None
        }
    } else {
        None
    }
}

/// A runway visual range group; `Some(None)` when its value is missing.
pub open spec fn spec_runway_visibility(s: Seq<char>, p: int) -> Option<(int, Option<RunwayVisibility>)> {
    let with_value = match spec_runway_head(s, p) {
        None => None,
        Some((q, designator)) => if spec_runway_report_info(s, q) is Some {
            None
        } else {
            match spec_runway_range(s, q) {
                Some((q1, (lower, upper))) => {
                    let (q2, trend) = spec_rvr_tail(s, q1);
                    Some((q2, Some(RunwayVisibility {
                        designator,
                        visibility: VisibilityType::Varying { lower, upper },
                        trend,
                    })))
                },
                None => match spec_runway_fixed(s, q) {
                    Some((q1, v)) => {
                        let (q2, trend) = spec_rvr_tail(s, q1);
                        Some((q2, Some(RunwayVisibility {
                            designator,
                            visibility: VisibilityType::Fixed(v),
                            trend,
                        })))
                    },
                    None => None,
                },
            }
        },
    };
    match with_value {
        Some(r) => Some(r),
        None => match spec_missing_rvr(s, p) {
            Some(q) => Some((q, None)),
            None => None,
        },
    }
}

pub open spec fn deposit_of(c: char) -> DepositType {
    if c == '0' {
        DepositType::ClearAndDry
    } else if c == '1' {
        DepositType::Damp
    } else if c == '2' {
        DepositType::WetOrWaterPatches
    } else if c == '3' {
        DepositType::RimeOrFrost
    } else if c == '4' {
        DepositType::DrySnow
    } else if c == '5' {
        DepositType::WetSnow
    } else if c == '6' {
        DepositType::Slush
    } else if c == '7' {
        DepositType::Ice
    } else if c == '8' {
        DepositType::CompactedSnow
    } else {
        DepositType::FrozenRuts
    }
}

/// `1`, `2`, `5` or `9` (a coverage) or `/` (not reported).
pub open spec fn spec_coverage(s: Seq<char>, p: int) -> Option<(int, Option<Coverage>)> {
    if at(s, p, '1') {
        Some((p + 1, Some(Coverage::UpToTenPercent)))
    } else if at(s, p, '2') {
        Some((p + 1, Some(Coverage::UpToQuarter)))
    } else if at(s, p, '5') {
        Some((p + 1, Some(Coverage::UpToHalf)))
    } else if at(s, p, '9') {
        Some((p + 1, Some(Coverage::UpToWhole)))
    } else if at(s, p, '/') {
        Some((p + 1, None))
    } else {
        None
    }
}

/// The depth, in millimeters, that a two-digit depth code stands for.
pub open spec fn depth_of(code: int) -> Option<u8> {
    if 92 <= code <= 98 {
        Some((10 + 5 * (code - 92)) as u8)
    } else if code == 99 {
        None
    } else {
        Some(code as u8)
    }
}

/// Two digits (a depth code) or `//` (not reported).
pub open spec fn spec_depth(s: Seq<char>, p: int) -> Option<(int, Option<u8>)> {
    if run_of(s, p, 2, Class::Digit) {
        Some((p + 2, depth_of(num2(s, p))))
    } else if spec_lit(s, p, seq!['/', '/']) is Some {
        Some((p + 2, None))
    } else {
        None
    }
}

pub open spec fn braking_of(c: char) -> BrakingAction {
    if c == '1' {
        BrakingAction::Poor
    } else if c == '2' {
        BrakingAction::MediumPoor
    } else if c == '3' {
        BrakingAction::Medium
    } else if c == '4' {
        BrakingAction::MediumGood
    } else if c == '5' {
        BrakingAction::Good
    } else {
        BrakingAction::Unreliable
    }
}

/// `9` and one of `1` to `5` or `9`, or `//` (not reported).
pub open spec fn spec_braking_action(s: Seq<char>, p: int) -> Option<(int, Option<BrakingAction>)> {
    if at(s, p, '9') && 0 <= p + 1 < s.len() && (('1' <= s[p + 1] && s[p + 1] <= '5') || s[p + 1] == '9') {
        Some((p + 2, Some(braking_of(s[p + 1]))))
    } else if spec_lit(s, p, seq!['/', '/']) is Some {
        Some((p + 2, None))
    } else {
        None
    }
}

/// A digit from `0` to `8` and another digit: hundredths.
pub open spec fn spec_friction_coefficient(s: Seq<char>, p: int) -> Option<(int, u8)> {
    if 0 <= p && p + 2 <= s.len() && '0' <= s[p] && s[p] <= '8' && is_digit(s[p + 1]) {
        Some((p + 2, num2(s, p) as u8))
    } else {
        None
    }
}

/// The state of a runway: `CLRD` and friction, `SNOCLO`, or deposit, coverage,
/// depth, and braking action or friction coefficient.
pub open spec fn spec_runway_report_info(s: Seq<char>, p: int) -> Option<(int, RunwayReportInfo)> {
    if spec_lit(s, p, seq!['C', 'L', 'R', 'D']) is Some {
        if spec_lit(s, p + 4, seq!['/', '/']) is Some {
            Some((p + 6, RunwayReportInfo::Cleared { friction: None }))
        } else {
            match spec_plus(s, p + 4, Class::Digit) {
                Some(q) => Some((q, RunwayReportInfo::Cleared { friction: Some(span(p + 4, q)) })),
                None => None,
            }
        }
    } else if spec_lit(s, p, seq!['S', 'N', 'O', 'C', 'L', 'O']) is Some {
        Some((p + 6, RunwayReportInfo::ClosedSnowOrIce))
    } else if 0 <= p < s.len() && is_digit(s[p]) {
        let deposit = deposit_of(s[p]);
        match spec_coverage(s, p + 1) {
            None => None,
            Some((q1, coverage)) => match spec_depth(s, q1) {
                None => None,
                Some((q2, depth)) => match spec_braking_action(s, q2) {
                    Some((q3, braking_action)) => Some((q3, RunwayReportInfo::Condition {
                        deposit,
                        coverage,
                        depth,
                        friction_coefficient: None,
                        braking_action,
                    })),
                    None => match spec_friction_coefficient(s, q2) {
                        Some((q3, fc)) => Some((q3, RunwayReportInfo::Condition {
                            deposit,
                            coverage,
                            depth,
                            friction_coefficient: Some(fc),
                            braking_action: None,
                        })),
                        None => None,
                    },
                },
            },
        }
    } else {
        None
    }
}

/// `R designator / state`.
pub open spec fn spec_runway_report(s: Seq<char>, p: int) -> Option<(int, Option<RunwayReport>)> {
    match spec_runway_head(s, p) {
        None => None,
        Some((q, designator)) => match spec_runway_report_info(s, q) {
            None => None,
            Some((r, report_info)) => Some((r, Some(RunwayReport { designator, report_info }))),
        },
    }
}

fn designator_at(s: &Vec<char>, p: usize) -> (r: Option<usize>)
    requires
        p <= s.len(),
    ensures
        match r {
            Some(q) => spec_designator(s@, p as int) == Some(q as int) && p < q <= s.len(),
            None => spec_designator(s@, p as int) is None,
        },
{
    let q = plus(s, p, Class::Digit)?;
    if is_at(s, q, 'L') || is_at(s, q, 'C') || is_at(s, q, 'R') || is_at(s, q, 'D') {
        Some(q + 1)
    } else {
        Some(q)
    }
}

fn bound_at(s: &Vec<char>, p: usize) -> (r: (usize, Option<OutOfRange>))
    requires
        p <= s.len(),
    ensures
        (r.0 as int, r.1) == spec_bound(s@, p as int),
        p <= r.0 <= s.len(),
{
    if is_at(s, p, 'M') {
        (p + 1, Some(OutOfRange::Below))
    } else if is_at(s, p, 'P') {
        (p + 1, Some(OutOfRange::Above))
    } else {
        (p, None)
    }
}

fn runway_value_at(s: &Vec<char>, p: usize) -> (r: Option<(usize, (Option<OutOfRange>, Span))>)
    requires
        p <= s.len(),
    ensures
        res_of(r) == spec_runway_value(s@, p as int),
        r matches Some((q, _)) ==> p < q <= s.len(),
{
    let (p1, oor) = bound_at(s, p);
    let q = plus(s, p1, Class::Digit)?;
    Some((q, (oor, Span { start: p1, end: q })))
}

fn feet_at(s: &Vec<char>, p: usize) -> (r: (usize, LengthUnit))
    requires
        p <= s.len(),
    ensures
        (r.0 as int, r.1) == spec_feet(s@, p as int),
        p <= r.0 <= s.len(),
{
    if lit(s, p, &['F', 'T']).is_some() {
        (p + 2, LengthUnit::Feet)
    } else {
        (p, LengthUnit::Meters)
    }
}

fn distance(v: (Option<OutOfRange>, Span), unit: LengthUnit) -> (r: RawVisibility)
    ensures
        r == runway_distance(v, unit),
{
    RawVisibility { value: Magnitude::Whole(v.1), unit, out_of_range: v.0 }
}

fn runway_range_at(s: &Vec<char>, p: usize) -> (r: Option<(usize, (RawVisibility, RawVisibility))>)
    requires
        p <= s.len(),
    ensures
        res_of(r) == spec_runway_range(s@, p as int),
        r matches Some((q, _)) ==> p < q <= s.len(),
{
    let (q1, lower) = runway_value_at(s, p)?;
    if !is_at(s, q1, 'V') {
        return None;
    }
    let (q2, upper) = runway_value_at(s, q1 + 1)?;
    let (q3, unit) = feet_at(s, q2);
    Some((q3, (distance(lower, unit), distance(upper, unit))))
}

fn runway_fixed_at(s: &Vec<char>, p: usize) -> (r: Option<(usize, RawVisibility)>)
    requires
        p <= s.len(),
    ensures
        res_of(r) == spec_runway_fixed(s@, p as int),
        r matches Some((q, _)) ==> p < q <= s.len(),
{
    let (q1, v) = runway_value_at(s, p)?;
    let (q2, unit) = feet_at(s, q1);
    Some((q2, distance(v, unit)))
}

fn trend_of(c: char) -> (r: Option<VisibilityTrend>)
    ensures
        r == trend_char(c),
{
    if c == 'D' {
        Some(VisibilityTrend::Decreasing)
    } else if c == 'N' {
        Some(VisibilityTrend::NoChange)
    } else if c == 'U' {
        Some(VisibilityTrend::Increasing)
    } else {
        None
    }
}

fn rvr_tail_at(s: &Vec<char>, p: usize) -> (r: (usize, Option<VisibilityTrend>))
    requires
        p <= s.len(),
    ensures
        (r.0 as int, r.1) == spec_rvr_tail(s@, p as int),
        p <= r.0 <= s.len(),
{
    let p1 = if is_at(s, p, '/') {
        p + 1
    } else {
        p
    };
    let (q, trend) = if p1 < s.len() && trend_of(s[p1]).is_some() {
        (p1 + 1, trend_of(s[p1]))
    } else {
        (p, None)
    };
    if is_at(s, q, '/') {
        (q + 1, trend)
    } else {
        (q, trend)
    }
}

fn runway_head_at(s: &Vec<char>, p: usize) -> (r: Option<(usize, Span)>)
    requires
        p <= s.len(),
    ensures
        res_of(r) == spec_runway_head(s@, p as int),
        r matches Some((q, _)) ==> p < q <= s.len(),
{
    if !is_at(s, p, 'R') {
        return None;
    }
    let q = designator_at(s, p + 1)?;
    if is_at(s, q, '/') {
        Some((q + 1, Span { start: p + 1, end: q }))
    } else {
        None
    }
}

fn missing_rvr_at(s: &Vec<char>, p: usize) -> (r: Option<usize>)
    requires
        p <= s.len(),
    ensures
        match r {
            Some(q) => spec_missing_rvr(s@, p as int) == Some(q as int) && p < q <= s.len(),
            None => spec_missing_rvr(s@, p as int) is None,
        },
{
    if !is_at(s, p, 'R') {
        return None;
    }
    let q = match designator_at(s, p + 1) {
        Some(q) => q,
        None => p + 1,
    };
    if lit(s, q, &['/', '/', '/', '/', '/']).is_some() {
        let r = scan_class(s, q + 5, Class::Slash);
        if ws_or_eof(s, r).is_some() {
            Some(r)
        } else {
            None
        }
    } else {
        None
    }
}

pub fn runway_visibility_at(s: &Vec<char>, p: usize) -> (r: Option<(usize, Option<RunwayVisibility>)>)
    requires
        p <= s.len(),
    ensures
        res_of(r) == spec_runway_visibility(s@, p as int),
        r matches Some((q, _)) ==> p < q <= s.len(),
{
    if let Some((q, designator)) = runway_head_at(s, p) {
        if runway_report_info_at(s, q).is_none() {
            if let Some((q1, (lower, upper))) = runway_range_at(s, q) {
                let (q2, trend) = rvr_tail_at(s, q1);
                return Some((q2, Some(RunwayVisibility {
                    designator,
                    visibility: VisibilityType::Varying { lower, upper },
                    trend,
                })));
            }
            if let Some((q1, v)) = runway_fixed_at(s, q) {
                let (q2, trend) = rvr_tail_at(s, q1);
                return Some((q2, Some(RunwayVisibility {
                    designator,
                    visibility: VisibilityType::Fixed(v),
                    trend,
                })));
            }
        }
    }
    match missing_rvr_at(s, p) {
        Some(q) => Some((q, None)),
        None => None,
    }
}

fn deposit_at(c: char) -> (d: DepositType)
    ensures
        d == deposit_of(c),
{
    if c == '0' {
        DepositType::ClearAndDry
    } else if c == '1' {
        DepositType::Damp
    } else if c == '2' {
        DepositType::WetOrWaterPatches
    } else if c == '3' {
        DepositType::RimeOrFrost
    } else if c == '4' {
        DepositType::DrySnow
    } else if c == '5' {
        DepositType::WetSnow
    } else if c == '6' {
        DepositType::Slush
    } else if c == '7' {
        DepositType::Ice
    } else if c == '8' {
        DepositType::CompactedSnow
    } else {
        DepositType::FrozenRuts
    }
}

fn coverage_at(s: &Vec<char>, p: usize) -> (r: Option<(usize, Option<Coverage>)>)
    requires
        p <= s.len(),
    ensures
        res_of(r) == spec_coverage(s@, p as int),
        r matches Some((q, _)) ==> p < q <= s.len(),
{
    if is_at(s, p, '1') {
        Some((p + 1, Some(Coverage::UpToTenPercent)))
    } else if is_at(s, p, '2') {
        Some((p + 1, Some(Coverage::UpToQuarter)))
    } else if is_at(s, p, '5') {
        Some((p + 1, Some(Coverage::UpToHalf)))
    } else if is_at(s, p, '9') {
        Some((p + 1, Some(Coverage::UpToWhole)))
    } else if is_at(s, p, '/') {
        Some((p + 1, None))
    } else {
        None
    }
}

/// Decodes a two-digit depth code.
pub fn depth_value(code: u8) -> (r: Option<u8>)
    requires
        code <= 99,
    ensures
        r == depth_of(code as int),
{
    if 92 <= code && code <= 98 {
        Some(10 + 5 * (code - 92))
    } else if code == 99 {
        None
    } else {
        Some(code)
    }
}

fn depth_at(s: &Vec<char>, p: usize) -> (r: Option<(usize, Option<u8>)>)
    requires
        p <= s.len(),
    ensures
        res_of(r) == spec_depth(s@, p as int),
        r matches Some((q, _)) ==> p < q <= s.len(),
{
    if has_run(s, p, 2, Class::Digit) {
        let code = two_digits(s, p);
        assert(code <= 99) by {
            assert(is_digit(s@[p as int]) && is_digit(s@[p + 1]));
        }
        Some((p + 2, depth_value(code)))
    } else if lit(s, p, &['/', '/']).is_some() {
        Some((p + 2, None))
    } else {
        None
    }
}

fn braking_at(c: char) -> (b: BrakingAction)
    ensures
        b == braking_of(c),
{
    if c == '1' {
        BrakingAction::Poor
    } else if c == '2' {
        BrakingAction::MediumPoor
    } else if c == '3' {
        BrakingAction::Medium
    } else if c == '4' {
        BrakingAction::MediumGood
    } else if c == '5' {
        BrakingAction::Good
    } else {
        BrakingAction::Unreliable
    }
}

fn braking_action_at(s: &Vec<char>, p: usize) -> (r: Option<(usize, Option<BrakingAction>)>)
    requires
        p <= s.len(),
    ensures
        res_of(r) == spec_braking_action(s@, p as int),
        r matches Some((q, _)) ==> p < q <= s.len(),
{
    if is_at(s, p, '9') && p + 1 < s.len() && (('1' <= s[p + 1] && s[p + 1] <= '5') || s[p + 1]
        == '9') {
        Some((p + 2, Some(braking_at(s[p + 1]))))
    } else if lit(s, p, &['/', '/']).is_some() {
        Some((p + 2, None))
    } else {
        None
    }
}

fn friction_coefficient_at(s: &Vec<char>, p: usize) -> (r: Option<(usize, u8)>)
    requires
        p <= s.len(),
    ensures
        res_of(r) == spec_friction_coefficient(s@, p as int),
        r matches Some((q, _)) ==> p < q <= s.len(),
{
    if 2 <= s.len() - p && '0' <= s[p] && s[p] <= '8' && '0' <= s[p + 1] && s[p + 1] <= '9' {
        assert(run_of(s@, p as int, 2, Class::Digit));
        Some((p + 2, two_digits(s, p)))
    } else {
        None
    }
}

pub fn runway_report_info_at(s: &Vec<char>, p: usize) -> (r: Option<(usize, RunwayReportInfo)>)
    requires
        p <= s.len(),
    ensures
        res_of(r) == spec_runway_report_info(s@, p as int),
        r matches Some((q, _)) ==> p < q <= s.len(),
{
    if lit(s, p, &['C', 'L', 'R', 'D']).is_some() {
        if lit(s, p + 4, &['/', '/']).is_some() {
            Some((p + 6, RunwayReportInfo::Cleared { friction: None }))
        } else {
            match plus(s, p + 4, Class::Digit) {
                Some(q) => Some((q, RunwayReportInfo::Cleared { friction: Some(Span { start: p + 4, end: q }) })),
                None => None,
            }
        }
    } else if lit(s, p, &['S', 'N', 'O', 'C', 'L', 'O']).is_some() {
        Some((p + 6, RunwayReportInfo::ClosedSnowOrIce))
    } else if p < s.len() && '0' <= s[p] && s[p] <= '9' {
        let deposit = deposit_at(s[p]);
        let (q1, coverage) = coverage_at(s, p + 1)?;
        let (q2, depth) = depth_at(s, q1)?;
        match braking_action_at(s, q2) {
            Some((q3, braking_action)) => Some((q3, RunwayReportInfo::Condition {
                deposit,
                coverage,
                depth,
                friction_coefficient: None,
                braking_action,
            })),
            None => match friction_coefficient_at(s, q2) {
                Some((q3, fc)) => Some((q3, RunwayReportInfo::Condition {
                    deposit,
                    coverage,
                    depth,
                    friction_coefficient: Some(fc),
                    braking_action: None,
                })),
                None => None,
            },
        }
    } else {
        None
    }
}

pub fn runway_report_at(s: &Vec<char>, p: usize) -> (r: Option<(usize, Option<RunwayReport>)>)
    requires
        p <= s.len(),
    ensures
        res_of(r) == spec_runway_report(s@, p as int),
        r matches Some((q, _)) ==> p < q <= s.len(),
{
    let (q, designator) = runway_head_at(s, p)?;
    let (r, report_info) = runway_report_info_at(s, q)?;
    Some((r, Some(RunwayReport { designator, report_info })))
}

impl Element for Option<RunwayVisibility> {
    type Spec = Option<RunwayVisibility>;

    open spec fn spec_of(&self) -> Option<RunwayVisibility> {
        *self
    }

    open spec fn spec_parse(s: Seq<char>, p: int) -> Option<(int, Option<RunwayVisibility>)> {
        spec_runway_visibility(s, p)
    }

    fn parse(s: &Vec<char>, p: usize) -> (r: Option<(usize, Option<RunwayVisibility>)>) {
        runway_visibility_at(s, p)
    }
}

impl Element for Option<RunwayReport> {
    type Spec = Option<RunwayReport>;

    open spec fn spec_of(&self) -> Option<RunwayReport> {
        *self
    }

    open spec fn spec_parse(s: Seq<char>, p: int) -> Option<(int, Option<RunwayReport>)> {
        spec_runway_report(s, p)
    }

    fn parse(s: &Vec<char>, p: usize) -> (r: Option<(usize, Option<RunwayReport>)>) {
        runway_report_at(s, p)
    }
}

} // verus!
