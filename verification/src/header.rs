//! The head of a report: report name, station identifier, observation time,
//! validity range and observation flags.

use vstd::prelude::*;
use crate::error::{mark_if, Marks, Token, Tracker};
use crate::lex::{
    at, has_run, is_at, is_letter, lit, num2, pos_of, res_of, run_of, span, spec_lit,
    two_digits, Class, Span,
};

verus! {

/// A time of day, in hours and minutes.
#[derive(Clone, Copy, PartialEq, Eq, Debug)]
pub struct MilitaryTime {
    pub hour: u8,
    pub minute: u8,
}

/// Day of the month and time of the observation.
#[derive(Clone, Copy, PartialEq, Eq, Debug)]
pub struct DateTime {
    pub day_of_month: u8,
    pub time: MilitaryTime,
    /// Whether the time carries the `Z` (UTC) suffix.
    pub is_zulu: bool,
}

/// The period for which a report is valid.
#[derive(Clone, Copy, PartialEq, Eq, Debug)]
pub struct TimeRange {
    pub begin: MilitaryTime,
    pub end: MilitaryTime,
}

/// Flags that qualify a whole report.
#[derive(Clone, Copy, PartialEq, Eq, Debug)]
pub enum ObservationFlag {
    /// `AUTO`: fully automated observation.
    Automatic,
    /// `NIL`: the report is missing.
    Missing,
    /// `COR` or `CC` and a letter: a corrected report.
    Correction,
    /// `RTD`: a routine report that was delayed.
    Delayed,
}

/// `METAR` or `SPECI`.
pub open spec fn spec_report_name(s: Seq<char>, p: int) -> Option<int> {
    match spec_lit(s, p, seq!['M', 'E', 'T', 'A', 'R']) {
        Some(q) => Some(q),
        None => spec_lit(s, p, seq!['S', 'P', 'E', 'C', 'I']),
    }
}

/// A capital letter followed by exactly three capital letters or digits.
pub open spec fn spec_icao_identifier(s: Seq<char>, p: int) -> Option<(int, Span)> {
    if 0 <= p < s.len() && is_letter(s[p]) && run_of(s, p + 1, 3, Class::LetterOrDigit) {
        Some((p + 4, span(p, p + 4)))
    } else {
        None
    }
}

/// Four digits: hour and minute.
pub open spec fn spec_military_time(s: Seq<char>, p: int) -> Option<(int, MilitaryTime)> {
    if run_of(s, p, 4, Class::Digit) {
        Some((p + 4, MilitaryTime { hour: num2(s, p) as u8, minute: num2(s, p + 2) as u8 }))
    } else {
        None
    }
}

/// Two digits of day, a military time, and an optional `Z`.
pub open spec fn spec_observation_time(s: Seq<char>, p: int) -> Option<(int, DateTime)> {
    if run_of(s, p, 6, Class::Digit) {
        let zulu = at(s, p + 6, 'Z');
        let end = if zulu { p + 7 } else { p + 6 };
        Some((end, DateTime {
            day_of_month: num2(s, p) as u8,
            time: MilitaryTime { hour: num2(s, p + 2) as u8, minute: num2(s, p + 4) as u8 },
            is_zulu: zulu,
        }))
    } else {
        None
    }
}

/// `begin/end`, both military times.
pub open spec fn spec_validity_range(s: Seq<char>, p: int) -> Option<(int, TimeRange)> {
    match spec_military_time(s, p) {
        None => None,
        Some((q, begin)) => if at(s, q, '/') {
            match spec_military_time(s, q + 1) {
                None => None,
                Some((r, end)) => Some((r, TimeRange { begin, end })),
            }
        } else {
            None
        },
    }
}

/// `AUTO`, `NIL`, `COR`, `CC` and a letter, or `RTD`.
pub open spec fn spec_observation_flag(s: Seq<char>, p: int) -> Option<(int, ObservationFlag)> {
    if let Some(q) = spec_lit(s, p, seq!['A', 'U', 'T', 'O']) {
        Some((q, ObservationFlag::Automatic))
    } else if let Some(q) = spec_lit(s, p, seq!['N', 'I', 'L']) {
        Some((q, ObservationFlag::Missing))
    } else if let Some(q) = spec_lit(s, p, seq!['C', 'O', 'R']) {
        Some((q, ObservationFlag::Correction))
    } else if spec_lit(s, p, seq!['C', 'C']) is Some && 0 <= p + 2 < s.len() && is_letter(
        s[p + 2],
    ) {
        Some((p + 3, ObservationFlag::Correction))
    } else if let Some(q) = spec_lit(s, p, seq!['R', 'T', 'D']) {
        Some((q, ObservationFlag::Delayed))
    } else {
        None
    }
}

pub fn report_name_at(s: &Vec<char>, p: usize) -> (r: Option<usize>)
    requires
        p <= s.len(),
    ensures
        pos_of(r) == spec_report_name(s@, p as int),
        r matches Some(q) ==> p < q <= s.len(),
{
    match lit(s, p, &['M', 'E', 'T', 'A', 'R']) {
        Some(q) => Some(q),
        None => lit(s, p, &['S', 'P', 'E', 'C', 'I']),
    }
}

pub fn icao_identifier_at(s: &Vec<char>, p: usize) -> (r: Option<(usize, Span)>)
    requires
        p <= s.len(),
    ensures
        res_of(r) == spec_icao_identifier(s@, p as int),
        r matches Some((q, _)) ==> p < q <= s.len(),
{
    if p < s.len() && 'A' <= s[p] && s[p] <= 'Z' && has_run(s, p + 1, 3, Class::LetterOrDigit) {
        Some((p + 4, Span { start: p, end: p + 4 }))
    } else {
        None
    }
}

pub fn military_time_at(s: &Vec<char>, p: usize) -> (r: Option<(usize, MilitaryTime)>)
    requires
        p <= s.len(),
    ensures
        res_of(r) == spec_military_time(s@, p as int),
        r matches Some((q, _)) ==> p < q <= s.len(),
{
    if has_run(s, p, 4, Class::Digit) {
        assert(run_of(s@, p as int, 2, Class::Digit));
        assert(run_of(s@, p + 2, 2, Class::Digit));
        Some((p + 4, MilitaryTime { hour: two_digits(s, p), minute: two_digits(s, p + 2) }))
    } else {
        None
    }
}

pub fn observation_time_at(s: &Vec<char>, p: usize) -> (r: Option<(usize, DateTime)>)
    requires
        p <= s.len(),
    ensures
        res_of(r) == spec_observation_time(s@, p as int),
        r matches Some((q, _)) ==> p < q <= s.len(),
{
    if has_run(s, p, 6, Class::Digit) {
        assert(run_of(s@, p as int, 2, Class::Digit));
        assert(run_of(s@, p + 2, 2, Class::Digit));
        assert(run_of(s@, p + 4, 2, Class::Digit));
        let zulu = is_at(s, p + 6, 'Z');
        let end = if zulu {
            p + 7
        } else {
            p + 6
        };
        Some((end, DateTime {
            day_of_month: two_digits(s, p),
            time: MilitaryTime { hour: two_digits(s, p + 2), minute: two_digits(s, p + 4) },
            is_zulu: zulu,
        }))
    } else {
        None
    }
}

pub fn validity_range_at(s: &Vec<char>, p: usize) -> (r: Option<(usize, TimeRange)>)
    requires
        p <= s.len(),
    ensures
        res_of(r) == spec_validity_range(s@, p as int),
        r matches Some((q, _)) ==> p < q <= s.len(),
{
    match military_time_at(s, p) {
        None => None,
        Some((q, begin)) => if is_at(s, q, '/') {
            match military_time_at(s, q + 1) {
                None => None,
                Some((r, end)) => Some((r, TimeRange { begin, end })),
            }
        } else {
            None
        },
    }
}

pub fn observation_flag_at(s: &Vec<char>, p: usize) -> (r: Option<(usize, ObservationFlag)>)
    requires
        p <= s.len(),
    ensures
        res_of(r) == spec_observation_flag(s@, p as int),
        r matches Some((q, _)) ==> p < q <= s.len(),
{
    if let Some(q) = lit(s, p, &['A', 'U', 'T', 'O']) {
        Some((q, ObservationFlag::Automatic))
    } else if let Some(q) = lit(s, p, &['N', 'I', 'L']) {
        Some((q, ObservationFlag::Missing))
    } else if let Some(q) = lit(s, p, &['C', 'O', 'R']) {
        Some((q, ObservationFlag::Correction))
    } else if lit(s, p, &['C', 'C']).is_some() && p + 2 < s.len() && 'A' <= s[p + 2] && s[p
        + 2] <= 'Z' {
        Some((p + 3, ObservationFlag::Correction))
    } else if let Some(q) = lit(s, p, &['R', 'T', 'D']) {
        Some((q, ObservationFlag::Delayed))
    } else {
        None
    }
}


impl crate::list::Element for ObservationFlag {
    type Spec = ObservationFlag;

    open spec fn spec_of(&self) -> ObservationFlag {
        *self
    }

    open spec fn spec_parse(s: Seq<char>, p: int) -> Option<(int, ObservationFlag)> {
        spec_observation_flag(s, p)
    }

    fn parse(s: &Vec<char>, p: usize) -> (r: Option<(usize, ObservationFlag)>) {
        observation_flag_at(s, p)
    }
}

impl crate::list::Marked for ObservationFlag {
    open spec fn spec_marks(s: Seq<char>, p: int, m: Marks) -> Marks {
        mark_if(m, spec_observation_flag(s, p) is None, p, Token::ObservationFlag)
    }

    fn marks(s: &Vec<char>, p: usize, tr: &mut Tracker) {
        let r = observation_flag_at(s, p);
        tr.mark_if(r.is_none(), p, Token::ObservationFlag);
    }
}

} // verus!
