//! The report grammar's rules applied to a whole input, one function per rule
//! that is useful on its own. Each accepts the input exactly when the rule's
//! match covers all of it; otherwise it answers with the furthest position the
//! rule reached and the tokens it expected there. Rules that are named as a
//! whole (a station, a time, ...) expect only their name where they fail.

use vstd::prelude::*;
use crate::cloud::{cloud_cover_at, cloud_cover_marks, marks_cloud_cover, spec_cloud_cover, CloudCover};
use crate::conditions::{color_at, spec_color, spec_water_conditions, water_conditions_at, Color, WaterConditions};
use crate::error::{
    answers, finish, mark_if, no_marks, outcome, refusal, Marks, ParseError, SpecParseError, Token,
    Tracker,
};
use crate::header::{icao_identifier_at, observation_time_at, spec_icao_identifier, spec_observation_time, DateTime};
use crate::lex::{res_of, to_chars, Span};
use crate::measure::{marks_pressure, pressure_at, pressure_marks, spec_pressure, spec_temperatures, temperatures_at, Pressure, Temperatures};
use crate::runway::{runway_report_at, runway_visibility_at, spec_runway_report, spec_runway_visibility, RunwayReport, RunwayVisibility};
use crate::visibility::{spec_visibility, visibility_at, Visibility};
use crate::weather::{spec_weather, weather_at, SpecWeather, Weather};
use crate::wind::{marks_wind, spec_wind, wind_at, wind_marks, Wind};
use crate::ws::{marks_ws, spec_ws, ws, ws_marks};

verus! {

/// The marks of a rule that is named as a whole: its name where it fails.
pub open spec fn marks_named<T>(r: Option<(int, T)>, t: Token) -> Marks {
    mark_if(no_marks(), r is None, 0, t)
}

/// The whole-input result of a rule that is named as a whole.
fn named<T>(input: &str, s: &Vec<char>, r: Option<(usize, T)>, t: Token) -> (out: Result<T, ParseError>)
    requires
        s@ == input@,
    ensures
        answers(out, outcome(s@, res_of(r), marks_named(res_of(r), t))),
{
    let mut tr = Tracker::new();
    tr.mark_if(r.is_none(), 0, t);
    finish(input, s, r, tr)
}

/// A station identifier, such as `KSEA`.
pub fn icao_identifier(input: &str) -> (r: Result<Span, ParseError>)
    ensures
        answers(r, outcome(input@, spec_icao_identifier(input@, 0), marks_named(spec_icao_identifier(input@, 0), Token::IcaoIdentifier))),
{
    let s = to_chars(input);
    named(input, &s, icao_identifier_at(&s, 0), Token::IcaoIdentifier)
}

/// An observation time, such as `251453Z`. Its failures are quiet: a refused
/// input expects no token at its start.
pub fn observation_time(input: &str) -> (r: Result<DateTime, ParseError>)
    ensures
        answers(r, outcome(input@, spec_observation_time(input@, 0), no_marks())),
{
    let s = to_chars(input);
    finish(input, &s, observation_time_at(&s, 0), Tracker::new())
}

/// A visibility group, such as `10SM `; `Ok(None)` for no visibility.
pub fn visibility(input: &str) -> (r: Result<Option<Visibility>, ParseError>)
    ensures
        answers(r, outcome(input@, spec_visibility(input@, 0), marks_named(spec_visibility(input@, 0), Token::Visibility))),
{
    let s = to_chars(input);
    named(input, &s, visibility_at(&s, 0), Token::Visibility)
}

/// A runway visual range group, such as `R01L/3500VP6000FT`.
pub fn runway_visibility(input: &str) -> (r: Result<Option<RunwayVisibility>, ParseError>)
    ensures
        answers(r, outcome(input@, spec_runway_visibility(input@, 0), marks_named(spec_runway_visibility(input@, 0), Token::RunwayVisibility))),
{
    let s = to_chars(input);
    named(input, &s, runway_visibility_at(&s, 0), Token::RunwayVisibility)
}

/// A runway state group, such as `R24/290050`.
pub fn runway_report(input: &str) -> (r: Result<Option<RunwayReport>, ParseError>)
    ensures
        answers(r, outcome(input@, spec_runway_report(input@, 0), marks_named(spec_runway_report(input@, 0), Token::RunwayReport))),
{
    let s = to_chars(input);
    named(input, &s, runway_report_at(&s, 0), Token::RunwayReport)
}

/// Temperature and dewpoint, such as `24/M01`.
pub fn temperatures(input: &str) -> (r: Result<Option<Temperatures>, ParseError>)
    ensures
        answers(r, outcome(input@, spec_temperatures(input@, 0), marks_named(spec_temperatures(input@, 0), Token::Temperatures))),
{
    let s = to_chars(input);
    named(input, &s, temperatures_at(&s, 0), Token::Temperatures)
}

/// A color group, such as `BLACKWHT`.
pub fn color(input: &str) -> (r: Result<Color, ParseError>)
    ensures
        answers(r, outcome(input@, spec_color(input@, 0), marks_named(spec_color(input@, 0), Token::Color))),
{
    let s = to_chars(input);
    named(input, &s, color_at(&s, 0), Token::Color)
}

/// Sea conditions, such as `W13/S3`.
pub fn water_conditions(input: &str) -> (r: Result<WaterConditions, ParseError>)
    ensures
        answers(r, outcome(input@, spec_water_conditions(input@, 0), marks_named(spec_water_conditions(input@, 0), Token::WaterConditions))),
{
    let s = to_chars(input);
    named(input, &s, water_conditions_at(&s, 0), Token::WaterConditions)
}

/// Whitespace between groups (possibly none).
pub fn whitespace(input: &str) -> (r: Result<(), ParseError>)
    ensures
        answers(r, outcome(input@, Some((spec_ws(input@, 0), ())), marks_ws(input@, 0, no_marks()))),
{
    let s = to_chars(input);
    let mut tr = Tracker::new();
    ws_marks(&s, 0, &mut tr);
    let q = ws(&s, 0);
    finish(input, &s, Some((q, ())), tr)
}

/// A wind group, such as `09015G25KT`; `Ok(None)` for a missing wind.
pub fn wind(input: &str) -> (r: Result<Option<Wind>, ParseError>)
    ensures
        answers(r, outcome(input@, spec_wind(input@, 0), marks_wind(input@, 0, no_marks()))),
{
    let s = to_chars(input);
    let mut tr = Tracker::new();
    wind_marks(&s, 0, &mut tr);
    finish(input, &s, wind_at(&s, 0), tr)
}

/// A cloud layer, such as `FEW025`.
pub fn cloud_cover(input: &str) -> (r: Result<Option<CloudCover>, ParseError>)
    ensures
        answers(r, outcome(input@, spec_cloud_cover(input@, 0), marks_cloud_cover(input@, 0, no_marks()))),
{
    let s = to_chars(input);
    let mut tr = Tracker::new();
    cloud_cover_marks(&s, 0, &mut tr);
    finish(input, &s, cloud_cover_at(&s, 0), tr)
}

/// A pressure group, such as `A3002`.
pub fn pressure(input: &str) -> (r: Result<Option<Pressure>, ParseError>)
    ensures
        answers(r, outcome(input@, spec_pressure(input@, 0), marks_pressure(input@, 0, no_marks()))),
{
    let s = to_chars(input);
    let mut tr = Tracker::new();
    pressure_marks(&s, 0, &mut tr);
    finish(input, &s, pressure_at(&s, 0), tr)
}

/// A weather group, such as `-RA`.
pub fn weather(input: &str) -> (r: Result<Weather, ParseError>)
    ensures
        match r {
            Ok(w) => outcome(input@, spec_weather(input@, 0), marks_named(spec_weather(input@, 0), Token::Weather))
                == Ok::<SpecWeather, SpecParseError>(w@),
            Err(e) => outcome(input@, spec_weather(input@, 0), marks_named(spec_weather(input@, 0), Token::Weather))
                == Err::<SpecWeather, SpecParseError>(e@),
        },
{
    let s = to_chars(input);
    let r = weather_at(&s, 0);
    let mut tr = Tracker::new();
    tr.mark_if(r.is_none(), 0, Token::Weather);
    match r {
        Some((q, w)) => if q == s.len() {
            Ok(w)
        } else {
            tr.mark(q, Token::Eof);
            Err(refusal(input, &s, &tr))
        },
        None => Err(refusal(input, &s, &tr)),
    }
}

} // verus!
