//! A whole METAR report. Groups come in a loose order; many stations put
//! groups in unusual places, so several groups are accepted at more than one
//! place and collected together.

use vstd::prelude::*;
use vstd::string::StrSliceExecFns;
use crate::cloud::CloudCover;
use crate::conditions::{color_at, spec_color, spec_water_conditions, water_conditions_at, Color, WaterConditions};
use crate::header::{
    icao_identifier_at, observation_time_at, report_name_at, spec_icao_identifier,
    spec_observation_time, spec_report_name, spec_validity_range, validity_range_at, DateTime,
    ObservationFlag, TimeRange,
};
use crate::lex::{at, is_at, res_of, scan, scan_class, span, to_chars, Class, Span};
use crate::error::{
    mark, mark_if, no_marks, outcome, refusal, Marks, ParseError, SpecParseError, Token, Tracker,
};
use crate::list::{
    marks_sep_list, parse_sep_list, push_somes, sep_list, sep_list_marks, somes, specs, Element,
};
use crate::measure::{
    accumulated_rainfall_at, spec_accumulated_rainfall, spec_temperatures, temperatures_at,
    AccumulatedRainfall, Pressure, Temperatures,
};
use crate::remarks::{remarks, spec_remark_prefix, spec_remarks, Remarks, SpecRemarks};
use crate::runway::{RunwayReport, RunwayVisibility};
use crate::trend::{SpecTrend, Trend};
use crate::visibility::{spec_visibility, visibility_at, Visibility};
use crate::weather::{
    recent_weather_sequence_at, spec_recent_weather_sequence, spec_weather_sequence,
    weather_sequence_at, SpecWeather, Weather,
};
use crate::wind::{spec_wind, wind_at, Wind};
use crate::ws::{marks_ws, required_ws, spec_required_ws, spec_ws, ws, ws_marks};

verus! {

/// A decoded METAR report. Spans index the report's characters.
#[derive(Debug)]
pub struct MetarReport {
    pub identifier: Span,
    pub observation_time: Option<DateTime>,
    pub observation_validity_range: Option<TimeRange>,
    pub observation_flags: Vec<ObservationFlag>,
    pub wind: Option<Wind>,
    pub visibility: Option<Visibility>,
    pub runway_visibilities: Vec<RunwayVisibility>,
    pub runway_reports: Vec<RunwayReport>,
    pub weather: Vec<Weather>,
    pub cloud_cover: Vec<CloudCover>,
    /// `CAVOK`: ceiling and visibility OK.
    pub cavok: bool,
    pub temperatures: Option<Temperatures>,
    pub pressure: Option<Pressure>,
    pub accumulated_rainfall: Option<AccumulatedRainfall>,
    pub recent_weather: Vec<Weather>,
    pub color: Option<Color>,
    pub water_conditions: Option<WaterConditions>,
    pub trends: Vec<Trend>,
    /// The remark section, marked (`RMK ...`) or not.
    pub remark: Option<Span>,
    /// The remark section decoded, when it reads as remarks.
    pub remarks: Option<Remarks>,
    /// A pilot report remark (`RM ...`).
    pub pirep_remark: Option<Span>,
    /// `$`: the station needs maintenance.
    pub maintenance_needed: bool,
}

pub struct SpecMetarReport {
    pub identifier: Span,
    pub observation_time: Option<DateTime>,
    pub observation_validity_range: Option<TimeRange>,
    pub observation_flags: Seq<ObservationFlag>,
    pub wind: Option<Wind>,
    pub visibility: Option<Visibility>,
    pub runway_visibilities: Seq<RunwayVisibility>,
    pub runway_reports: Seq<RunwayReport>,
    pub weather: Seq<SpecWeather>,
    pub cloud_cover: Seq<CloudCover>,
    pub cavok: bool,
    pub temperatures: Option<Temperatures>,
    pub pressure: Option<Pressure>,
    pub accumulated_rainfall: Option<AccumulatedRainfall>,
    pub recent_weather: Seq<SpecWeather>,
    pub color: Option<Color>,
    pub water_conditions: Option<WaterConditions>,
    pub trends: Seq<SpecTrend>,
    pub remark: Option<Span>,
    pub remarks: Option<SpecRemarks>,
    pub pirep_remark: Option<Span>,
    pub maintenance_needed: bool,
}

impl View for MetarReport {
    type V = SpecMetarReport;

    open spec fn view(&self) -> SpecMetarReport {
        SpecMetarReport {
            identifier: self.identifier,
            observation_time: self.observation_time,
            observation_validity_range: self.observation_validity_range,
            observation_flags: self.observation_flags@,
            wind: self.wind,
            visibility: self.visibility,
            runway_visibilities: self.runway_visibilities@,
            runway_reports: self.runway_reports@,
            weather: specs(self.weather@),
            cloud_cover: self.cloud_cover@,
            cavok: self.cavok,
            temperatures: self.temperatures,
            pressure: self.pressure,
            accumulated_rainfall: self.accumulated_rainfall,
            recent_weather: specs(self.recent_weather@),
            color: self.color,
            water_conditions: self.water_conditions,
            trends: specs(self.trends@),
            remark: self.remark,
            remarks: match self.remarks {
                Some(r) => Some(r@),
                None => None,
            },
            pirep_remark: self.pirep_remark,
            maintenance_needed: self.maintenance_needed,
        }
    }
}

/// An optional rule that yields an optional value: absent and empty alike give
/// `None`.
pub open spec fn flat<T>(r: Option<(int, Option<T>)>, p: int) -> (int, Option<T>) {
    match r {
        Some((q, v)) => (q, v),
        None => (p, None),
    }
}

/// An optional rule that yields a sequence: absent gives the empty sequence.
pub open spec fn or_empty<T>(r: Option<(int, Seq<T>)>, p: int) -> (int, Seq<T>) {
    match r {
        Some((q, v)) => (q, v),
        None => (p, seq![]),
    }
}

/// An optional rule: its value if it matches.
pub open spec fn opt<T>(r: Option<(int, T)>, p: int) -> (int, Option<T>) {
    match r {
        Some((q, v)) => (q, Some(v)),
        None => (p, None),
    }
}

/// The head of a report: report name, flags, the station, time, validity,
/// report name again and flags again, each optional but the station.
#[verifier::opaque]
pub open spec fn spec_head(s: Seq<char>) -> Option<(int, (Span, Option<DateTime>, Option<TimeRange>, Seq<ObservationFlag>))> {
    let p0 = spec_ws(s, 0);
    let p1 = match spec_report_name(s, p0) {
        Some(q) => q,
        None => p0,
    };
    let p2 = spec_ws(s, p1);
    let (p3, pre_flags) = sep_list::<ObservationFlag>(s, p2, false);
    let p4 = spec_ws(s, p3);
    match spec_icao_identifier(s, p4) {
        None => None,
        Some((p5, identifier)) => {
            let p6 = spec_ws(s, p5);
            let (p7, observation_time) = opt(spec_observation_time(s, p6), p6);
            let p8 = spec_ws(s, p7);
            let (p9, validity) = opt(spec_validity_range(s, p8), p8);
            let p10 = spec_ws(s, p9);
            let p11 = match spec_report_name(s, p10) {
                Some(q) => q,
                None => p10,
            };
            let p12 = spec_ws(s, p11);
            let (p13, flags) = sep_list::<ObservationFlag>(s, p12, false);
            let p14 = spec_ws(s, p13);
            Some((p14, (identifier, observation_time, validity, pre_flags + flags)))
        },
    }
}

/// The groups up to the pressure.
pub struct SpecBody {
    pub wind: Option<Wind>,
    pub pre_temperatures: Option<Temperatures>,
    pub visibility: Option<Visibility>,
    pub runway_visibilities: Seq<Option<RunwayVisibility>>,
    pub pre_recent_weather: Seq<SpecWeather>,
    pub weather: Seq<SpecWeather>,
    pub cloud_cover: Seq<Option<CloudCover>>,
    pub cavok: bool,
    pub temperatures: Option<Temperatures>,
    pub pressure: Option<Pressure>,
}

/// Wind, temperatures, visibility, runway visual ranges, recent and present
/// weather, clouds, `CAVOK`, temperatures, pressure and further pressures.
#[verifier::opaque]
pub open spec fn spec_body(s: Seq<char>, p: int) -> (int, SpecBody) {
    let (p1, wind) = flat(spec_wind(s, p), p);
    let p2 = spec_ws(s, p1);
    let (p3, pre_temperatures) = flat(spec_temperatures(s, p2), p2);
    let p4 = spec_ws(s, p3);
    let (p5, visibility) = flat(spec_visibility(s, p4), p4);
    let p6 = spec_ws(s, p5);
    let (p7, runway_visibilities) = sep_list::<Option<RunwayVisibility>>(s, p6, false);
    let p8 = spec_ws(s, p7);
    let (p9, pre_recent_weather) = or_empty(spec_recent_weather_sequence(s, p8), p8);
    let p10 = spec_ws(s, p9);
    let (p11, weather) = or_empty(spec_weather_sequence(s, p10), p10);
    let p12 = spec_ws(s, p11);
    let (p13, cloud_cover) = sep_list::<Option<CloudCover>>(s, p12, false);
    let p14 = spec_ws(s, p13);
    let (p15, cavok) = match crate::lex::spec_lit(s, p14, seq!['C', 'A', 'V', 'O', 'K']) {
        Some(q) => (spec_ws(s, q), true),
        None => (p14, false),
    };
    let (p16, temperatures) = flat(spec_temperatures(s, p15), p15);
    let p17 = spec_ws(s, p16);
    let (p18, pressure) = flat(crate::measure::spec_pressure(s, p17), p17);
    let p19 = spec_ws(s, p18);
    let (p20, _) = sep_list::<Option<Pressure>>(s, p19, false);
    let p21 = spec_ws(s, p20);
    (p21, SpecBody {
        wind,
        pre_temperatures,
        visibility,
        runway_visibilities,
        pre_recent_weather,
        weather,
        cloud_cover,
        cavok,
        temperatures,
        pressure,
    })
}

/// The groups after the pressure.
pub struct SpecLate {
    pub weather: Seq<SpecWeather>,
    pub cloud_cover: Seq<Option<CloudCover>>,
    pub temperatures: Option<Temperatures>,
    pub accumulated_rainfall: Option<AccumulatedRainfall>,
    pub recent_weather: Seq<SpecWeather>,
    pub cloud_cover_after_recent: Seq<Option<CloudCover>>,
    pub temperatures_after_recent: Option<Temperatures>,
    pub color: Option<Color>,
    pub runway_visibilities: Seq<Option<RunwayVisibility>>,
    pub runway_reports: Seq<Option<RunwayReport>>,
    pub runway_visibilities_after_reports: Seq<Option<RunwayVisibility>>,
    pub water_conditions: Option<WaterConditions>,
    pub trends: Seq<SpecTrend>,
}

/// Weather, clouds, temperatures, rainfall, recent weather, clouds,
/// temperatures, color, runway visual ranges, runway states, runway visual
/// ranges, sea conditions and trends.
#[verifier::opaque]
pub open spec fn spec_late(s: Seq<char>, p: int) -> (int, SpecLate) {
    let (p1, weather) = or_empty(spec_weather_sequence(s, p), p);
    let p2 = spec_ws(s, p1);
    let (p3, cloud_cover) = sep_list::<Option<CloudCover>>(s, p2, false);
    let p4 = spec_ws(s, p3);
    let (p5, temperatures) = flat(spec_temperatures(s, p4), p4);
    let p6 = spec_ws(s, p5);
    let (p7, accumulated_rainfall) = opt(spec_accumulated_rainfall(s, p6), p6);
    let p8 = spec_ws(s, p7);
    let (p9, recent_weather) = or_empty(spec_recent_weather_sequence(s, p8), p8);
    let p10 = spec_ws(s, p9);
    let (p11, cloud_cover_after_recent) = sep_list::<Option<CloudCover>>(s, p10, false);
    let p12 = spec_ws(s, p11);
    let (p13, temperatures_after_recent) = flat(spec_temperatures(s, p12), p12);
    let p14 = spec_ws(s, p13);
    let (p15, color) = opt(spec_color(s, p14), p14);
    let p16 = spec_ws(s, p15);
    let (p17, runway_visibilities) = sep_list::<Option<RunwayVisibility>>(s, p16, false);
    let p18 = spec_ws(s, p17);
    let (p19, runway_reports) = sep_list::<Option<RunwayReport>>(s, p18, false);
    let p20 = spec_ws(s, p19);
    let (p21, runway_visibilities_after_reports) = sep_list::<Option<RunwayVisibility>>(s, p20, false);
    let p22 = spec_ws(s, p21);
    let (p23, water_conditions) = opt(spec_water_conditions(s, p22), p22);
    let p24 = spec_ws(s, p23);
    let (p25, trends) = sep_list::<Trend>(s, p24, false);
    let p26 = spec_ws(s, p25);
    (p26, SpecLate {
        weather,
        cloud_cover,
        temperatures,
        accumulated_rainfall,
        recent_weather,
        cloud_cover_after_recent,
        temperatures_after_recent,
        color,
        runway_visibilities,
        runway_reports,
        runway_visibilities_after_reports,
        water_conditions,
        trends,
    })
}

/// A remark section: a remark prefix and everything up to `$`.
pub open spec fn spec_remark_text(s: Seq<char>, p: int) -> Option<(int, Span)> {
    match spec_remark_prefix(s, p) {
        Some(q) => {
            let r = scan(s, q, Class::NotDollar);
            Some((r, span(p, r)))
        },
        None => None,
    }
}

/// `RM`, whitespace and everything up to `$`, not followed by a remark section.
pub open spec fn spec_pirep_remark(s: Seq<char>, p: int) -> Option<(int, Span)> {
    if crate::lex::spec_lit(s, p, seq!['R', 'M']) is Some {
        match spec_required_ws(s, p + 2) {
            Some(q) => {
                let r = scan(s, q, Class::NotDollar);
                if spec_remark_text(s, r) is None {
                    Some((r, span(p, r)))
                } else {
                    None
                }
            },
            None => None,
        }
    } else {
        None
    }
}

/// The end of a report: pilot report, remarks, `$`, trailing slashes, and the
/// text up to `=` (remarks without a prefix), then `=` and anything after it.
/// Gives the pilot report, the remark section, the `$` and the unmarked text.
pub open spec fn spec_tail(s: Seq<char>, p: int) -> (int, (Option<Span>, Option<Span>, bool, Span)) {
    let (p1, pirep) = opt(spec_pirep_remark(s, p), p);
    let (p2, remark) = opt(spec_remark_text(s, p1), p1);
    let (p3, maintenance) = if at(s, p2, '$') {
        (p2 + 1, true)
    } else {
        (p2, false)
    };
    let p4 = spec_ws(s, p3);
    let p5 = scan(s, p4, Class::Slash);
    let p6 = spec_ws(s, p5);
    let p7 = scan(s, p6, Class::NotEquals);
    let p8 = if at(s, p7, '=') {
        scan(s, p7 + 1, Class::Any)
    } else {
        p7
    };
    let p9 = spec_ws(s, p8);
    (p9, (pirep, remark, maintenance, span(p6, p7)))
}

/// The first of the temperatures found.
pub open spec fn first_temperatures(a: Option<Temperatures>, b: Option<Temperatures>, c: Option<Temperatures>, d: Option<Temperatures>) -> Option<Temperatures> {
    if a is Some {
        a
    } else if b is Some {
        b
    } else if c is Some {
        c
    } else {
        d
    }
}

/// The groups of a report and where they end.
pub open spec fn spec_metar_parts(s: Seq<char>) -> Option<(int, SpecMetarReport)> {
    match spec_head(s) {
        None => None,
        Some((p1, (identifier, observation_time, observation_validity_range, observation_flags))) => {
            let (p2, body) = spec_body(s, p1);
            let (p3, late) = spec_late(s, p2);
            let (p4, (pirep_remark, marked, maintenance_needed, unmarked)) = spec_tail(s, p3);
            let remark = match marked {
                Some(m) => m,
                None => unmarked,
            };
            Some((p4, SpecMetarReport {
                identifier,
                observation_time,
                observation_validity_range,
                observation_flags,
                wind: body.wind,
                visibility: body.visibility,
                runway_visibilities: somes(body.runway_visibilities) + somes(late.runway_visibilities)
                    + somes(late.runway_visibilities_after_reports),
                runway_reports: somes(late.runway_reports),
                weather: body.weather + late.weather,
                cloud_cover: somes(body.cloud_cover) + somes(late.cloud_cover) + somes(late.cloud_cover_after_recent),
                cavok: body.cavok,
                temperatures: first_temperatures(body.pre_temperatures, body.temperatures, late.temperatures, late.temperatures_after_recent),
                pressure: body.pressure,
                accumulated_rainfall: late.accumulated_rainfall,
                recent_weather: body.pre_recent_weather + late.recent_weather,
                color: late.color,
                water_conditions: late.water_conditions,
                trends: late.trends,
                remark: Some(remark),
                remarks: match spec_remarks(s.subrange(remark.start as int, remark.end as int)) {
                    Ok(r) => Some(r),
                    Err(_) => None,
                },
                pirep_remark,
                maintenance_needed,
            }))
        },
    }
}

/// Marks of the head of a report, up to the station identifier: only the
/// head can fail, and nothing after a failed station is tried.
pub open spec fn marks_head(s: Seq<char>) -> Marks {
    let m0 = marks_ws(s, 0, no_marks());
    let p0 = spec_ws(s, 0);
    let m1 = mark_if(m0, spec_report_name(s, p0) is None, p0, Token::ReportName);
    let p1 = match spec_report_name(s, p0) {
        Some(q) => q,
        None => p0,
    };
    let m2 = marks_ws(s, p1, m1);
    let p2 = spec_ws(s, p1);
    let m3 = marks_sep_list::<ObservationFlag>(s, p2, false, m2);
    let p3 = sep_list::<ObservationFlag>(s, p2, false).0;
    let m4 = marks_ws(s, p3, m3);
    let p4 = spec_ws(s, p3);
    mark_if(m4, spec_icao_identifier(s, p4) is None, p4, Token::IcaoIdentifier)
}

/// A report that makes up the whole input. A report that is not found is
/// also expected, as the empty token, at the start.
pub open spec fn spec_metar(s: Seq<char>) -> Result<SpecMetarReport, SpecParseError> {
    outcome(s, spec_metar_parts(s), mark(marks_head(s), 0, Token::Empty))
}

struct Body {
    wind: Option<Wind>,
    pre_temperatures: Option<Temperatures>,
    visibility: Option<Visibility>,
    runway_visibilities: Vec<Option<RunwayVisibility>>,
    pre_recent_weather: Vec<Weather>,
    weather: Vec<Weather>,
    cloud_cover: Vec<Option<CloudCover>>,
    cavok: bool,
    temperatures: Option<Temperatures>,
    pressure: Option<Pressure>,
}

impl View for Body {
    type V = SpecBody;

    closed spec fn view(&self) -> SpecBody {
        SpecBody {
            wind: self.wind,
            pre_temperatures: self.pre_temperatures,
            visibility: self.visibility,
            runway_visibilities: self.runway_visibilities@,
            pre_recent_weather: specs(self.pre_recent_weather@),
            weather: specs(self.weather@),
            cloud_cover: self.cloud_cover@,
            cavok: self.cavok,
            temperatures: self.temperatures,
            pressure: self.pressure,
        }
    }
}

struct Late {
    weather: Vec<Weather>,
    cloud_cover: Vec<Option<CloudCover>>,
    temperatures: Option<Temperatures>,
    accumulated_rainfall: Option<AccumulatedRainfall>,
    recent_weather: Vec<Weather>,
    cloud_cover_after_recent: Vec<Option<CloudCover>>,
    temperatures_after_recent: Option<Temperatures>,
    color: Option<Color>,
    runway_visibilities: Vec<Option<RunwayVisibility>>,
    runway_reports: Vec<Option<RunwayReport>>,
    runway_visibilities_after_reports: Vec<Option<RunwayVisibility>>,
    water_conditions: Option<WaterConditions>,
    trends: Vec<Trend>,
}

impl View for Late {
    type V = SpecLate;

    closed spec fn view(&self) -> SpecLate {
        SpecLate {
            weather: specs(self.weather@),
            cloud_cover: self.cloud_cover@,
            temperatures: self.temperatures,
            accumulated_rainfall: self.accumulated_rainfall,
            recent_weather: specs(self.recent_weather@),
            cloud_cover_after_recent: self.cloud_cover_after_recent@,
            temperatures_after_recent: self.temperatures_after_recent,
            color: self.color,
            runway_visibilities: self.runway_visibilities@,
            runway_reports: self.runway_reports@,
            runway_visibilities_after_reports: self.runway_visibilities_after_reports@,
            water_conditions: self.water_conditions,
            trends: specs(self.trends@),
        }
    }
}

fn empty_weather() -> (v: Vec<Weather>)
    ensures
        specs(v@) == Seq::<SpecWeather>::empty(),
{
    let v: Vec<Weather> = Vec::new();
    assert(specs(v@) =~= Seq::<SpecWeather>::empty());
    v
}

fn copy_list<T: Copy>(s: &Vec<char>, p: usize) -> (r: (usize, Vec<T>))
    where T: Element<Spec = T>
    requires
        p <= s.len(),
        forall|x: T| #[trigger] x.spec_of() == x,
    ensures
        (r.0 as int, r.1@) == sep_list::<T>(s@, p as int, false),
        p <= r.0 <= s.len(),
{
    let (q, v) = parse_sep_list::<T>(s, p, false);
    assert(specs(v@) =~= v@);
    (q, v)
}

fn head_marks(s: &Vec<char>) -> (tr: Tracker)
    ensures
        tr@ == marks_head(s@),
{
    let mut tr = Tracker::new();
    ws_marks(s, 0, &mut tr);
    let p0 = ws(s, 0);
    let name = report_name_at(s, p0);
    tr.mark_if(name.is_none(), p0, Token::ReportName);
    let p1 = match name {
        Some(q) => q,
        None => p0,
    };
    ws_marks(s, p1, &mut tr);
    let p2 = ws(s, p1);
    sep_list_marks::<ObservationFlag>(s, p2, false, &mut tr);
    let (p3, _) = copy_list::<ObservationFlag>(s, p2);
    ws_marks(s, p3, &mut tr);
    let p4 = ws(s, p3);
    let id = icao_identifier_at(s, p4);
    tr.mark_if(id.is_none(), p4, Token::IcaoIdentifier);
    tr
}

fn head_at(s: &Vec<char>) -> (r: Option<(usize, (Span, Option<DateTime>, Option<TimeRange>, Vec<ObservationFlag>))>)
    ensures
        match r {
            Some((q, (a, b, c, d))) => spec_head(s@) == Some((q as int, (a, b, c, d@))) && q <= s.len(),
            None => spec_head(s@) is None,
        },
{
    reveal(spec_head);
    let p0 = ws(s, 0);
    let p1 = match report_name_at(s, p0) {
        Some(q) => q,
        None => p0,
    };
    let p2 = ws(s, p1);
    let (p3, mut pre_flags) = copy_list::<ObservationFlag>(s, p2);
    let p4 = ws(s, p3);
    let (p5, identifier) = icao_identifier_at(s, p4)?;
    let p6 = ws(s, p5);
    let (p7, observation_time) = match observation_time_at(s, p6) {
        Some((q, v)) => (q, Some(v)),
        None => (p6, None),
    };
    let p8 = ws(s, p7);
    let (p9, validity) = match validity_range_at(s, p8) {
        Some((q, v)) => (q, Some(v)),
        None => (p8, None),
    };
    let p10 = ws(s, p9);
    let p11 = match report_name_at(s, p10) {
        Some(q) => q,
        None => p10,
    };
    let p12 = ws(s, p11);
    let (p13, mut flags) = copy_list::<ObservationFlag>(s, p12);
    let p14 = ws(s, p13);
    pre_flags.append(&mut flags);
    Some((p14, (identifier, observation_time, validity, pre_flags)))
}

fn body_at(s: &Vec<char>, p: usize) -> (r: (usize, Body))
    requires
        p <= s.len(),
    ensures
        (r.0 as int, r.1@) == spec_body(s@, p as int),
        p <= r.0 <= s.len(),
{
    reveal(spec_body);
    let (p1, wind) = match wind_at(s, p) {
        Some((q, v)) => (q, v),
        None => (p, None),
    };
    let p2 = ws(s, p1);
    let (p3, pre_temperatures) = match temperatures_at(s, p2) {
        Some((q, v)) => (q, v),
        None => (p2, None),
    };
    let p4 = ws(s, p3);
    let (p5, visibility) = match visibility_at(s, p4) {
        Some((q, v)) => (q, v),
        None => (p4, None),
    };
    let p6 = ws(s, p5);
    let (p7, runway_visibilities) = copy_list::<Option<RunwayVisibility>>(s, p6);
    let p8 = ws(s, p7);
    let (p9, pre_recent_weather) = match recent_weather_sequence_at(s, p8) {
        Some((q, v)) => (q, v),
        None => (p8, empty_weather()),
    };
    let p10 = ws(s, p9);
    let (p11, weather) = match weather_sequence_at(s, p10) {
        Some((q, v)) => (q, v),
        None => (p10, empty_weather()),
    };
    let p12 = ws(s, p11);
    let (p13, cloud_cover) = copy_list::<Option<CloudCover>>(s, p12);
    let p14 = ws(s, p13);
    let (p15, cavok) = match crate::lex::lit(s, p14, &['C', 'A', 'V', 'O', 'K']) {
        Some(q) => (ws(s, q), true),
        None => (p14, false),
    };
    let (p16, temperatures) = match temperatures_at(s, p15) {
        Some((q, v)) => (q, v),
        None => (p15, None),
    };
    let p17 = ws(s, p16);
    let (p18, pressure) = match crate::measure::pressure_at(s, p17) {
        Some((q, v)) => (q, v),
        None => (p17, None),
    };
    let p19 = ws(s, p18);
    let (p20, _more) = copy_list::<Option<Pressure>>(s, p19);
    let p21 = ws(s, p20);
    (p21, Body {
        wind,
        pre_temperatures,
        visibility,
        runway_visibilities,
        pre_recent_weather,
        weather,
        cloud_cover,
        cavok,
        temperatures,
        pressure,
    })
}

fn late_at(s: &Vec<char>, p: usize) -> (r: (usize, Late))
    requires
        p <= s.len(),
    ensures
        (r.0 as int, r.1@) == spec_late(s@, p as int),
        p <= r.0 <= s.len(),
{
    reveal(spec_late);
    let (p1, weather) = match weather_sequence_at(s, p) {
        Some((q, v)) => (q, v),
        None => (p, empty_weather()),
    };
    let p2 = ws(s, p1);
    let (p3, cloud_cover) = copy_list::<Option<CloudCover>>(s, p2);
    let p4 = ws(s, p3);
    let (p5, temperatures) = match temperatures_at(s, p4) {
        Some((q, v)) => (q, v),
        None => (p4, None),
    };
    let p6 = ws(s, p5);
    let (p7, accumulated_rainfall) = match accumulated_rainfall_at(s, p6) {
        Some((q, v)) => (q, Some(v)),
        None => (p6, None),
    };
    let p8 = ws(s, p7);
    let (p9, recent_weather) = match recent_weather_sequence_at(s, p8) {
        Some((q, v)) => (q, v),
        None => (p8, empty_weather()),
    };
    let p10 = ws(s, p9);
    let (p11, cloud_cover_after_recent) = copy_list::<Option<CloudCover>>(s, p10);
    let p12 = ws(s, p11);
    let (p13, temperatures_after_recent) = match temperatures_at(s, p12) {
        Some((q, v)) => (q, v),
        None => (p12, None),
    };
    let p14 = ws(s, p13);
    let (p15, color) = match color_at(s, p14) {
        Some((q, v)) => (q, Some(v)),
        None => (p14, None),
    };
    let p16 = ws(s, p15);
    let (p17, runway_visibilities) = copy_list::<Option<RunwayVisibility>>(s, p16);
    let p18 = ws(s, p17);
    let (p19, runway_reports) = copy_list::<Option<RunwayReport>>(s, p18);
    let p20 = ws(s, p19);
    let (p21, runway_visibilities_after_reports) = copy_list::<Option<RunwayVisibility>>(s, p20);
    let p22 = ws(s, p21);
    let (p23, water_conditions) = match water_conditions_at(s, p22) {
        Some((q, v)) => (q, Some(v)),
        None => (p22, None),
    };
    let p24 = ws(s, p23);
    let (p25, trends) = parse_sep_list::<Trend>(s, p24, false);
    let p26 = ws(s, p25);
    (p26, Late {
        weather,
        cloud_cover,
        temperatures,
        accumulated_rainfall,
        recent_weather,
        cloud_cover_after_recent,
        temperatures_after_recent,
        color,
        runway_visibilities,
        runway_reports,
        runway_visibilities_after_reports,
        water_conditions,
        trends,
    })
}

fn remark_text_at(s: &Vec<char>, p: usize) -> (r: Option<(usize, Span)>)
    requires
        p <= s.len(),
    ensures
        res_of(r) == spec_remark_text(s@, p as int),
        r matches Some((q, sp)) ==> p < q <= s.len() && sp.start == p && sp.end == q,
{
    let q = crate::remarks::remark_prefix_at(s, p)?;
    let r = scan_class(s, q, Class::NotDollar);
    Some((r, Span { start: p, end: r }))
}

fn pirep_remark_at(s: &Vec<char>, p: usize) -> (r: Option<(usize, Span)>)
    requires
        p <= s.len(),
    ensures
        res_of(r) == spec_pirep_remark(s@, p as int),
        r matches Some((q, _)) ==> p < q <= s.len(),
{
    crate::lex::lit(s, p, &['R', 'M'])?;
    let q = required_ws(s, p + 2)?;
    let r = scan_class(s, q, Class::NotDollar);
    if remark_text_at(s, r).is_none() {
        Some((r, Span { start: p, end: r }))
    } else {
        None
    }
}

fn tail_at(s: &Vec<char>, p: usize) -> (r: (usize, (Option<Span>, Option<Span>, bool, Span)))
    requires
        p <= s.len(),
    ensures
        (r.0 as int, r.1) == spec_tail(s@, p as int),
        r.0 == s.len(),
        (r.1).1 matches Some(m) ==> m.start <= m.end <= s.len(),
        (r.1).3.start <= (r.1).3.end <= s.len(),
{
    let (p1, pirep) = match pirep_remark_at(s, p) {
        Some((q, v)) => (q, Some(v)),
        None => (p, None),
    };
    let (p2, remark) = match remark_text_at(s, p1) {
        Some((q, v)) => (q, Some(v)),
        None => (p1, None),
    };
    let (p3, maintenance) = if is_at(s, p2, '$') {
        (p2 + 1, true)
    } else {
        (p2, false)
    };
    let p4 = ws(s, p3);
    let p5 = scan_class(s, p4, Class::Slash);
    let p6 = ws(s, p5);
    let p7 = scan_class(s, p6, Class::NotEquals);
    proof {
        crate::lex::lemma_scan(s@, p6 as int, Class::NotEquals);
    }
    let p8 = if is_at(s, p7, '=') {
        let e = scan_class(s, p7 + 1, Class::Any);
        proof {
            crate::lex::lemma_scan(s@, p7 + 1, Class::Any);
        }
        e
    } else {
        p7
    };
    assert(p8 == s.len());
    let p9 = ws(s, p8);
    (p9, (pirep, remark, maintenance, Span { start: p6, end: p7 }))
}

/// Appends the present entries of `b` and `c` to `a`: the entries of three
/// lists of optional groups, in order.
fn present<T: Copy>(a: &Vec<Option<T>>, b: &Vec<Option<T>>, c: &Vec<Option<T>>) -> (r: Vec<T>)
    ensures
        r@ == somes(a@) + somes(b@) + somes(c@),
{
    let mut out: Vec<T> = Vec::new();
    push_somes(&mut out, a);
    push_somes(&mut out, b);
    push_somes(&mut out, c);
    assert(out@ =~= somes(a@) + somes(b@) + somes(c@));
    out
}

fn first_of(a: Option<Temperatures>, b: Option<Temperatures>, c: Option<Temperatures>, d: Option<Temperatures>) -> (r: Option<Temperatures>)
    ensures
        r == first_temperatures(a, b, c, d),
{
    if a.is_some() {
        a
    } else if b.is_some() {
        b
    } else if c.is_some() {
        c
    } else {
        d
    }
}

fn concat_weather(a: Vec<Weather>, b: Vec<Weather>) -> (r: Vec<Weather>)
    ensures
        specs(r@) == specs(a@) + specs(b@),
{
    let mut a = a;
    let mut b = b;
    let ghost a0 = a@;
    let ghost b0 = b@;
    a.append(&mut b);
    assert(specs(a@) =~= specs(a0) + specs(b0));
    a
}

/// Parses a METAR report that makes up the whole input.
///
/// Trailing garbage is consumed rather than refused: the report is accepted
/// exactly when its head (up to the station identifier) is found.
pub fn metar(input: &str) -> (r: Result<MetarReport, ParseError>)
    ensures
        match r {
            Ok(v) => spec_metar(input@) == Ok::<SpecMetarReport, SpecParseError>(v@),
            Err(e) => spec_metar(input@) == Err::<SpecMetarReport, SpecParseError>(e@),
        },
        (r is Ok) == (spec_head(input@) is Some),
{
    let s = to_chars(input);
    let (p1, (identifier, observation_time, observation_validity_range, observation_flags)) = match head_at(&s) {
        Some(h) => h,
        None => {
            let mut tr = head_marks(&s);
            tr.mark(0, Token::Empty);
            return Err(refusal(input, &s, &tr));
        },
    };
    let (p2, body) = body_at(&s, p1);
    let (p3, late) = late_at(&s, p2);
    let (p4, (pirep_remark, marked, maintenance_needed, unmarked)) = tail_at(&s, p3);
    let remark = match marked {
        Some(m) => m,
        None => unmarked,
    };
    let text = input.substring_char(remark.start, remark.end);
    let remarks = match remarks(text) {
        Ok(r) => Some(r),
        Err(_) => None,
    };
    let runway_visibilities = present(&body.runway_visibilities, &late.runway_visibilities, &late.runway_visibilities_after_reports);
    let mut runway_reports: Vec<RunwayReport> = Vec::new();
    push_somes(&mut runway_reports, &late.runway_reports);
    let cloud_cover = present(&body.cloud_cover, &late.cloud_cover, &late.cloud_cover_after_recent);
    let temperatures = first_of(body.pre_temperatures, body.temperatures, late.temperatures, late.temperatures_after_recent);
    let Body { wind, visibility, weather, pre_recent_weather, cavok, pressure, .. } = body;
    let Late { weather: late_weather, recent_weather, accumulated_rainfall, color, water_conditions, trends, .. } = late;
    let weather = concat_weather(weather, late_weather);
    let recent_weather = concat_weather(pre_recent_weather, recent_weather);
    let report = MetarReport {
        identifier,
        observation_time,
        observation_validity_range,
        observation_flags,
        wind,
        visibility,
        runway_visibilities,
        runway_reports,
        weather,
        cloud_cover,
        cavok,
        temperatures,
        pressure,
        accumulated_rainfall,
        recent_weather,
        color,
        water_conditions,
        trends,
        remark: Some(remark),
        remarks,
        pirep_remark,
        maintenance_needed,
    };
    Ok(report)
}

} // verus!
