//! Trend forecasts appended to a report.

use vstd::prelude::*;
use crate::cloud::CloudCover;
use crate::conditions::{color_state_at, spec_color_state, ColorState};
use crate::header::{military_time_at, spec_military_time, MilitaryTime};
use crate::lex::{lit, res_of, spec_lit};
use crate::list::{parse_sep_list, push_somes, sep_list, somes, specs, Element};
use crate::visibility::{spec_visibility, visibility_at, Visibility};
use crate::weather::{spec_weather_sequence, weather_sequence_at, SpecWeather, Weather};
use crate::wind::{spec_wind, wind_at, Wind};
use crate::ws::{spec_ws, ws};

verus! {

/// When a forecast change happens.
#[derive(Clone, Copy, PartialEq, Eq, Debug)]
pub enum TrendTime {
    /// `FMhhmm TLhhmm`
    Range { from: MilitaryTime, until: MilitaryTime },
    /// `FMhhmm`
    From(MilitaryTime),
    /// `AThhmm`
    At(MilitaryTime),
    /// `TLhhmm`
    Until(MilitaryTime),
}

/// The conditions that a trend forecasts.
#[derive(Debug)]
pub struct TrendReport {
    pub time: Option<TrendTime>,
    pub wind: Option<Wind>,
    pub visibility: Option<Visibility>,
    pub weather: Vec<Weather>,
    pub cloud_cover: Vec<CloudCover>,
    pub color_state: Option<ColorState>,
}

#[derive(Debug)]
pub enum Trend {
    /// `NOSIG` and its common misspellings.
    NoSignificantChange,
    /// `BECMG`
    Becoming(TrendReport),
    /// `TEMPO`
    Temporarily(TrendReport),
}

pub struct SpecTrendReport {
    pub time: Option<TrendTime>,
    pub wind: Option<Wind>,
    pub visibility: Option<Visibility>,
    pub weather: Seq<SpecWeather>,
    pub cloud_cover: Seq<CloudCover>,
    pub color_state: Option<ColorState>,
}

pub enum SpecTrend {
    NoSignificantChange,
    Becoming(SpecTrendReport),
    Temporarily(SpecTrendReport),
}

impl View for TrendReport {
    type V = SpecTrendReport;

    open spec fn view(&self) -> SpecTrendReport {
        SpecTrendReport {
            time: self.time,
            wind: self.wind,
            visibility: self.visibility,
            weather: specs(self.weather@),
            cloud_cover: self.cloud_cover@,
            color_state: self.color_state,
        }
    }
}

impl View for Trend {
    type V = SpecTrend;

    open spec fn view(&self) -> SpecTrend {
        match self {
            Trend::NoSignificantChange => SpecTrend::NoSignificantChange,
            Trend::Becoming(r) => SpecTrend::Becoming(r@),
            Trend::Temporarily(r) => SpecTrend::Temporarily(r@),
        }
    }
}

/// `NOSIG` or one of its misspellings found in reports.
pub open spec fn spec_no_significant_change(s: Seq<char>, p: int) -> Option<int> {
    if let Some(q) = spec_lit(s, p, seq!['N', 'O', 'S', 'I', 'G']) {
        Some(q)
    } else if let Some(q) = spec_lit(s, p, seq!['N', 'O', 'I', 'S', 'I', 'G']) {
        Some(q)
    } else if let Some(q) = spec_lit(s, p, seq!['N', 'S', 'O', 'I', 'G']) {
        Some(q)
    } else if let Some(q) = spec_lit(s, p, seq!['N', '0', 'S', 'I', 'G']) {
        Some(q)
    } else if let Some(q) = spec_lit(s, p, seq!['N', 'O', 'S', '1', '6']) {
        Some(q)
    } else if let Some(q) = spec_lit(s, p, seq!['N', 'O', 'S', 'I', 'N', 'G']) {
        Some(q)
    } else if let Some(q) = spec_lit(s, p, seq!['N', 'O', 'S', 'G']) {
        Some(q)
    } else if let Some(q) = spec_lit(s, p, seq!['N', 'S', 'G']) {
        Some(q)
    } else if let Some(q) = spec_lit(s, p, seq!['N', 'O', 'S', 'I', 'C']) {
        Some(q)
    } else {
        spec_lit(s, p, seq!['N', 'O', 'S', 'I', 'G', 'I'])
    }
}

/// `FM time ws TL time`, `FM time`, `AT time` or `TL time`.
pub open spec fn spec_trend_time(s: Seq<char>, p: int) -> Option<(int, TrendTime)> {
    let range = if spec_lit(s, p, seq!['F', 'M']) is Some {
        match spec_military_time(s, p + 2) {
            Some((q1, from)) => {
                let p2 = spec_ws(s, q1);
                if spec_lit(s, p2, seq!['T', 'L']) is Some {
                    match spec_military_time(s, p2 + 2) {
                        Some((q2, until)) => Some((q2, TrendTime::Range { from, until })),
                        None => None,
                    }
                } else {
                    None
                }
            },
            None => None,
        }
    } else {
        None
    };
    match range {
        Some(r) => Some(r),
        None => if spec_lit(s, p, seq!['F', 'M']) is Some && spec_military_time(s, p + 2) is Some {
            match spec_military_time(s, p + 2) {
                Some((q, t)) => Some((q, TrendTime::From(t))),
                None => None,
            }
        } else if spec_lit(s, p, seq!['A', 'T']) is Some && spec_military_time(s, p + 2) is Some {
            match spec_military_time(s, p + 2) {
                Some((q, t)) => Some((q, TrendTime::At(t))),
                None => None,
            }
        } else if spec_lit(s, p, seq!['T', 'L']) is Some && spec_military_time(s, p + 2) is Some {
            match spec_military_time(s, p + 2) {
                Some((q, t)) => Some((q, TrendTime::Until(t))),
                None => None,
            }
        } else {
            None
        },
    }
}

/// What follows `BECMG` or `TEMPO`: optional time, wind, visibility, weather,
/// `NSW`, cloud layers and color state, separated by optional whitespace.
#[verifier::opaque]
pub open spec fn spec_trend_report(s: Seq<char>, p: int) -> (int, SpecTrendReport) {
    let p1 = spec_ws(s, p);
    let (p2, time) = match spec_trend_time(s, p1) {
        Some((q, t)) => (q, Some(t)),
        None => (p1, None),
    };
    let p3 = spec_ws(s, p2);
    let (p4, wind) = match spec_wind(s, p3) {
        Some((q, w)) => (q, w),
        None => (p3, None),
    };
    let p5 = spec_ws(s, p4);
    let (p6, visibility) = match spec_visibility(s, p5) {
        Some((q, v)) => (q, v),
        None => (p5, None),
    };
    let p7 = spec_ws(s, p6);
    let (p8, weather) = match spec_weather_sequence(s, p7) {
        Some((q, w)) => (q, w),
        None => (p7, seq![]),
    };
    let p9 = spec_ws(s, p8);
    let p10 = match spec_lit(s, p9, seq!['N', 'S', 'W']) {
        Some(q) => q,
        None => p9,
    };
    let p11 = spec_ws(s, p10);
    let (p12, clouds) = sep_list::<Option<CloudCover>>(s, p11, false);
    let p13 = spec_ws(s, p12);
    let (p14, color_state) = match spec_color_state(s, p13) {
        Some((q, c)) => (q, Some(c)),
        None => (p13, None),
    };
    let p15 = spec_ws(s, p14);
    (p15, SpecTrendReport { time, wind, visibility, weather, cloud_cover: somes(clouds), color_state })
}

/// A trend: no significant change, or a change that is becoming or temporary.
pub open spec fn spec_trend(s: Seq<char>, p: int) -> Option<(int, SpecTrend)> {
    if let Some(q) = spec_no_significant_change(s, p) {
        Some((q, SpecTrend::NoSignificantChange))
    } else if let Some(q) = spec_lit(s, p, seq!['B', 'E', 'C', 'M', 'G']) {
        let (r, report) = spec_trend_report(s, q);
        Some((r, SpecTrend::Becoming(report)))
    } else if let Some(q) = spec_lit(s, p, seq!['T', 'E', 'M', 'P', 'O']) {
        let (r, report) = spec_trend_report(s, q);
        Some((r, SpecTrend::Temporarily(report)))
    } else {
        None
    }
}

fn no_significant_change_at(s: &Vec<char>, p: usize) -> (r: Option<usize>)
    requires
        p <= s.len(),
    ensures
        match r {
            Some(q) => spec_no_significant_change(s@, p as int) == Some(q as int) && p < q <= s.len(),
            None => spec_no_significant_change(s@, p as int) is None,
        },
{
    if let Some(q) = lit(s, p, &['N', 'O', 'S', 'I', 'G']) {
        Some(q)
    } else if let Some(q) = lit(s, p, &['N', 'O', 'I', 'S', 'I', 'G']) {
        Some(q)
    } else if let Some(q) = lit(s, p, &['N', 'S', 'O', 'I', 'G']) {
        Some(q)
    } else if let Some(q) = lit(s, p, &['N', '0', 'S', 'I', 'G']) {
        Some(q)
    } else if let Some(q) = lit(s, p, &['N', 'O', 'S', '1', '6']) {
        Some(q)
    } else if let Some(q) = lit(s, p, &['N', 'O', 'S', 'I', 'N', 'G']) {
        Some(q)
    } else if let Some(q) = lit(s, p, &['N', 'O', 'S', 'G']) {
        Some(q)
    } else if let Some(q) = lit(s, p, &['N', 'S', 'G']) {
        Some(q)
    } else if let Some(q) = lit(s, p, &['N', 'O', 'S', 'I', 'C']) {
        Some(q)
    } else {
        lit(s, p, &['N', 'O', 'S', 'I', 'G', 'I'])
    }
}

fn trend_time_at(s: &Vec<char>, p: usize) -> (r: Option<(usize, TrendTime)>)
    requires
        p <= s.len(),
    ensures
        res_of(r) == spec_trend_time(s@, p as int),
        r matches Some((q, _)) ==> p < q <= s.len(),
{
    if lit(s, p, &['F', 'M']).is_some() {
        if let Some((q1, from)) = military_time_at(s, p + 2) {
            let p2 = ws(s, q1);
            if lit(s, p2, &['T', 'L']).is_some() {
                if let Some((q2, until)) = military_time_at(s, p2 + 2) {
                    return Some((q2, TrendTime::Range { from, until }));
                }
            }
            return Some((q1, TrendTime::From(from)));
        }
        return None;
    }
    if lit(s, p, &['A', 'T']).is_some() {
        if let Some((q, t)) = military_time_at(s, p + 2) {
            return Some((q, TrendTime::At(t)));
        }
        return None;
    }
    if lit(s, p, &['T', 'L']).is_some() {
        if let Some((q, t)) = military_time_at(s, p + 2) {
            return Some((q, TrendTime::Until(t)));
        }
    }
    None
}

fn trend_report_at(s: &Vec<char>, p: usize) -> (r: (usize, TrendReport))
    requires
        p <= s.len(),
    ensures
        (r.0 as int, r.1@) == spec_trend_report(s@, p as int),
        p <= r.0 <= s.len(),
{
    reveal(spec_trend_report);
    let p1 = ws(s, p);
    let (p2, time) = match trend_time_at(s, p1) {
        Some((q, t)) => (q, Some(t)),
        None => (p1, None),
    };
    let p3 = ws(s, p2);
    let (p4, wind) = match wind_at(s, p3) {
        Some((q, w)) => (q, w),
        None => (p3, None),
    };
    let p5 = ws(s, p4);
    let (p6, visibility) = match visibility_at(s, p5) {
        Some((q, v)) => (q, v),
        None => (p5, None),
    };
    let p7 = ws(s, p6);
    let (p8, weather) = match weather_sequence_at(s, p7) {
        Some((q, w)) => (q, w),
        None => {
            let v: Vec<Weather> = Vec::new();
            assert(specs(v@) =~= Seq::<SpecWeather>::empty());
            (p7, v)
        },
    };
    let p9 = ws(s, p8);
    let p10 = match lit(s, p9, &['N', 'S', 'W']) {
        Some(q) => q,
        None => p9,
    };
    let p11 = ws(s, p10);
    let (p12, clouds) = parse_sep_list::<Option<CloudCover>>(s, p11, false);
    let mut cloud_cover: Vec<CloudCover> = Vec::new();
    push_somes(&mut cloud_cover, &clouds);
    assert(specs(clouds@) =~= clouds@);
    assert(cloud_cover@ =~= somes(clouds@));
    let p13 = ws(s, p12);
    let (p14, color_state) = match color_state_at(s, p13) {
        Some((q, c)) => (q, Some(c)),
        None => (p13, None),
    };
    let p15 = ws(s, p14);
    (p15, TrendReport { time, wind, visibility, weather, cloud_cover, color_state })
}

pub fn trend_at(s: &Vec<char>, p: usize) -> (r: Option<(usize, Trend)>)
    requires
        p <= s.len(),
    ensures
        match r {
            Some((q, v)) => spec_trend(s@, p as int) == Some((q as int, v@)) && p < q <= s.len(),
            None => spec_trend(s@, p as int) is None,
        },
{
    if let Some(q) = no_significant_change_at(s, p) {
        Some((q, Trend::NoSignificantChange))
    } else if let Some(q) = lit(s, p, &['B', 'E', 'C', 'M', 'G']) {
        let (r, report) = trend_report_at(s, q);
        Some((r, Trend::Becoming(report)))
    } else if let Some(q) = lit(s, p, &['T', 'E', 'M', 'P', 'O']) {
        let (r, report) = trend_report_at(s, q);
        Some((r, Trend::Temporarily(report)))
    } else {
        None
    }
}

impl Element for Trend {
    type Spec = SpecTrend;

    open spec fn spec_of(&self) -> SpecTrend {
        self@
    }

    open spec fn spec_parse(s: Seq<char>, p: int) -> Option<(int, SpecTrend)> {
        spec_trend(s, p)
    }

    fn parse(s: &Vec<char>, p: usize) -> (r: Option<(usize, Trend)>) {
        trend_at(s, p)
    }
}

} // verus!
