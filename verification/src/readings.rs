//! What the parsed groups stand for, in terms of the text they were read
//! from: each code gives its own value, units follow the unit written in the
//! group, fractions keep their numerator before the `/`, and a whole report
//! gathers every occurrence of a repeated group.

use vstd::prelude::*;
use crate::cloud::{spec_cloud_cover, spec_cloud_coverage, spec_cloud_type, CloudCoverage, CloudType};
use crate::conditions::{spec_color_state, ColorState};
use crate::header::{spec_observation_flag, ObservationFlag};
use crate::measure::{decimal_above, digits_value, spec_pressure, spec_pressure_unit, spec_temperatures, PressureUnit};
use crate::weather::{
    spec_descriptor, spec_intensity, spec_obscuration, spec_other, spec_precipitation, spec_precipitations,
    spec_weather, Descriptor, Intensity, Obscuration, OtherPhenomenon, Precipitation, SpecCondition,
};
use crate::lex::{at, digit_value, is_digit, is_letter, lemma_scan, scan, spec_lit, Class, Span};
use crate::metar::{spec_body, spec_head, spec_late, spec_metar, spec_metar_parts};
use crate::list::somes;
use crate::runway::{spec_bound, spec_runway_head, spec_runway_report, spec_runway_visibility, VisibilityType};
use crate::trend::{spec_no_significant_change, spec_trend, spec_trend_time, TrendTime};
use crate::visibility::{spec_compass, spec_raw_visibility, spec_visibility_unit, CompassDirection, LengthUnit, Magnitude};
use crate::wind::{spec_gust, spec_speed, spec_speed_unit, spec_wind, SpeedUnit};

verus! {

/// The text `l` is written at `p`.
pub open spec fn written(s: Seq<char>, p: int, l: Seq<char>) -> bool {
    spec_lit(s, p, l) is Some
}

/// A text written at `p` also has each of its prefixes written there.
proof fn lemma_written_prefix(s: Seq<char>, p: int, l: Seq<char>, k: int)
    requires
        written(s, p, l),
        0 <= k <= l.len(),
    ensures
        written(s, p, l.subrange(0, k)),
{
    assert(s.subrange(p, p + k) =~= s.subrange(p, p + l.len()).subrange(0, k));
}

/// The code written for each cloud coverage.
pub open spec fn coverage_written(s: Seq<char>, p: int, c: CloudCoverage) -> bool {
    match c {
        CloudCoverage::SkyClear => written(s, p, seq!['S', 'K', 'C']),
        CloudCoverage::Clear => written(s, p, seq!['C', 'L', 'R']),
        CloudCoverage::NoCloudDetected => written(s, p, seq!['N', 'C', 'D']),
        CloudCoverage::NoSignificantCloud => written(s, p, seq!['N', 'S', 'C']),
        CloudCoverage::Few => written(s, p, seq!['F', 'E', 'W']) || written(s, p, seq!['F', 'W']),
        CloudCoverage::Scattered => written(s, p, seq!['S', 'C']),
        CloudCoverage::Broken => written(s, p, seq!['B', 'K', 'N']),
        CloudCoverage::Overcast => written(s, p, seq!['O', 'V', 'C']),
        CloudCoverage::VerticalVisibility => written(s, p, seq!['V', 'V']),
    }
}

/// A cloud layer's coverage is the one whose code starts the layer: `FEW` or
/// `FW` give few clouds, `SCT` or `SC` scattered ones, and so on; the codes
/// exclude each other, so each gives its own coverage.
pub proof fn lemma_cloud_coverage_is_written(s: Seq<char>, p: int)
    ensures
        spec_cloud_cover(s, p) matches Some((_, Some(c))) ==> coverage_written(s, p, c.coverage),
{
    if let Some((q, c)) = spec_cloud_coverage(s, p) {
        if c == CloudCoverage::Scattered && written(s, p, seq!['S', 'C', 'T']) {
            lemma_written_prefix(s, p, seq!['S', 'C', 'T'], 2);
            assert(seq!['S', 'C', 'T'].subrange(0, 2) =~= seq!['S', 'C']);
        }
    }
}

/// The code written for each speed unit.
pub open spec fn unit_written(s: Seq<char>, p: int, u: SpeedUnit) -> bool {
    match u {
        SpeedUnit::MetersPerSecond => written(s, p, seq!['M', 'P', 'S']),
        SpeedUnit::Knots => written(s, p, seq!['K', 'T']),
        SpeedUnit::KilometersPerHour => written(s, p, seq!['K', 'M', 'H']),
    }
}

proof fn lemma_speed_unit_written(s: Seq<char>, p: int)
    ensures
        spec_speed_unit(s, p) matches Some((_, u)) ==> unit_written(s, p, u),
{
    if written(s, p, seq!['K', 'T', 'M']) {
        lemma_written_prefix(s, p, seq!['K', 'T', 'M'], 2);
        assert(seq!['K', 'T', 'M'].subrange(0, 2) =~= seq!['K', 'T']);
    }
    if written(s, p, seq!['K', 'T', 'S']) {
        lemma_written_prefix(s, p, seq!['K', 'T', 'S'], 2);
        assert(seq!['K', 'T', 'S'].subrange(0, 2) =~= seq!['K', 'T']);
    }
}

/// Where the digits of a speed end.
pub open spec fn digits_end(d: crate::lex::Decimal) -> int {
    match d.fraction {
        Some(f) => f.end as int,
        None => d.whole.end as int,
    }
}

/// In a wind group the gust and the mean speed are in the same unit, the one
/// written right after the last speed given: after the gust's digits when
/// there is a gust; otherwise after the speed's digits, or after an unknown
/// gust `G//` that follows them.
pub proof fn lemma_wind_units_are_written(s: Seq<char>, p: int)
    requires
        0 <= p <= s.len() <= usize::MAX,
    ensures
        spec_wind(s, p) matches Some((_, Some(w))) ==> {
            &&& (w.peak_gust matches Some(g) ==> unit_written(s, g.value.whole.end as int, g.unit))
            &&& (w.speed matches Some(v) ==> (w.peak_gust matches Some(g) ==> v.unit == g.unit))
            &&& (w.peak_gust is None ==> (w.speed matches Some(v) ==> {
                let e = digits_end(v.value);
                ||| unit_written(s, e, v.unit)
                ||| (written(s, e, seq!['G', '/', '/']) && unit_written(s, e + 3, v.unit))
            }))
        },
{
    let p1 = crate::wind::spec_direction(s, p).0;
    assert(p <= p1 <= s.len());
    let (p2, speed) = spec_speed(s, p1);
    lemma_scan(s, p1, Class::Digit);
    let q = scan(s, p1, Class::Digit);
    if q < s.len() {
        lemma_scan(s, q + 1, Class::Digit);
    }
    assert(p1 <= p2 <= s.len());
    if let Some(d) = speed {
        assert(digits_end(d) == p2);
    }
    let (p3, gust) = spec_gust(s, p2);
    if p2 < s.len() {
        lemma_scan(s, p2 + 1, Class::Digit);
    }
    if let Some(g) = gust {
        assert(g.whole.end as int == p3);
    } else {
        assert(p3 == p2 || (written(s, p2, seq!['G', '/', '/']) && p3 == p2 + 3)) by {
            if at(s, p2, 'G') && spec_lit(s, p2 + 1, seq!['/', '/']) is Some {
                assert(s.subrange(p2, p2 + 3) =~= seq!['G', '/', '/']);
            }
        }
    }
    lemma_speed_unit_written(s, p3);
}

/// A trend is a lasting change (`Becoming`) exactly when it starts with
/// `BECMG`, a temporary one exactly when it starts with `TEMPO`, and no
/// significant change when it starts with `N` (`NOSIG` and its variants).
pub proof fn lemma_trend_kind_is_written(s: Seq<char>, p: int)
    ensures
        spec_trend(s, p) matches Some((_, t)) ==> {
            &&& (t is Becoming <==> written(s, p, seq!['B', 'E', 'C', 'M', 'G']))
            &&& (t is Temporarily <==> written(s, p, seq!['T', 'E', 'M', 'P', 'O']))
            &&& (t is NoSignificantChange ==> at(s, p, 'N'))
        },
{
    if written(s, p, seq!['B', 'E', 'C', 'M', 'G']) {
        assert(s.subrange(p, p + 5)[0] == 'B');
    }
    if written(s, p, seq!['T', 'E', 'M', 'P', 'O']) {
        assert(s.subrange(p, p + 5)[0] == 'T');
    }
    if spec_no_significant_change(s, p) is Some {
        assert(s.subrange(p, p + 3)[0] == 'N' || s.subrange(p, p + 4)[0] == 'N' || s.subrange(p, p + 5)[0] == 'N'
            || s.subrange(p, p + 6)[0] == 'N');
    }
}

/// `[a, b)` is a non-empty run of digits that ends where the digits end.
pub open spec fn digit_run(s: Seq<char>, sp: Span) -> bool {
    &&& sp.start < sp.end
    &&& forall|i: int| sp.start <= i < sp.end ==> is_digit(#[trigger] s[i])
    &&& !(sp.end < s.len() && is_digit(s[sp.end as int]))
}

/// A fraction `a/b` is read with `a`, the digits before the `/`, as the
/// numerator and `b`, the digits after it, as the denominator; in a mixed
/// number the whole part comes before both.
pub proof fn lemma_fraction_is_written(s: Seq<char>, p: int)
    requires
        0 <= p <= s.len() <= usize::MAX,
    ensures
        spec_raw_visibility(s, p) matches Some((_, v)) ==> match v.value {
            Magnitude::Fraction { numerator, denominator } => {
                &&& digit_run(s, numerator)
                &&& at(s, numerator.end as int, '/')
                &&& denominator.start == numerator.end + 1
                &&& digit_run(s, denominator)
            },
            Magnitude::Mixed { whole, numerator, denominator } => {
                &&& digit_run(s, whole)
                &&& whole.end <= numerator.start
                &&& digit_run(s, numerator)
                &&& at(s, numerator.end as int, '/')
                &&& denominator.start == numerator.end + 1
                &&& digit_run(s, denominator)
            },
            Magnitude::Whole(w) => digit_run(s, w),
        },
{
    let p1 = crate::visibility::spec_out_of_range(s, p).0;
    lemma_scan(s, p1, Class::Digit);
    let q1 = scan(s, p1, Class::Digit);
    if q1 < s.len() {
        lemma_scan(s, q1 + 1, Class::Digit);
    }
    crate::ws::lemma_ws(s, q1);
    let p2 = crate::ws::spec_ws(s, q1);
    lemma_scan(s, p2, Class::Digit);
    let q2 = scan(s, p2, Class::Digit);
    if q2 < s.len() {
        lemma_scan(s, q2 + 1, Class::Digit);
    }
}

/// A report gathers every occurrence of its repeated groups, in order: the
/// recent weather before the present weather and after the pressure, the
/// present weather before and after the pressure, and likewise clouds, runway
/// visual ranges and runway states.
pub proof fn lemma_report_gathers_groups(s: Seq<char>)
    ensures
        spec_metar(s) matches Ok(r) ==> spec_head(s) matches Some((p1, _)) && {
            let (p2, body) = spec_body(s, p1);
            let (p3, late) = spec_late(s, p2);
            &&& r.recent_weather == body.pre_recent_weather + late.recent_weather
            &&& r.weather == body.weather + late.weather
            &&& r.cloud_cover == somes(body.cloud_cover) + somes(late.cloud_cover) + somes(
                late.cloud_cover_after_recent,
            )
            &&& r.runway_visibilities == somes(body.runway_visibilities) + somes(late.runway_visibilities)
                + somes(late.runway_visibilities_after_reports)
            &&& r.runway_reports == somes(late.runway_reports)
            &&& r.trends == late.trends
            &&& r.pressure == body.pressure
            &&& r.wind == body.wind
            &&& r.visibility == body.visibility
            &&& r.cavok == body.cavok
            &&& r.accumulated_rainfall == late.accumulated_rainfall
            &&& r.color == late.color
            &&& r.water_conditions == late.water_conditions
            &&& (body.pre_temperatures is Some ==> r.temperatures == body.pre_temperatures)
            &&& (body.pre_temperatures is None && body.temperatures is Some ==> r.temperatures
                == body.temperatures)
            &&& (body.pre_temperatures is None && body.temperatures is None && late.temperatures is Some
                ==> r.temperatures == late.temperatures)
            &&& (body.pre_temperatures is None && body.temperatures is None && late.temperatures is None
                ==> r.temperatures == late.temperatures_after_recent)
        },
{
    if let Ok(r) = spec_metar(s) {
        let parts = spec_metar_parts(s);
        assert(parts is Some);
        assert(r == parts->Some_0.1);
    }
}


/// The two letters of each descriptor code.
pub open spec fn descriptor_code(v: Descriptor) -> (char, char) {
    match v {
        Descriptor::Shallow => ('M', 'I'),
        Descriptor::Partial => ('P', 'R'),
        Descriptor::Patches => ('B', 'C'),
        Descriptor::LowDrifting => ('D', 'R'),
        Descriptor::Blowing => ('B', 'L'),
        Descriptor::Showers => ('S', 'H'),
        Descriptor::Thunderstorm => ('T', 'S'),
        Descriptor::Freezing => ('F', 'Z'),
    }
}

/// The two letters of each precipitation code.
pub open spec fn precipitation_code(v: Precipitation) -> (char, char) {
    match v {
        Precipitation::Rain => ('R', 'A'),
        Precipitation::Drizzle => ('D', 'Z'),
        Precipitation::Snow => ('S', 'N'),
        Precipitation::SnowGrains => ('S', 'G'),
        Precipitation::IceCrystals => ('I', 'C'),
        Precipitation::IcePellets => ('P', 'L'),
        Precipitation::Hail => ('G', 'R'),
        Precipitation::SnowPellets => ('G', 'S'),
        Precipitation::Unknown => ('U', 'P'),
    }
}

/// The two letters of each obscuration code.
pub open spec fn obscuration_code(v: Obscuration) -> (char, char) {
    match v {
        Obscuration::Fog => ('F', 'G'),
        Obscuration::Mist => ('B', 'R'),
        Obscuration::Haze => ('H', 'Z'),
        Obscuration::VolcanicAsh => ('V', 'A'),
        Obscuration::Dust => ('D', 'U'),
        Obscuration::Smoke => ('F', 'U'),
        Obscuration::Sand => ('S', 'A'),
        Obscuration::Spray => ('P', 'Y'),
    }
}

/// The two letters of each other phenomenon code.
pub open spec fn other_code(v: OtherPhenomenon) -> (char, char) {
    match v {
        OtherPhenomenon::Squall => ('S', 'Q'),
        OtherPhenomenon::DustWhirls => ('P', 'O'),
        OtherPhenomenon::Duststorm => ('D', 'S'),
        OtherPhenomenon::Sandstorm => ('S', 'S'),
        OtherPhenomenon::FunnelCloud => ('F', 'C'),
    }
}

/// Each weather code is read as the two letters written for it, and only
/// those: a descriptor, precipitation, obscuration or other phenomenon found
/// at `p` spans the two letters of its own code.
pub proof fn lemma_weather_codes_are_written(s: Seq<char>, p: int)
    ensures
        spec_descriptor(s, p) matches Some((q, v)) ==> q == p + 2 && at(s, p, descriptor_code(v).0) && at(
            s,
            p + 1,
            descriptor_code(v).1,
        ),
        spec_precipitation(s, p) matches Some((q, v)) ==> q == p + 2 && at(s, p, precipitation_code(v).0)
            && at(s, p + 1, precipitation_code(v).1),
        spec_obscuration(s, p) matches Some((q, v)) ==> q == p + 2 && at(s, p, obscuration_code(v).0) && at(
            s,
            p + 1,
            obscuration_code(v).1,
        ),
        spec_other(s, p) matches Some((q, v)) ==> q == p + 2 && at(s, p, other_code(v).0) && at(
            s,
            p + 1,
            other_code(v).1,
        ),
        spec_intensity(s, p).1 == Intensity::Heavy <==> at(s, p, '+'),
        spec_intensity(s, p).1 == Intensity::Light <==> at(s, p, '-'),
{
}

/// The text `l` is written at `p` and read up to `q`.
pub open spec fn reads(s: Seq<char>, p: int, q: int, l: Seq<char>) -> bool {
    written(s, p, l) && q == p + l.len()
}

/// The code of each color state.
pub open spec fn color_state_code(c: ColorState) -> Seq<char> {
    match c {
        ColorState::BluePlus => seq!['B', 'L', 'U', '+'],
        ColorState::Blue => seq!['B', 'L', 'U'],
        ColorState::White => seq!['W', 'H', 'T'],
        ColorState::Green => seq!['G', 'R', 'N'],
        ColorState::Yellow1 => seq!['Y', 'L', 'O', '1'],
        ColorState::Yellow2 => seq!['Y', 'L', 'O', '2'],
        ColorState::Yellow => seq!['Y', 'L', 'O'],
        ColorState::Amber => seq!['A', 'M', 'B'],
        ColorState::Red => seq!['R', 'E', 'D'],
    }
}

/// The code of each cloud type, and `///` for an unknown one.
pub open spec fn cloud_type_code(t: Option<CloudType>) -> Seq<char> {
    match t {
        Some(CloudType::Cumulonimbus) => seq!['C', 'B'],
        Some(CloudType::ToweringCumulus) => seq!['T', 'C', 'U'],
        Some(CloudType::Cumulus) => seq!['C', 'U'],
        Some(CloudType::Cirrus) => seq!['C', 'I'],
        Some(CloudType::Altocumulus) => seq!['A', 'C'],
        Some(CloudType::Stratus) => seq!['S', 'T'],
        None => seq!['/', '/', '/'],
    }
}

/// The letters of each compass direction.
pub open spec fn compass_code(d: CompassDirection) -> Seq<char> {
    match d {
        CompassDirection::North => seq!['N'],
        CompassDirection::NorthEast => seq!['N', 'E'],
        CompassDirection::East => seq!['E'],
        CompassDirection::SouthEast => seq!['S', 'E'],
        CompassDirection::South => seq!['S'],
        CompassDirection::SouthWest => seq!['S', 'W'],
        CompassDirection::West => seq!['W'],
        CompassDirection::NorthWest => seq!['N', 'W'],
    }
}

/// The code of each visibility unit.
pub open spec fn length_unit_code(u: LengthUnit) -> Option<Seq<char>> {
    match u {
        LengthUnit::Meters => Some(seq!['M']),
        LengthUnit::Kilometers => Some(seq!['K', 'M']),
        LengthUnit::StatuteMiles => Some(seq!['S', 'M']),
        LengthUnit::Feet => None,
    }
}

/// What each observation flag is read from: `AUTO`, `NIL`, `RTD`, and for a
/// correction `COR` or `CC` and a letter.
pub open spec fn flag_read(s: Seq<char>, p: int, q: int, f: ObservationFlag) -> bool {
    match f {
        ObservationFlag::Automatic => reads(s, p, q, seq!['A', 'U', 'T', 'O']),
        ObservationFlag::Missing => reads(s, p, q, seq!['N', 'I', 'L']),
        ObservationFlag::Correction => reads(s, p, q, seq!['C', 'O', 'R']) || (written(s, p, seq!['C', 'C']) && q == p + 3 && is_letter(s[p + 2])),
        ObservationFlag::Delayed => reads(s, p, q, seq!['R', 'T', 'D']),
    }
}

/// Each code is read as the text written for its value, and only that text:
/// color states, cloud types, compass directions, visibility units and
/// observation flags span exactly their own code. An altimeter setting is
/// the pressure unit `A`.
pub proof fn lemma_codes_are_written(s: Seq<char>, p: int)
    ensures
        spec_color_state(s, p) matches Some((q, c)) ==> reads(s, p, q, color_state_code(c)),
        spec_cloud_type(s, p) matches Some((q, t)) ==> reads(s, p, q, cloud_type_code(t)),
        spec_compass(s, p) matches Some((q, d)) ==> reads(s, p, q, compass_code(d)),
        spec_visibility_unit(s, p) matches Some((q, u)) ==> length_unit_code(u) matches Some(l) && reads(
            s,
            crate::ws::spec_ws(s, p),
            q,
            l,
        ),
        spec_observation_flag(s, p) matches Some((q, f)) ==> flag_read(s, p, q, f),
        spec_pressure_unit(s, p) matches Some((_, altimeter)) ==> (altimeter <==> at(s, p, 'A')),
{
    let w = crate::ws::spec_ws(s, p);
    if at(s, p, 'N') {
        assert(s.subrange(p, p + 1) =~= seq!['N']);
    }
    if at(s, p, 'S') {
        assert(s.subrange(p, p + 1) =~= seq!['S']);
    }
    if at(s, p, 'E') {
        assert(s.subrange(p, p + 1) =~= seq!['E']);
    }
    if at(s, p, 'W') {
        assert(s.subrange(p, p + 1) =~= seq!['W']);
    }
    if at(s, w, 'M') {
        assert(s.subrange(w, w + 1) =~= seq!['M']);
    }
    if written(s, p, seq!['Q', 'F', 'E']) {
        assert(s.subrange(p, p + 3)[0] == 'Q');
    }
    if written(s, p, seq!['Q', 'N', 'H']) {
        assert(s.subrange(p, p + 3)[0] == 'Q');
    }
}

/// A trend's time is read from its keyword: `FM` gives a start (with `TL`, a
/// range), `AT` a moment and `TL` an end.
pub proof fn lemma_trend_time_kind_is_written(s: Seq<char>, p: int)
    ensures
        spec_trend_time(s, p) matches Some((_, t)) ==> match t {
            TrendTime::Range { .. } => written(s, p, seq!['F', 'M']),
            TrendTime::From(_) => written(s, p, seq!['F', 'M']),
            TrendTime::At(_) => written(s, p, seq!['A', 'T']),
            TrendTime::Until(_) => written(s, p, seq!['T', 'L']),
        },
{
    if written(s, p, seq!['F', 'M']) {
        assert(s.subrange(p, p + 2)[0] == 'F');
    }
    if written(s, p, seq!['A', 'T']) {
        assert(s.subrange(p, p + 2)[0] == 'A');
    }
}

proof fn lemma_precipitations_written(s: Seq<char>, p: int)
    ensures
        spec_precipitations(s, p).0 == p + 2 * spec_precipitations(s, p).1.len(),
        forall|i: int|
            #![trigger spec_precipitations(s, p).1[i]]
            0 <= i < spec_precipitations(s, p).1.len() ==> at(
                s,
                p + 2 * i,
                precipitation_code(spec_precipitations(s, p).1[i]).0,
            ) && at(s, p + 2 * i + 1, precipitation_code(spec_precipitations(s, p).1[i]).1),
    decreases s.len() - p,
{
    lemma_weather_codes_are_written(s, p);
    if let Some((q, v)) = spec_precipitation(s, p) {
        if p < q <= s.len() {
            lemma_precipitations_written(s, q);
            let vs = spec_precipitations(s, q).1;
            let all = spec_precipitations(s, p).1;
            assert(all == seq![v] + vs);
            assert forall|i: int| 0 <= i < all.len() implies at(s, p + 2 * i, precipitation_code(all[i]).0)
                && at(s, p + 2 * i + 1, precipitation_code(all[i]).1) by {
                if i > 0 {
                    assert(all[i] == vs[i - 1]);
                    assert(q + 2 * (i - 1) == p + 2 * i);
                }
            }
        }
    }
}

/// A weather group is read from left to right: `+` or `-` for the intensity,
/// `VC` for the vicinity, a descriptor code, then the codes of its
/// precipitations, or of one obscuration or other phenomenon; each part read
/// is the one whose code is written there.
pub proof fn lemma_weather_is_written(s: Seq<char>, p: int)
    ensures
        spec_weather(s, p) matches Some((q, w)) ==> {
            let p1 = if at(s, p, '+') || at(s, p, '-') {
                p + 1
            } else {
                p
            };
            let p2 = if w.vicinity {
                p1 + 2
            } else {
                p1
            };
            let p3 = if w.descriptor is Some {
                p2 + 2
            } else {
                p2
            };
            &&& (w.intensity == Intensity::Heavy <==> at(s, p, '+'))
            &&& (w.intensity == Intensity::Light <==> at(s, p, '-'))
            &&& (w.vicinity <==> (at(s, p1, 'V') && at(s, p1 + 1, 'C')))
            &&& (w.descriptor matches Some(d) ==> at(s, p2, descriptor_code(d).0) && at(
                s,
                p2 + 1,
                descriptor_code(d).1,
            ))
            &&& match w.condition {
                Some(SpecCondition::Precipitation(ps)) => {
                    &&& ps.len() > 0
                    &&& q == p3 + 2 * ps.len()
                    &&& forall|i: int|
                        0 <= i < ps.len() ==> at(s, p3 + 2 * i, precipitation_code(#[trigger] ps[i]).0)
                            && at(s, p3 + 2 * i + 1, precipitation_code(ps[i]).1)
                },
                Some(SpecCondition::Obscuration(o)) => q == p3 + 2 && at(s, p3, obscuration_code(o).0)
                    && at(s, p3 + 1, obscuration_code(o).1),
                Some(SpecCondition::Other(o)) => q == p3 + 2 && at(s, p3, other_code(o).0) && at(
                    s,
                    p3 + 1,
                    other_code(o).1,
                ),
                None => q == p3 && w.descriptor is Some,
            }
        },
{
    lemma_weather_codes_are_written(s, p);
    let p1 = spec_intensity(s, p).0;
    let p2 = if at(s, p1, 'V') && at(s, p1 + 1, 'C') {
        p1 + 2
    } else {
        p1
    };
    lemma_weather_codes_are_written(s, p2);
    let p3 = match spec_descriptor(s, p2) {
        Some((q, _)) => q,
        None => p2,
    };
    lemma_weather_codes_are_written(s, p3);
    lemma_precipitations_written(s, p3);
}

/// A temperature group is read as the air temperature, with `M` or `-` for
/// below zero, then `/` or `.`, then the dewpoint written the same way.
pub proof fn lemma_temperatures_are_written(s: Seq<char>, p: int)
    requires
        0 <= p <= s.len() <= usize::MAX,
    ensures
        spec_temperatures(s, p) matches Some((_, Some(t))) ==> {
            let minus = at(s, p, 'M') || at(s, p, '-');
            &&& (t.air.negative <==> minus)
            &&& t.air.degrees.start == if minus {
                p + 1
            } else {
                p
            }
            &&& digit_run(s, t.air.degrees)
            &&& (at(s, t.air.degrees.end as int, '/') || at(s, t.air.degrees.end as int, '.'))
            &&& (t.dewpoint matches Some(d) ==> {
                let b = t.air.degrees.end + 1;
                let dminus = at(s, b, 'M') || at(s, b, '-');
                &&& (d.negative <==> dminus)
                &&& d.degrees.start == if dminus {
                    b + 1
                } else {
                    b
                }
                &&& digit_run(s, d.degrees)
            })
        },
{
    let p1 = if at(s, p, 'M') || at(s, p, '-') {
        p + 1
    } else {
        p
    };
    lemma_scan(s, p1, Class::Digit);
    let q1 = scan(s, p1, Class::Digit);
    if q1 < s.len() {
        let b = q1 + 1;
        let b1 = if at(s, b, 'M') || at(s, b, '-') {
            b + 1
        } else {
            b
        };
        if b1 <= s.len() {
            lemma_scan(s, b1, Class::Digit);
        }
    }
}

/// A pressure given with `Q` (`Q`, `QNH`, `QFE`) is in pascals; one given
/// with `A` is in inches of mercury above 2000 and in hectopascals
/// otherwise. The value is the digits written after the unit.
pub proof fn lemma_pressure_unit_is_written(s: Seq<char>, p: int)
    requires
        0 <= p <= s.len() <= usize::MAX,
    ensures
        spec_pressure(s, p) matches Some((_, Some(pr))) ==> {
            &&& (pr.unit == PressureUnit::Pascals <==> at(s, p, 'Q'))
            &&& (pr.unit == PressureUnit::InchesOfMercury <==> (at(s, p, 'A') && decimal_above(s, pr.value, 2000)))
            &&& (pr.unit == PressureUnit::Hectopascals <==> (at(s, p, 'A') && !decimal_above(s, pr.value, 2000)))
            &&& digit_run(s, pr.value.whole)
        },
{
    lemma_codes_are_written(s, p);
    if written(s, p, seq!['Q', 'F', 'E']) || written(s, p, seq!['Q', 'N', 'H']) {
        assert(s.subrange(p, p + 3)[0] == 'Q');
    }
    if let Some((u, _)) = spec_pressure_unit(s, p) {
        if 0 <= u <= s.len() {
            crate::ws::lemma_ws(s, u);
            let w = crate::ws::spec_ws(s, u);
            lemma_scan(s, w, Class::Digit);
            let d = scan(s, w, Class::Digit);
            if d < s.len() {
                lemma_scan(s, d + 1, Class::Digit);
            }
        }
    }
}

/// A wind direction is the three digits written at the start of the group,
/// read as degrees; `VRB` gives no direction.
pub proof fn lemma_wind_direction_is_written(s: Seq<char>, p: int)
    ensures
        spec_wind(s, p) matches Some((_, Some(w))) ==> {
            &&& (w.direction matches Some(d) ==> {
                &&& is_digit(s[p]) && is_digit(s[p + 1]) && is_digit(s[p + 2])
                &&& d as int == 100 * digit_value(s[p]) + 10 * digit_value(s[p + 1]) + digit_value(s[p + 2])
            })
            &&& (written(s, p, seq!['V', 'R', 'B']) ==> w.direction is None)
        },
{
}

/// A runway group starts with `R` and the runway designator, which ends at
/// the `/` before the group's value.
pub open spec fn runway_designated(s: Seq<char>, p: int, designator: Span) -> bool {
    &&& at(s, p, 'R')
    &&& designator.start == p + 1
    &&& designator.start < designator.end
    &&& is_digit(s[p + 1])
    &&& at(s, designator.end as int, '/')
}

/// A runway visual range names its runway after the `R`. A varying range is
/// read as the lower value, `V`, then the upper value, both in feet exactly
/// when `FT` follows the upper value; a fixed one in feet exactly when `FT`
/// follows its value.
pub proof fn lemma_runway_visibility_is_written(s: Seq<char>, p: int)
    requires
        0 <= p <= s.len() <= usize::MAX,
    ensures
        spec_runway_visibility(s, p) matches Some((_, Some(rv))) ==> {
            &&& runway_designated(s, p, rv.designator)
            &&& match rv.visibility {
                VisibilityType::Varying { lower, upper } => lower.value matches Magnitude::Whole(a)
                    && upper.value matches Magnitude::Whole(b) && {
                    &&& digit_run(s, a)
                    &&& at(s, a.end as int, 'V')
                    &&& a.end < b.start
                    &&& digit_run(s, b)
                    &&& lower.unit == upper.unit
                    &&& (upper.unit == LengthUnit::Feet <==> written(s, b.end as int, seq!['F', 'T']))
                },
                VisibilityType::Fixed(v) => v.value matches Magnitude::Whole(a) && {
                    &&& digit_run(s, a)
                    &&& (v.unit == LengthUnit::Feet <==> written(s, a.end as int, seq!['F', 'T']))
                },
            }
        },
{
    if p < s.len() {
        lemma_scan(s, p + 1, Class::Digit);
    }
    if let Some((q, _)) = spec_runway_head(s, p) {
        let b = spec_bound(s, q).0;
        if 0 <= b <= s.len() {
            lemma_scan(s, b, Class::Digit);
            let e = scan(s, b, Class::Digit);
            if e < s.len() {
                let b2 = spec_bound(s, e + 1).0;
                if b2 <= s.len() {
                    lemma_scan(s, b2, Class::Digit);
                }
            }
        }
    }
}

/// A runway state names its runway after the `R`.
pub proof fn lemma_runway_report_is_designated(s: Seq<char>, p: int)
    requires
        0 <= p <= s.len() <= usize::MAX,
    ensures
        spec_runway_report(s, p) matches Some((_, Some(rr))) ==> runway_designated(s, p, rr.designator),
{
    if p < s.len() {
        lemma_scan(s, p + 1, Class::Digit);
    }
}

/// The value of the three digits at `i`.
pub open spec fn three_digit_value(s: Seq<char>, i: int) -> int {
    100 * digit_value(s[i]) + 10 * digit_value(s[i + 1]) + digit_value(s[i + 2])
}

/// Variable wind directions `dddVddd` end the wind group: the first is read
/// from the digits before the `V`, the second from those after it.
pub proof fn lemma_wind_variance_is_written(s: Seq<char>, p: int)
    ensures
        spec_wind(s, p) matches Some((q, Some(w))) ==> (w.variance matches Some((from, to)) ==> {
            &&& at(s, q - 4, 'V')
            &&& from as int == three_digit_value(s, q - 7)
            &&& to as int == three_digit_value(s, q - 3)
        }),
{
}

proof fn lemma_digit_values(s: Seq<char>, w: int)
    ensures
        crate::lex::num3(s, w) == digits_value(s, w, w + 3),
        crate::lex::num4(s, w) == digits_value(s, w, w + 4),
{
    reveal_with_fuel(digits_value, 5);
    assert(digits_value(s, w, w) == 0);
    assert(digits_value(s, w, w + 1) == digit_value(s[w]));
    assert(digits_value(s, w, w + 2) == 10 * digit_value(s[w]) + digit_value(s[w + 1]));
    assert(digits_value(s, w, w + 3) == 100 * digit_value(s[w]) + 10 * digit_value(s[w + 1]) + digit_value(
        s[w + 2],
    ));
}

/// A cloud layer's base is the three or four digits after its coverage (and
/// any whitespace), in hundreds of feet.
pub proof fn lemma_cloud_base_is_written(s: Seq<char>, p: int)
    ensures
        spec_cloud_cover(s, p) matches Some((_, Some(c))) ==> (c.base matches Some(b)
            ==> spec_cloud_coverage(s, p) matches Some((e, _)) && {
            let w = crate::ws::spec_ws(s, e);
            ||| (crate::lex::run_of(s, w, 4, Class::Digit) && b as int == 100 * digits_value(s, w, w + 4))
            ||| (crate::lex::run_of(s, w, 3, Class::Digit) && !(w + 3 < s.len() && is_digit(s[w + 3]))
                && b as int == 100 * digits_value(s, w, w + 3))
        }),
{
    if let Some((e, _)) = spec_cloud_coverage(s, p) {
        let w = crate::ws::spec_ws(s, e);
        lemma_digit_values(s, w);
        if crate::lex::run_of(s, w, 4, Class::Digit) {
            assert(1000 * 9 + 999 <= 9999);
            assert(0 <= crate::lex::num4(s, w) <= 9999);
        } else if crate::lex::run_of(s, w, 3, Class::Digit) {
            assert(0 <= crate::lex::num3(s, w) <= 999);
        }
    }
}

/// A cloud layer's type, when given, is the code that ends the layer.
pub proof fn lemma_cloud_type_is_written(s: Seq<char>, p: int)
    ensures
        spec_cloud_cover(s, p) matches Some((q, Some(c))) ==> (c.cloud_type matches Some(t) ==> written(
            s,
            q - cloud_type_code(Some(t)).len(),
            cloud_type_code(Some(t)),
        )),
{
    if let Some((e, _)) = spec_cloud_coverage(s, p) {
        let p2 = crate::ws::spec_ws(s, e);
        if let Some(p3) = spec_lit(s, p2, seq!['/', '/', '/']) {
            lemma_codes_are_written(s, crate::ws::spec_ws(s, p3));
        }
        if let Some((q2, _)) = crate::cloud::spec_cloud_base(s, p2) {
            lemma_codes_are_written(s, crate::ws::spec_ws(s, q2));
        }
    }
}

} // verus!
