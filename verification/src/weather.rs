//! Present and recent weather phenomena.

use vstd::prelude::*;
use crate::lex::{at, is_at, lit, res_of, res_view, spec_lit};
use crate::list::{lemma_somes_concat, lemma_somes_single, parse_sep_list, sep_list, somes, specs, Element};
use crate::ws::{spec_ws_or_eof, ws_or_eof};

verus! {

#[derive(Clone, Copy, PartialEq, Eq, Debug)]
pub enum Intensity {
    /// `-`
    Light,
    /// no sign
    Moderate,
    /// `+`
    Heavy,
}

#[derive(Clone, Copy, PartialEq, Eq, Debug)]
pub enum Descriptor {
    /// `MI`
    Shallow,
    /// `PR`
    Partial,
    /// `BC`
    Patches,
    /// `DR`
    LowDrifting,
    /// `BL`
    Blowing,
    /// `SH`
    Showers,
    /// `TS`
    Thunderstorm,
    /// `FZ`
    Freezing,
}

#[derive(Clone, Copy, PartialEq, Eq, Debug)]
pub enum Precipitation {
    /// `RA`
    Rain,
    /// `DZ`
    Drizzle,
    /// `SN`
    Snow,
    /// `SG`
    SnowGrains,
    /// `IC`
    IceCrystals,
    /// `PL`
    IcePellets,
    /// `GR`
    Hail,
    /// `GS`
    SnowPellets,
    /// `UP`
    Unknown,
}

#[derive(Clone, Copy, PartialEq, Eq, Debug)]
pub enum Obscuration {
    /// `FG`
    Fog,
    /// `BR`
    Mist,
    /// `HZ`
    Haze,
    /// `VA`
    VolcanicAsh,
    /// `DU`
    Dust,
    /// `FU`
    Smoke,
    /// `SA`
    Sand,
    /// `PY`
    Spray,
}

#[derive(Clone, Copy, PartialEq, Eq, Debug)]
pub enum OtherPhenomenon {
    /// `SQ`
    Squall,
    /// `PO`
    DustWhirls,
    /// `DS`
    Duststorm,
    /// `SS`
    Sandstorm,
    /// `FC`
    FunnelCloud,
}

#[derive(Debug)]
pub enum Condition {
    Precipitation(Vec<Precipitation>),
    Obscuration(Obscuration),
    Other(OtherPhenomenon),
}

/// A weather group.
#[derive(Debug)]
pub struct Weather {
    pub intensity: Intensity,
    /// `VC`: in the vicinity of the station.
    pub vicinity: bool,
    pub descriptor: Option<Descriptor>,
    pub condition: Option<Condition>,
}

pub enum SpecCondition {
    Precipitation(Seq<Precipitation>),
    Obscuration(Obscuration),
    Other(OtherPhenomenon),
}

pub struct SpecWeather {
    pub intensity: Intensity,
    pub vicinity: bool,
    pub descriptor: Option<Descriptor>,
    pub condition: Option<SpecCondition>,
}

impl View for Condition {
    type V = SpecCondition;

    open spec fn view(&self) -> SpecCondition {
        match self {
            Condition::Precipitation(v) => SpecCondition::Precipitation(v@),
            Condition::Obscuration(o) => SpecCondition::Obscuration(*o),
            Condition::Other(o) => SpecCondition::Other(*o),
        }
    }
}

impl View for Weather {
    type V = SpecWeather;

    open spec fn view(&self) -> SpecWeather {
        SpecWeather {
            intensity: self.intensity,
            vicinity: self.vicinity,
            descriptor: self.descriptor,
            condition: match self.condition {
                Some(c) => Some(c@),
                None => None,
            },
        }
    }
}

/// The two characters `a` and `b` at `p`.
pub open spec fn code2(s: Seq<char>, p: int, a: char, b: char) -> bool {
    at(s, p, a) && at(s, p + 1, b)
}

/// Optional `+` or `-`.
pub open spec fn spec_intensity(s: Seq<char>, p: int) -> (int, Intensity) {
    if at(s, p, '+') {
        (p + 1, Intensity::Heavy)
    } else if at(s, p, '-') {
        (p + 1, Intensity::Light)
    } else {
        (p, Intensity::Moderate)
    }
}

pub open spec fn spec_descriptor(s: Seq<char>, p: int) -> Option<(int, Descriptor)> {
    if code2(s, p, 'M', 'I') {
        Some((p + 2, Descriptor::Shallow))
    } else if code2(s, p, 'P', 'R') {
        Some((p + 2, Descriptor::Partial))
    } else if code2(s, p, 'B', 'C') {
        Some((p + 2, Descriptor::Patches))
    } else if code2(s, p, 'D', 'R') {
        Some((p + 2, Descriptor::LowDrifting))
    } else if code2(s, p, 'B', 'L') {
        Some((p + 2, Descriptor::Blowing))
    } else if code2(s, p, 'S', 'H') {
        Some((p + 2, Descriptor::Showers))
    } else if code2(s, p, 'T', 'S') {
        Some((p + 2, Descriptor::Thunderstorm))
    } else if code2(s, p, 'F', 'Z') {
        Some((p + 2, Descriptor::Freezing))
    } else {
        None
    }
}

pub open spec fn spec_precipitation(s: Seq<char>, p: int) -> Option<(int, Precipitation)> {
    if code2(s, p, 'R', 'A') {
        Some((p + 2, Precipitation::Rain))
    } else if code2(s, p, 'D', 'Z') {
        Some((p + 2, Precipitation::Drizzle))
    } else if code2(s, p, 'S', 'N') {
        Some((p + 2, Precipitation::Snow))
    } else if code2(s, p, 'S', 'G') {
        Some((p + 2, Precipitation::SnowGrains))
    } else if code2(s, p, 'I', 'C') {
        Some((p + 2, Precipitation::IceCrystals))
    } else if code2(s, p, 'P', 'L') {
        Some((p + 2, Precipitation::IcePellets))
    } else if code2(s, p, 'G', 'R') {
        Some((p + 2, Precipitation::Hail))
    } else if code2(s, p, 'G', 'S') {
        Some((p + 2, Precipitation::SnowPellets))
    } else if code2(s, p, 'U', 'P') {
        Some((p + 2, Precipitation::Unknown))
    } else {
        None
    }
}

pub open spec fn spec_obscuration(s: Seq<char>, p: int) -> Option<(int, Obscuration)> {
    if code2(s, p, 'F', 'G') {
        Some((p + 2, Obscuration::Fog))
    } else if code2(s, p, 'B', 'R') {
        Some((p + 2, Obscuration::Mist))
    } else if code2(s, p, 'H', 'Z') {
        Some((p + 2, Obscuration::Haze))
    } else if code2(s, p, 'V', 'A') {
        Some((p + 2, Obscuration::VolcanicAsh))
    } else if code2(s, p, 'D', 'U') {
        Some((p + 2, Obscuration::Dust))
    } else if code2(s, p, 'F', 'U') {
        Some((p + 2, Obscuration::Smoke))
    } else if code2(s, p, 'S', 'A') {
        Some((p + 2, Obscuration::Sand))
    } else if code2(s, p, 'P', 'Y') {
        Some((p + 2, Obscuration::Spray))
    } else {
        None
    }
}

pub open spec fn spec_other(s: Seq<char>, p: int) -> Option<(int, OtherPhenomenon)> {
    if code2(s, p, 'S', 'Q') {
        Some((p + 2, OtherPhenomenon::Squall))
    } else if code2(s, p, 'P', 'O') {
        Some((p + 2, OtherPhenomenon::DustWhirls))
    } else if code2(s, p, 'D', 'S') {
        Some((p + 2, OtherPhenomenon::Duststorm))
    } else if code2(s, p, 'S', 'S') {
        Some((p + 2, OtherPhenomenon::Sandstorm))
    } else if code2(s, p, 'F', 'C') {
        Some((p + 2, OtherPhenomenon::FunnelCloud))
    } else {
        None
    }
}

/// The longest run of precipitation codes from `p`.
pub open spec fn spec_precipitations(s: Seq<char>, p: int) -> (int, Seq<Precipitation>)
    decreases s.len() - p,
{
    match spec_precipitation(s, p) {
        Some((q, v)) => if p < q <= s.len() {
            let (r, vs) = spec_precipitations(s, q);
            (r, seq![v] + vs)
        } else {
            (p, seq![])
        },
        None => (p, seq![]),
    }
}

pub proof fn lemma_precipitations(s: Seq<char>, p: int)
    requires
        0 <= p <= s.len(),
    ensures
        p <= spec_precipitations(s, p).0 <= s.len(),
    decreases s.len() - p,
{
    if let Some((q, _)) = spec_precipitation(s, p) {
        if p < q <= s.len() {
            lemma_precipitations(s, q);
        }
    }
}

/// Intensity, `VC`, descriptor, and one or more precipitations, an
/// obscuration or another phenomenon; or just the descriptor.
pub open spec fn spec_weather(s: Seq<char>, p: int) -> Option<(int, SpecWeather)> {
    let (p1, intensity) = spec_intensity(s, p);
    let (p2, vicinity) = if code2(s, p1, 'V', 'C') {
        (p1 + 2, true)
    } else {
        (p1, false)
    };
    let (p3, descriptor) = match spec_descriptor(s, p2) {
        Some((q, d)) => (q, Some(d)),
        None => (p2, None),
    };
    let (p4, precipitations) = spec_precipitations(s, p3);
    if precipitations.len() > 0 {
        Some((p4, SpecWeather { intensity, vicinity, descriptor, condition: Some(SpecCondition::Precipitation(precipitations)) }))
    } else if let Some((q, o)) = spec_obscuration(s, p3) {
        Some((q, SpecWeather { intensity, vicinity, descriptor, condition: Some(SpecCondition::Obscuration(o)) }))
    } else if let Some((q, o)) = spec_other(s, p3) {
        Some((q, SpecWeather { intensity, vicinity, descriptor, condition: Some(SpecCondition::Other(o)) }))
    } else if descriptor is Some {
        Some((p3, SpecWeather { intensity, vicinity, descriptor, condition: None }))
    } else {
        None
    }
}

/// One or more weather groups separated by optional whitespace, followed by
/// whitespace or the end of the input.
pub open spec fn spec_weather_sequence(s: Seq<char>, p: int) -> Option<(int, Seq<SpecWeather>)> {
    let (q, ws) = sep_list::<Weather>(s, p, false);
    if ws.len() > 0 && spec_ws_or_eof(s, q) is Some {
        Some((q, ws))
    } else {
        None
    }
}

/// `RE` and a weather group, or `RE//`; each followed by whitespace or the end.
pub open spec fn spec_recent_weather(s: Seq<char>, p: int) -> Option<(int, Option<SpecWeather>)> {
    let with_weather = if code2(s, p, 'R', 'E') {
        match spec_weather(s, p + 2) {
            Some((q, w)) => if spec_ws_or_eof(s, q) is Some {
                Some((q, Some(w)))
            } else {
                None
            },
            None => None,
        }
    } else {
        None
    };
    match with_weather {
        Some(r) => Some(r),
        None => if spec_lit(s, p, seq!['R', 'E', '/', '/']) is Some && spec_ws_or_eof(s, p + 4) is Some {
            Some((p + 4, None))
        } else {
            None
        },
    }
}

/// One or more recent weather groups, followed by whitespace or the end; the
/// reported ones.
pub open spec fn spec_recent_weather_sequence(s: Seq<char>, p: int) -> Option<(int, Seq<SpecWeather>)> {
    let (q, ws) = sep_list::<Option<Weather>>(s, p, false);
    if ws.len() > 0 && spec_ws_or_eof(s, q) is Some {
        Some((q, somes(ws)))
    } else {
        None
    }
}

fn is_code2(s: &Vec<char>, p: usize, a: char, b: char) -> (r: bool)
    requires
        p <= s.len(),
    ensures
        r == code2(s@, p as int, a, b),
{
    is_at(s, p, a) && p + 1 <= s.len() && is_at(s, p + 1, b)
}

fn intensity_at(s: &Vec<char>, p: usize) -> (r: (usize, Intensity))
    requires
        p <= s.len(),
    ensures
        (r.0 as int, r.1) == spec_intensity(s@, p as int),
        p <= r.0 <= s.len(),
{
    if is_at(s, p, '+') {
        (p + 1, Intensity::Heavy)
    } else if is_at(s, p, '-') {
        (p + 1, Intensity::Light)
    } else {
        (p, Intensity::Moderate)
    }
}

fn descriptor_at(s: &Vec<char>, p: usize) -> (r: Option<(usize, Descriptor)>)
    requires
        p <= s.len(),
    ensures
        res_of(r) == spec_descriptor(s@, p as int),
        r matches Some((q, _)) ==> q == p + 2 && q <= s.len(),
{
    if is_code2(s, p, 'M', 'I') {
        Some((p + 2, Descriptor::Shallow))
    } else if is_code2(s, p, 'P', 'R') {
        Some((p + 2, Descriptor::Partial))
    } else if is_code2(s, p, 'B', 'C') {
        Some((p + 2, Descriptor::Patches))
    } else if is_code2(s, p, 'D', 'R') {
        Some((p + 2, Descriptor::LowDrifting))
    } else if is_code2(s, p, 'B', 'L') {
        Some((p + 2, Descriptor::Blowing))
    } else if is_code2(s, p, 'S', 'H') {
        Some((p + 2, Descriptor::Showers))
    } else if is_code2(s, p, 'T', 'S') {
        Some((p + 2, Descriptor::Thunderstorm))
    } else if is_code2(s, p, 'F', 'Z') {
        Some((p + 2, Descriptor::Freezing))
    } else {
        None
    }
}

fn precipitation_at(s: &Vec<char>, p: usize) -> (r: Option<(usize, Precipitation)>)
    requires
        p <= s.len(),
    ensures
        res_of(r) == spec_precipitation(s@, p as int),
        r matches Some((q, _)) ==> q == p + 2 && q <= s.len(),
{
    if is_code2(s, p, 'R', 'A') {
        Some((p + 2, Precipitation::Rain))
    } else if is_code2(s, p, 'D', 'Z') {
        Some((p + 2, Precipitation::Drizzle))
    } else if is_code2(s, p, 'S', 'N') {
        Some((p + 2, Precipitation::Snow))
    } else if is_code2(s, p, 'S', 'G') {
        Some((p + 2, Precipitation::SnowGrains))
    } else if is_code2(s, p, 'I', 'C') {
        Some((p + 2, Precipitation::IceCrystals))
    } else if is_code2(s, p, 'P', 'L') {
        Some((p + 2, Precipitation::IcePellets))
    } else if is_code2(s, p, 'G', 'R') {
        Some((p + 2, Precipitation::Hail))
    } else if is_code2(s, p, 'G', 'S') {
        Some((p + 2, Precipitation::SnowPellets))
    } else if is_code2(s, p, 'U', 'P') {
        Some((p + 2, Precipitation::Unknown))
    } else {
        None
    }
}

fn obscuration_at(s: &Vec<char>, p: usize) -> (r: Option<(usize, Obscuration)>)
    requires
        p <= s.len(),
    ensures
        res_of(r) == spec_obscuration(s@, p as int),
        r matches Some((q, _)) ==> q == p + 2 && q <= s.len(),
{
    if is_code2(s, p, 'F', 'G') {
        Some((p + 2, Obscuration::Fog))
    } else if is_code2(s, p, 'B', 'R') {
        Some((p + 2, Obscuration::Mist))
    } else if is_code2(s, p, 'H', 'Z') {
        Some((p + 2, Obscuration::Haze))
    } else if is_code2(s, p, 'V', 'A') {
        Some((p + 2, Obscuration::VolcanicAsh))
    } else if is_code2(s, p, 'D', 'U') {
        Some((p + 2, Obscuration::Dust))
    } else if is_code2(s, p, 'F', 'U') {
        Some((p + 2, Obscuration::Smoke))
    } else if is_code2(s, p, 'S', 'A') {
        Some((p + 2, Obscuration::Sand))
    } else if is_code2(s, p, 'P', 'Y') {
        Some((p + 2, Obscuration::Spray))
    } else {
        None
    }
}

fn other_at(s: &Vec<char>, p: usize) -> (r: Option<(usize, OtherPhenomenon)>)
    requires
        p <= s.len(),
    ensures
        res_of(r) == spec_other(s@, p as int),
        r matches Some((q, _)) ==> q == p + 2 && q <= s.len(),
{
    if is_code2(s, p, 'S', 'Q') {
        Some((p + 2, OtherPhenomenon::Squall))
    } else if is_code2(s, p, 'P', 'O') {
        Some((p + 2, OtherPhenomenon::DustWhirls))
    } else if is_code2(s, p, 'D', 'S') {
        Some((p + 2, OtherPhenomenon::Duststorm))
    } else if is_code2(s, p, 'S', 'S') {
        Some((p + 2, OtherPhenomenon::Sandstorm))
    } else if is_code2(s, p, 'F', 'C') {
        Some((p + 2, OtherPhenomenon::FunnelCloud))
    } else {
        None
    }
}

fn precipitations_at(s: &Vec<char>, p: usize) -> (r: (usize, Vec<Precipitation>))
    requires
        p <= s.len(),
    ensures
        (r.0 as int, r.1@) == spec_precipitations(s@, p as int),
        p <= r.0 <= s.len(),
{
    let mut out: Vec<Precipitation> = Vec::new();
    let mut q = p;
    loop
        invariant
            p <= q <= s.len(),
            ({
                let (r, vs) = spec_precipitations(s@, q as int);
                spec_precipitations(s@, p as int) == (r, out@ + vs)
            }),
        decreases s.len() - q,
    {
        match precipitation_at(s, q) {
            Some((n, v)) => {
                let ghost before = out@;
                out.push(v);
                proof {
                    let (r, vs) = spec_precipitations(s@, n as int);
                    assert(before + (seq![v] + vs) =~= out@ + vs);
                }
                q = n;
            },
            None => {
                assert(out@ + seq![] =~= out@);
                return (q, out);
            },
        }
    }
}

pub fn weather_at(s: &Vec<char>, p: usize) -> (r: Option<(usize, Weather)>)
    requires
        p <= s.len(),
    ensures
        res_view(r) == spec_weather(s@, p as int),
        r matches Some((q, _)) ==> p < q <= s.len(),
{
    let (p1, intensity) = intensity_at(s, p);
    let (p2, vicinity) = if is_code2(s, p1, 'V', 'C') {
        (p1 + 2, true)
    } else {
        (p1, false)
    };
    let (p3, descriptor) = match descriptor_at(s, p2) {
        Some((q, d)) => (q, Some(d)),
        None => (p2, None),
    };
    let (p4, precipitations) = precipitations_at(s, p3);
    if precipitations.len() > 0 {
        assert(p4 > p3) by {
            if let Some((q, _)) = spec_precipitation(s@, p3 as int) {
                lemma_precipitations(s@, q);
            }
        }
        Some((p4, Weather { intensity, vicinity, descriptor, condition: Some(Condition::Precipitation(precipitations)) }))
    } else if let Some((q, o)) = obscuration_at(s, p3) {
        Some((q, Weather { intensity, vicinity, descriptor, condition: Some(Condition::Obscuration(o)) }))
    } else if let Some((q, o)) = other_at(s, p3) {
        Some((q, Weather { intensity, vicinity, descriptor, condition: Some(Condition::Other(o)) }))
    } else if descriptor.is_some() {
        Some((p3, Weather { intensity, vicinity, descriptor, condition: None }))
    } else {
        None
    }
}

impl Element for Weather {
    type Spec = SpecWeather;

    open spec fn spec_of(&self) -> SpecWeather {
        self@
    }

    open spec fn spec_parse(s: Seq<char>, p: int) -> Option<(int, SpecWeather)> {
        spec_weather(s, p)
    }

    fn parse(s: &Vec<char>, p: usize) -> (r: Option<(usize, Weather)>) {
        weather_at(s, p)
    }
}

pub fn recent_weather_at(s: &Vec<char>, p: usize) -> (r: Option<(usize, Option<Weather>)>)
    requires
        p <= s.len(),
    ensures
        match r {
            Some((q, v)) => spec_recent_weather(s@, p as int) == Some((q as int, v.spec_of()))
                && p < q <= s.len(),
            None => spec_recent_weather(s@, p as int) is None,
        },
{
    if is_code2(s, p, 'R', 'E') {
        if let Some((q, w)) = weather_at(s, p + 2) {
            if ws_or_eof(s, q).is_some() {
                return Some((q, Some(w)));
            }
        }
    }
    if lit(s, p, &['R', 'E', '/', '/']).is_some() && ws_or_eof(s, p + 4).is_some() {
        Some((p + 4, None))
    } else {
        None
    }
}

impl Element for Option<Weather> {
    type Spec = Option<SpecWeather>;

    open spec fn spec_of(&self) -> Option<SpecWeather> {
        match self {
            Some(w) => Some(w@),
            None => None,
        }
    }

    open spec fn spec_parse(s: Seq<char>, p: int) -> Option<(int, Option<SpecWeather>)> {
        spec_recent_weather(s, p)
    }

    fn parse(s: &Vec<char>, p: usize) -> (r: Option<(usize, Option<Weather>)>) {
        recent_weather_at(s, p)
    }
}

pub fn weather_sequence_at(s: &Vec<char>, p: usize) -> (r: Option<(usize, Vec<Weather>)>)
    requires
        p <= s.len(),
    ensures
        match r {
            Some((q, v)) => spec_weather_sequence(s@, p as int) == Some((q as int, specs(v@)))
                && p < q <= s.len(),
            None => spec_weather_sequence(s@, p as int) is None,
        },
{
    let (q, v) = parse_sep_list::<Weather>(s, p, false);
    if v.len() > 0 && ws_or_eof(s, q).is_some() {
        assert(q > p) by {
            assert(spec_weather(s@, p as int) is Some);
        }
        Some((q, v))
    } else {
        None
    }
}

/// The weather groups among optional weather groups, in order.
fn take_reported(v: Vec<Option<Weather>>) -> (r: Vec<Weather>)
    ensures
        specs(r@) == somes(specs(v@)),
{
    let mut v = v;
    let ghost all = specs(v@);
    let mut out: Vec<Weather> = Vec::new();
    assert(specs(out@) + somes(specs(v@)) =~= somes(all));
    while v.len() > 0
        invariant
            specs(out@) + somes(specs(v@)) == somes(all),
        decreases v.len(),
    {
        let ghost before = v@;
        let ghost out_before = out@;
        let x = v.remove(0);
        proof {
            assert(specs(before) =~= seq![x.spec_of()] + specs(v@));
            lemma_somes_concat(seq![x.spec_of()], specs(v@));
            lemma_somes_single(x.spec_of());
        }
        match x {
            Some(w) => {
                out.push(w);
                assert(specs(out@) =~= specs(out_before).push(w@));
                assert(specs(out@) + somes(specs(v@)) =~= somes(all));
            },
            None => {
                assert(specs(out@) + somes(specs(v@)) =~= somes(all));
            },
        }
    }
    assert(specs(v@) =~= Seq::<Option<SpecWeather>>::empty());
    assert(specs(out@) + seq![] =~= specs(out@));
    out
}

pub fn recent_weather_sequence_at(s: &Vec<char>, p: usize) -> (r: Option<(usize, Vec<Weather>)>)
    requires
        p <= s.len(),
    ensures
        match r {
            Some((q, v)) => spec_recent_weather_sequence(s@, p as int) == Some((q as int, specs(v@)))
                && p < q <= s.len(),
            None => spec_recent_weather_sequence(s@, p as int) is None,
        },
{
    let (q, v) = parse_sep_list::<Option<Weather>>(s, p, false);
    if v.len() > 0 && ws_or_eof(s, q).is_some() {
        assert(q > p) by {
            assert(spec_recent_weather(s@, p as int) is Some);
        }
        Some((q, take_reported(v)))
    } else {
        None
    }
}

} // verus!
