//! Military color states and sea conditions.

use vstd::prelude::*;
use crate::lex::{at, is_at, is_digit, lit, plus, res_of, span, spec_lit, spec_plus, Class, Span};
use crate::ws::{spec_ws, spec_ws_or_eof, ws, ws_or_eof};

verus! {

/// Airfield color states, from best to worst.
#[derive(Clone, Copy, PartialEq, Eq, Debug)]
pub enum ColorState {
    /// `BLU+`
    BluePlus,
    /// `BLU`
    Blue,
    /// `WHT`
    White,
    /// `GRN`
    Green,
    /// `YLO1`
    Yellow1,
    /// `YLO2`
    Yellow2,
    /// `YLO`
    Yellow,
    /// `AMB`
    Amber,
    /// `RED`
    Red,
}

/// A color group.
#[derive(Clone, Copy, PartialEq, Eq, Debug)]
pub struct Color {
    /// `BLACK`: the airfield is closed for reasons other than weather.
    pub is_black: bool,
    pub current_color: ColorState,
    pub next_color: Option<ColorState>,
}

/// The state of the sea surface (one digit).
#[derive(Clone, Copy, PartialEq, Eq, Debug)]
pub enum WaterSurfaceState {
    Glassy,
    Rippled,
    Wavelets,
    Slight,
    Moderate,
    Rough,
    VeryRough,
    High,
    VeryHigh,
    Phenomenal,
}

/// Sea surface temperature and state or wave height.
#[derive(Clone, Copy, PartialEq, Eq, Debug)]
pub struct WaterConditions {
    /// The temperature digits, in degrees Celsius.
    pub temperature: Option<Span>,
    pub surface_state: Option<WaterSurfaceState>,
    /// The wave height digits, in decimeters.
    pub significant_wave_height: Option<Span>,
}

pub open spec fn spec_color_state(s: Seq<char>, p: int) -> Option<(int, ColorState)> {
    if let Some(q) = spec_lit(s, p, seq!['B', 'L', 'U', '+']) {
        Some((q, ColorState::BluePlus))
    } else if let Some(q) = spec_lit(s, p, seq!['B', 'L', 'U']) {
        Some((q, ColorState::Blue))
    } else if let Some(q) = spec_lit(s, p, seq!['W', 'H', 'T']) {
        Some((q, ColorState::White))
    } else if let Some(q) = spec_lit(s, p, seq!['G', 'R', 'N']) {
        Some((q, ColorState::Green))
    } else if let Some(q) = spec_lit(s, p, seq!['Y', 'L', 'O', '1']) {
        Some((q, ColorState::Yellow1))
    } else if let Some(q) = spec_lit(s, p, seq!['Y', 'L', 'O', '2']) {
        Some((q, ColorState::Yellow2))
    } else if let Some(q) = spec_lit(s, p, seq!['Y', 'L', 'O']) {
        Some((q, ColorState::Yellow))
    } else if let Some(q) = spec_lit(s, p, seq!['A', 'M', 'B']) {
        Some((q, ColorState::Amber))
    } else if let Some(q) = spec_lit(s, p, seq!['R', 'E', 'D']) {
        Some((q, ColorState::Red))
    } else {
        None
    }
}

/// `BLACK`? and one or two color states, followed by whitespace or the end.
pub open spec fn spec_color(s: Seq<char>, p: int) -> Option<(int, Color)> {
    let (p1, is_black) = match spec_lit(s, p, seq!['B', 'L', 'A', 'C', 'K']) {
        Some(q) => (q, true),
        None => (p, false),
    };
    match spec_color_state(s, spec_ws(s, p1)) {
        None => None,
        Some((q1, current_color)) => {
            let two = match spec_color_state(s, spec_ws(s, q1)) {
                Some((q2, next)) => if spec_ws_or_eof(s, q2) is Some {
                    Some((q2, Color { is_black, current_color, next_color: Some(next) }))
                } else {
                    None
                },
                None => None,
            };
            match two {
                Some(r) => Some(r),
                None => if spec_ws_or_eof(s, q1) is Some {
                    Some((q1, Color { is_black, current_color, next_color: None }))
                } else {
                    None
                },
            }
        },
    }
}

pub open spec fn surface_state_of(c: char) -> WaterSurfaceState {
    if c == '0' {
        WaterSurfaceState::Glassy
    } else if c == '1' {
        WaterSurfaceState::Rippled
    } else if c == '2' {
        WaterSurfaceState::Wavelets
    } else if c == '3' {
        WaterSurfaceState::Slight
    } else if c == '4' {
        WaterSurfaceState::Moderate
    } else if c == '5' {
        WaterSurfaceState::Rough
    } else if c == '6' {
        WaterSurfaceState::VeryRough
    } else if c == '7' {
        WaterSurfaceState::High
    } else if c == '8' {
        WaterSurfaceState::VeryHigh
    } else {
        WaterSurfaceState::Phenomenal
    }
}

/// `W`, the temperature (`//` or digits) and `/`: the end and the temperature.
pub open spec fn spec_water_head(s: Seq<char>, p: int) -> Option<(int, Option<Span>)> {
    if at(s, p, 'W') {
        let t = if spec_lit(s, p + 1, seq!['/', '/']) is Some {
            Some((p + 3, None))
        } else {
            match spec_plus(s, p + 1, Class::Digit) {
                Some(q) => Some((q, Some(span(p + 1, q)))),
                None => None,
            }
        };
        match t {
            Some((q, temperature)) => if at(s, q, '/') {
                Some((q + 1, temperature))
            } else {
                None
            },
            None => None,
        }
    } else {
        None
    }
}

/// `W temperature / S state` or `W temperature / H height`, with `/` for
/// values not reported.
pub open spec fn spec_water_conditions(s: Seq<char>, p: int) -> Option<(int, WaterConditions)> {
    match spec_water_head(s, p) {
        None => None,
        Some((q, temperature)) => if at(s, q, 'S') && (at(s, q + 1, '/') || (0 <= q + 1 < s.len() && is_digit(s[q + 1]))) {
            Some((q + 2, WaterConditions {
                temperature,
                surface_state: if at(s, q + 1, '/') {
                    None
                } else {
                    Some(surface_state_of(s[q + 1]))
                },
                significant_wave_height: None,
            }))
        } else if at(s, q, 'H') {
            match spec_plus(s, q + 1, Class::Slash) {
                Some(r) => Some((r, WaterConditions { temperature, surface_state: None, significant_wave_height: None })),
                None => match spec_plus(s, q + 1, Class::Digit) {
                    Some(r) => Some((r, WaterConditions {
                        temperature,
                        surface_state: None,
                        significant_wave_height: Some(span(q + 1, r)),
                    })),
                    None => None,
                },
            }
        } else {
            None
        },
    }
}

pub fn color_state_at(s: &Vec<char>, p: usize) -> (r: Option<(usize, ColorState)>)
    requires
        p <= s.len(),
    ensures
        res_of(r) == spec_color_state(s@, p as int),
        r matches Some((q, _)) ==> p < q <= s.len(),
{
    if let Some(q) = lit(s, p, &['B', 'L', 'U', '+']) {
        Some((q, ColorState::BluePlus))
    } else if let Some(q) = lit(s, p, &['B', 'L', 'U']) {
        Some((q, ColorState::Blue))
    } else if let Some(q) = lit(s, p, &['W', 'H', 'T']) {
        Some((q, ColorState::White))
    } else if let Some(q) = lit(s, p, &['G', 'R', 'N']) {
        Some((q, ColorState::Green))
    } else if let Some(q) = lit(s, p, &['Y', 'L', 'O', '1']) {
        Some((q, ColorState::Yellow1))
    } else if let Some(q) = lit(s, p, &['Y', 'L', 'O', '2']) {
        Some((q, ColorState::Yellow2))
    } else if let Some(q) = lit(s, p, &['Y', 'L', 'O']) {
        Some((q, ColorState::Yellow))
    } else if let Some(q) = lit(s, p, &['A', 'M', 'B']) {
        Some((q, ColorState::Amber))
    } else if let Some(q) = lit(s, p, &['R', 'E', 'D']) {
        Some((q, ColorState::Red))
    } else {
        None
    }
}

pub fn color_at(s: &Vec<char>, p: usize) -> (r: Option<(usize, Color)>)
    requires
        p <= s.len(),
    ensures
        res_of(r) == spec_color(s@, p as int),
        r matches Some((q, _)) ==> p < q <= s.len(),
{
    let (p1, is_black) = match lit(s, p, &['B', 'L', 'A', 'C', 'K']) {
        Some(q) => (q, true),
        None => (p, false),
    };
    let (q1, current_color) = color_state_at(s, ws(s, p1))?;
    if let Some((q2, next)) = color_state_at(s, ws(s, q1)) {
        if ws_or_eof(s, q2).is_some() {
            return Some((q2, Color { is_black, current_color, next_color: Some(next) }));
        }
    }
    if ws_or_eof(s, q1).is_some() {
        Some((q1, Color { is_black, current_color, next_color: None }))
    } else {
        None
    }
}

fn surface_state(c: char) -> (r: WaterSurfaceState)
    ensures
        r == surface_state_of(c),
{
    if c == '0' {
        WaterSurfaceState::Glassy
    } else if c == '1' {
        WaterSurfaceState::Rippled
    } else if c == '2' {
        WaterSurfaceState::Wavelets
    } else if c == '3' {
        WaterSurfaceState::Slight
    } else if c == '4' {
        WaterSurfaceState::Moderate
    } else if c == '5' {
        WaterSurfaceState::Rough
    } else if c == '6' {
        WaterSurfaceState::VeryRough
    } else if c == '7' {
        WaterSurfaceState::High
    } else if c == '8' {
        WaterSurfaceState::VeryHigh
    } else {
        WaterSurfaceState::Phenomenal
    }
}

fn water_head_at(s: &Vec<char>, p: usize) -> (r: Option<(usize, Option<Span>)>)
    requires
        p <= s.len(),
    ensures
        res_of(r) == spec_water_head(s@, p as int),
        r matches Some((q, _)) ==> p < q <= s.len(),
{
    if !is_at(s, p, 'W') {
        return None;
    }
    let (q, temperature) = if lit(s, p + 1, &['/', '/']).is_some() {
        (p + 3, None)
    } else {
        let q = plus(s, p + 1, Class::Digit)?;
        (q, Some(Span { start: p + 1, end: q }))
    };
    if is_at(s, q, '/') {
        Some((q + 1, temperature))
    } else {
        None
    }
}

pub fn water_conditions_at(s: &Vec<char>, p: usize) -> (r: Option<(usize, WaterConditions)>)
    requires
        p <= s.len(),
    ensures
        res_of(r) == spec_water_conditions(s@, p as int),
        r matches Some((q, _)) ==> p < q <= s.len(),
{
    let (q, temperature) = water_head_at(s, p)?;
    if is_at(s, q, 'S') && (is_at(s, q + 1, '/') || (q + 1 < s.len() && '0' <= s[q + 1] && s[q + 1] <= '9')) {
        Some((q + 2, WaterConditions {
            temperature,
            surface_state: if is_at(s, q + 1, '/') {
                None
            } else {
                Some(surface_state(s[q + 1]))
            },
            significant_wave_height: None,
        }))
    } else if is_at(s, q, 'H') {
        match plus(s, q + 1, Class::Slash) {
            Some(r) => Some((r, WaterConditions { temperature, surface_state: None, significant_wave_height: None })),
            None => match plus(s, q + 1, Class::Digit) {
                Some(r) => Some((r, WaterConditions {
                    temperature,
                    surface_state: None,
                    significant_wave_height: Some(Span { start: q + 1, end: r }),
                })),
                None => None,
            },
        }
    } else {
        None
    }
}

} // verus!
