//! Cloud layers.

use vstd::prelude::*;
use crate::lex::{
    has_run, lit, num3, num4, plus, res_of, run_of, spec_lit, spec_plus, three_digits,
    four_digits, Class,
};
use crate::list::Element;
use crate::ws::{marks_ws, spec_ws, spec_ws_or_eof, ws, ws_marks, ws_or_eof};
use crate::lex::{scan, scan_class};
use crate::error::{digits_upto_marks, lit_marks, mark, marks_digits_upto, marks_lit, Marks, Token, Tracker};

verus! {

#[derive(Clone, Copy, PartialEq, Eq, Debug)]
pub enum CloudCoverage {
    /// `SKC`
    SkyClear,
    /// `CLR`
    Clear,
    /// `NCD`
    NoCloudDetected,
    /// `NSC`
    NoSignificantCloud,
    /// `FEW` or `FW`
    Few,
    /// `SCT` or `SC`
    Scattered,
    /// `BKN`
    Broken,
    /// `OVC`
    Overcast,
    /// `VV`
    VerticalVisibility,
}

#[derive(Clone, Copy, PartialEq, Eq, Debug)]
pub enum CloudType {
    /// `CB`
    Cumulonimbus,
    /// `TCU`
    ToweringCumulus,
    /// `CU`
    Cumulus,
    /// `CI`
    Cirrus,
    /// `AC`
    Altocumulus,
    /// `ST`
    Stratus,
}

/// A cloud layer.
#[derive(Clone, Copy, PartialEq, Eq, Debug)]
pub struct CloudCover {
    pub coverage: CloudCoverage,
    /// Height of the base in feet.
    pub base: Option<u32>,
    pub cloud_type: Option<CloudType>,
}

pub open spec fn spec_cloud_coverage(s: Seq<char>, p: int) -> Option<(int, CloudCoverage)> {
    if let Some(q) = spec_lit(s, p, seq!['S', 'K', 'C']) {
        Some((q, CloudCoverage::SkyClear))
    } else if let Some(q) = spec_lit(s, p, seq!['C', 'L', 'R']) {
        Some((q, CloudCoverage::Clear))
    } else if let Some(q) = spec_lit(s, p, seq!['N', 'C', 'D']) {
        Some((q, CloudCoverage::NoCloudDetected))
    } else if let Some(q) = spec_lit(s, p, seq!['N', 'S', 'C']) {
        Some((q, CloudCoverage::NoSignificantCloud))
    } else if let Some(q) = spec_lit(s, p, seq!['F', 'E', 'W']) {
        Some((q, CloudCoverage::Few))
    } else if let Some(q) = spec_lit(s, p, seq!['F', 'W']) {
        Some((q, CloudCoverage::Few))
    } else if let Some(q) = spec_lit(s, p, seq!['S', 'C', 'T']) {
        Some((q, CloudCoverage::Scattered))
    } else if let Some(q) = spec_lit(s, p, seq!['S', 'C']) {
        Some((q, CloudCoverage::Scattered))
    } else if let Some(q) = spec_lit(s, p, seq!['B', 'K', 'N']) {
        Some((q, CloudCoverage::Broken))
    } else if let Some(q) = spec_lit(s, p, seq!['O', 'V', 'C']) {
        Some((q, CloudCoverage::Overcast))
    } else if let Some(q) = spec_lit(s, p, seq!['V', 'V']) {
        Some((q, CloudCoverage::VerticalVisibility))
    } else {
        None
    }
}

/// A cloud type, or `///` for an unknown one (`Some(None)`).
pub open spec fn spec_cloud_type(s: Seq<char>, p: int) -> Option<(int, Option<CloudType>)> {
    if let Some(q) = spec_lit(s, p, seq!['C', 'B']) {
        Some((q, Some(CloudType::Cumulonimbus)))
    } else if let Some(q) = spec_lit(s, p, seq!['T', 'C', 'U']) {
        Some((q, Some(CloudType::ToweringCumulus)))
    } else if let Some(q) = spec_lit(s, p, seq!['C', 'U']) {
        Some((q, Some(CloudType::Cumulus)))
    } else if let Some(q) = spec_lit(s, p, seq!['C', 'I']) {
        Some((q, Some(CloudType::Cirrus)))
    } else if let Some(q) = spec_lit(s, p, seq!['A', 'C']) {
        Some((q, Some(CloudType::Altocumulus)))
    } else if let Some(q) = spec_lit(s, p, seq!['S', 'T']) {
        Some((q, Some(CloudType::Stratus)))
    } else if let Some(q) = spec_lit(s, p, seq!['/', '/', '/']) {
        Some((q, None))
    } else {
        None
    }
}

/// An optional cloud type; absent and unknown types both give `None`.
pub open spec fn spec_opt_cloud_type(s: Seq<char>, p: int) -> (int, Option<CloudType>) {
    match spec_cloud_type(s, p) {
        Some((q, t)) => (q, t),
        None => (p, None),
    }
}

/// Three or four digits: the base in hundreds of feet; the base in feet.
pub open spec fn spec_cloud_base(s: Seq<char>, p: int) -> Option<(int, u32)> {
    if run_of(s, p, 4, Class::Digit) {
        Some((p + 4, (100 * num4(s, p)) as u32))
    } else if run_of(s, p, 3, Class::Digit) {
        Some((p + 3, (100 * num3(s, p)) as u32))
    } else {
        None
    }
}

/// A cloud layer; `Some(None)` for slashes followed by a cloud type.
pub open spec fn spec_cloud_cover(s: Seq<char>, p: int) -> Option<(int, Option<CloudCover>)> {
    let slashes = match spec_plus(s, p, Class::Slash) {
        Some(q) => match spec_cloud_type(s, q) {
            Some((r, _)) => Some((r, None)),
            None => None,
        },
        None => None,
    };
    match slashes {
        Some(r) => Some(r),
        None => match spec_cloud_coverage(s, p) {
            None => None,
            Some((q1, coverage)) => {
                let p2 = spec_ws(s, q1);
                let unknown_base = match spec_lit(s, p2, seq!['/', '/', '/']) {
                    Some(p3) => {
                        let (p5, cloud_type) = spec_opt_cloud_type(s, spec_ws(s, p3));
                        Some((p5, Some(CloudCover { coverage, base: None, cloud_type })))
                    },
                    None => None,
                };
                match unknown_base {
                    Some(r) => Some(r),
                    None => match spec_cloud_base(s, p2) {
                        Some((q2, base)) => {
                            let p3 = spec_ws(s, q2);
                            let slashed_type = match spec_lit(s, p3, seq!['/', '/']) {
                                Some(p4) => match spec_ws_or_eof(s, p4) {
                                    Some(p5) => Some((p5, Some(CloudCover { coverage, base: Some(base), cloud_type: None }))),
                                    None => None,
                                },
                                None => None,
                            };
                            match slashed_type {
                                Some(r) => Some(r),
                                None => {
                                    let (p4, cloud_type) = spec_opt_cloud_type(s, p3);
                                    Some((p4, Some(CloudCover { coverage, base: Some(base), cloud_type })))
                                },
                            }
                        },
                        None => Some((q1, Some(CloudCover { coverage, base: None, cloud_type: None }))),
                    },
                }
            },
        },
    }
}

fn cloud_coverage_at(s: &Vec<char>, p: usize) -> (r: Option<(usize, CloudCoverage)>)
    requires
        p <= s.len(),
    ensures
        res_of(r) == spec_cloud_coverage(s@, p as int),
        r matches Some((q, _)) ==> p < q <= s.len(),
{
    if let Some(q) = lit(s, p, &['S', 'K', 'C']) {
        Some((q, CloudCoverage::SkyClear))
    } else if let Some(q) = lit(s, p, &['C', 'L', 'R']) {
        Some((q, CloudCoverage::Clear))
    } else if let Some(q) = lit(s, p, &['N', 'C', 'D']) {
        Some((q, CloudCoverage::NoCloudDetected))
    } else if let Some(q) = lit(s, p, &['N', 'S', 'C']) {
        Some((q, CloudCoverage::NoSignificantCloud))
    } else if let Some(q) = lit(s, p, &['F', 'E', 'W']) {
        Some((q, CloudCoverage::Few))
    } else if let Some(q) = lit(s, p, &['F', 'W']) {
        Some((q, CloudCoverage::Few))
    } else if let Some(q) = lit(s, p, &['S', 'C', 'T']) {
        Some((q, CloudCoverage::Scattered))
    } else if let Some(q) = lit(s, p, &['S', 'C']) {
        Some((q, CloudCoverage::Scattered))
    } else if let Some(q) = lit(s, p, &['B', 'K', 'N']) {
        Some((q, CloudCoverage::Broken))
    } else if let Some(q) = lit(s, p, &['O', 'V', 'C']) {
        Some((q, CloudCoverage::Overcast))
    } else if let Some(q) = lit(s, p, &['V', 'V']) {
        Some((q, CloudCoverage::VerticalVisibility))
    } else {
        None
    }
}

fn cloud_type_at(s: &Vec<char>, p: usize) -> (r: Option<(usize, Option<CloudType>)>)
    requires
        p <= s.len(),
    ensures
        res_of(r) == spec_cloud_type(s@, p as int),
        r matches Some((q, _)) ==> p < q <= s.len(),
{
    if let Some(q) = lit(s, p, &['C', 'B']) {
        Some((q, Some(CloudType::Cumulonimbus)))
    } else if let Some(q) = lit(s, p, &['T', 'C', 'U']) {
        Some((q, Some(CloudType::ToweringCumulus)))
    } else if let Some(q) = lit(s, p, &['C', 'U']) {
        Some((q, Some(CloudType::Cumulus)))
    } else if let Some(q) = lit(s, p, &['C', 'I']) {
        Some((q, Some(CloudType::Cirrus)))
    } else if let Some(q) = lit(s, p, &['A', 'C']) {
        Some((q, Some(CloudType::Altocumulus)))
    } else if let Some(q) = lit(s, p, &['S', 'T']) {
        Some((q, Some(CloudType::Stratus)))
    } else if let Some(q) = lit(s, p, &['/', '/', '/']) {
        Some((q, None))
    } else {
        None
    }
}

fn opt_cloud_type_at(s: &Vec<char>, p: usize) -> (r: (usize, Option<CloudType>))
    requires
        p <= s.len(),
    ensures
        (r.0 as int, r.1) == spec_opt_cloud_type(s@, p as int),
        p <= r.0 <= s.len(),
{
    match cloud_type_at(s, p) {
        Some((q, t)) => (q, t),
        None => (p, None),
    }
}

fn cloud_base_at(s: &Vec<char>, p: usize) -> (r: Option<(usize, u32)>)
    requires
        p <= s.len(),
    ensures
        res_of(r) == spec_cloud_base(s@, p as int),
        r matches Some((q, _)) ==> p < q <= s.len(),
{
    if has_run(s, p, 4, Class::Digit) {
        let v = four_digits(s, p);
        Some((p + 4, 100 * (v as u32)))
    } else if has_run(s, p, 3, Class::Digit) {
        let v = three_digits(s, p);
        assert(v <= 999) by {
            assert(crate::lex::is_digit(s@[p as int]) && crate::lex::is_digit(s@[p + 1]) && crate::lex::is_digit(s@[p + 2]));
        }
        Some((p + 3, 100 * (v as u32)))
    } else {
        None
    }
}

pub fn cloud_cover_at(s: &Vec<char>, p: usize) -> (r: Option<(usize, Option<CloudCover>)>)
    requires
        p <= s.len(),
    ensures
        res_of(r) == spec_cloud_cover(s@, p as int),
        r matches Some((q, _)) ==> p < q <= s.len(),
{
    if let Some(q) = plus(s, p, Class::Slash) {
        if let Some((r, _)) = cloud_type_at(s, q) {
            return Some((r, None));
        }
    }
    let (q1, coverage) = cloud_coverage_at(s, p)?;
    let p2 = ws(s, q1);
    if let Some(p3) = lit(s, p2, &['/', '/', '/']) {
        let (p5, cloud_type) = opt_cloud_type_at(s, ws(s, p3));
        return Some((p5, Some(CloudCover { coverage, base: None, cloud_type })));
    }
    match cloud_base_at(s, p2) {
        Some((q2, base)) => {
            let p3 = ws(s, q2);
            if let Some(p4) = lit(s, p3, &['/', '/']) {
                if let Some(p5) = ws_or_eof(s, p4) {
                    return Some((p5, Some(CloudCover { coverage, base: Some(base), cloud_type: None })));
                }
            }
            let (p4, cloud_type) = opt_cloud_type_at(s, p3);
            Some((p4, Some(CloudCover { coverage, base: Some(base), cloud_type })))
        },
        None => Some((q1, Some(CloudCover { coverage, base: None, cloud_type: None }))),
    }
}

impl Element for Option<CloudCover> {
    type Spec = Option<CloudCover>;

    open spec fn spec_of(&self) -> Option<CloudCover> {
        *self
    }

    open spec fn spec_parse(s: Seq<char>, p: int) -> Option<(int, Option<CloudCover>)> {
        spec_cloud_cover(s, p)
    }

    fn parse(s: &Vec<char>, p: usize) -> (r: Option<(usize, Option<CloudCover>)>) {
        cloud_cover_at(s, p)
    }
}

/// Marks of `cloud_type` at `p`: the named types fail together, then `///`.
pub open spec fn marks_cloud_type(s: Seq<char>, p: int, m: Marks) -> Marks {
    match spec_cloud_type(s, p) {
        Some((_, Some(_))) => m,
        Some((_, None)) => mark(m, p, Token::CloudType),
        None => mark(mark(m, p, Token::CloudType), p, Token::Slash3),
    }
}

/// Marks of `cloud_cover` at `p`. Alternatives that repeat the coverage, the
/// whitespace or the base of an earlier one mark nothing new there.
pub open spec fn marks_cloud_cover(s: Seq<char>, p: int, m: Marks) -> Marks {
    let q = scan(s, p, Class::Slash);
    let m1 = mark(m, q, Token::Slash);
    let m2 = if q > p {
        marks_cloud_type(s, q, m1)
    } else {
        m1
    };
    if q > p && spec_cloud_type(s, q) is Some {
        m2
    } else {
        match spec_cloud_coverage(s, p) {
            None => mark(m2, p, Token::CloudCoverage),
            Some((q1, _)) => {
                let m3 = marks_ws(s, q1, m2);
                let p2 = spec_ws(s, q1);
                let m4 = marks_lit(s, p2, seq!['/', '/', '/'], Token::Slash3, m3);
                match spec_lit(s, p2, seq!['/', '/', '/']) {
                    Some(p3) => marks_cloud_type(s, spec_ws(s, p3), marks_ws(s, p3, m4)),
                    None => {
                        let m5 = marks_digits_upto(s, p2, 4, m4);
                        match spec_cloud_base(s, p2) {
                            None => m5,
                            Some((q2, _)) => {
                                let m6 = marks_ws(s, q2, m5);
                                let p3 = spec_ws(s, q2);
                                let m7 = marks_lit(s, p3, seq!['/', '/'], Token::Slash2, m6);
                                match spec_lit(s, p3, seq!['/', '/']) {
                                    Some(p4) => {
                                        let m8 = marks_ws(s, p4, m7);
                                        if spec_ws_or_eof(s, p4) is Some {
                                            m8
                                        } else {
                                            marks_cloud_type(s, p3, m8)
                                        }
                                    },
                                    None => marks_cloud_type(s, p3, m7),
                                }
                            },
                        }
                    },
                }
            },
        }
    }
}

fn cloud_type_marks(s: &Vec<char>, p: usize, tr: &mut Tracker)
    requires
        p <= s.len(),
    ensures
        final(tr)@ == marks_cloud_type(s@, p as int, old(tr)@),
{
    match cloud_type_at(s, p) {
        Some((_, Some(_))) => {},
        Some((_, None)) => tr.mark(p, Token::CloudType),
        None => {
            tr.mark(p, Token::CloudType);
            tr.mark(p, Token::Slash3);
        },
    }
}

pub fn cloud_cover_marks(s: &Vec<char>, p: usize, tr: &mut Tracker)
    requires
        p <= s.len(),
    ensures
        final(tr)@ == marks_cloud_cover(s@, p as int, old(tr)@),
{
    let q = scan_class(s, p, Class::Slash);
    tr.mark(q, Token::Slash);
    if q > p {
        cloud_type_marks(s, q, tr);
        if cloud_type_at(s, q).is_some() {
            return;
        }
    }
    match cloud_coverage_at(s, p) {
        None => tr.mark(p, Token::CloudCoverage),
        Some((q1, _)) => {
            ws_marks(s, q1, tr);
            let p2 = ws(s, q1);
            lit_marks(s, p2, &['/', '/', '/'], Token::Slash3, tr);
            match lit(s, p2, &['/', '/', '/']) {
                Some(p3) => {
                    ws_marks(s, p3, tr);
                    let p4 = ws(s, p3);
                    cloud_type_marks(s, p4, tr);
                },
                None => {
                    digits_upto_marks(s, p2, 4, tr);
                    if let Some((q2, _)) = cloud_base_at(s, p2) {
                        ws_marks(s, q2, tr);
                        let p3 = ws(s, q2);
                        lit_marks(s, p3, &['/', '/'], Token::Slash2, tr);
                        match lit(s, p3, &['/', '/']) {
                            Some(p4) => {
                                ws_marks(s, p4, tr);
                                if ws_or_eof(s, p4).is_none() {
                                    cloud_type_marks(s, p3, tr);
                                }
                            },
                            None => cloud_type_marks(s, p3, tr),
                        }
                    }
                },
            }
        },
    }
}

} // verus!
