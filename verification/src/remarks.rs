//! The remarks section of a report (after `RMK`).

use vstd::prelude::*;
use vstd::string::{StrSliceExecFns, StringExecFns};
use crate::lex::{
    is_at, lit, num3, plus, res_of, run_of, scan, scan_class, span, spec_lit,
    spec_plus, three_digits, to_chars, Class, Span,
};
use crate::error::{
    digits_marks, lit_marks, mark, mark_if, marks_digits, marks_lit, no_marks, outcome, refusal, Marks,
    ParseError, SpecParseError, Token, Tracker,
};
use crate::list::{marks_sep_list, parse_sep_list, sep_list, sep_list_marks, sep_tail, specs, Element, Marked};
use crate::ws::{required_ws, spec_required_ws};

verus! {

/// The sea level pressure remark (`SLPddd`).
#[derive(Clone, PartialEq, Debug)]
pub enum SeaLevelPressure {
    /// Three digits: tenths of hectopascals without the leading `9` or `10`.
    TenthsOfHectopascal(u16),
    /// Any other number of digits: the digits, in hectopascals.
    Hectopascals(String),
}

/// The remarks of a report.
#[derive(Clone, PartialEq, Debug)]
pub struct Remarks {
    pub sea_level_pressure: Option<SeaLevelPressure>,
    pub unknown_remarks: Vec<String>,
}

pub enum SpecSeaLevelPressure {
    TenthsOfHectopascal(u16),
    Hectopascals(Seq<char>),
}

pub struct SpecRemarks {
    pub sea_level_pressure: Option<SpecSeaLevelPressure>,
    pub unknown_remarks: Seq<Seq<char>>,
}

impl View for SeaLevelPressure {
    type V = SpecSeaLevelPressure;

    open spec fn view(&self) -> SpecSeaLevelPressure {
        match self {
            SeaLevelPressure::TenthsOfHectopascal(t) => SpecSeaLevelPressure::TenthsOfHectopascal(*t),
            SeaLevelPressure::Hectopascals(d) => SpecSeaLevelPressure::Hectopascals(d@),
        }
    }
}

impl View for Remarks {
    type V = SpecRemarks;

    open spec fn view(&self) -> SpecRemarks {
        SpecRemarks {
            sea_level_pressure: match self.sea_level_pressure {
                Some(p) => Some(p@),
                None => None,
            },
            unknown_remarks: self.unknown_remarks@.map_values(|u: String| u@),
        }
    }
}

/// One remark: a sea level pressure (its digits) or any other remark (its text).
#[derive(Clone, Copy, PartialEq, Eq, Debug)]
pub enum RemarkEntry {
    SeaLevelPressure(Span),
    Unknown(Span),
}

/// `:RMK`, `R MK`, `RMK` or `REMARK`.
pub open spec fn spec_remark_prefix(s: Seq<char>, p: int) -> Option<int> {
    if let Some(q) = spec_lit(s, p, seq![':', 'R', 'M', 'K']) {
        Some(q)
    } else if let Some(q) = spec_lit(s, p, seq!['R', ' ', 'M', 'K']) {
        Some(q)
    } else if let Some(q) = spec_lit(s, p, seq!['R', 'M', 'K']) {
        Some(q)
    } else {
        spec_lit(s, p, seq!['R', 'E', 'M', 'A', 'R', 'K'])
    }
}

/// Greedy repetition of required whitespace.
pub open spec fn required_ws_repeat(s: Seq<char>, p: int) -> int
    decreases s.len() - p,
{
    match spec_required_ws(s, p) {
        Some(q) => if p < q <= s.len() {
            required_ws_repeat(s, q)
        } else {
            p
        },
        None => p,
    }
}

/// `SLP` and digits, or a run of capital letters, digits and `/`.
pub open spec fn spec_remark(s: Seq<char>, p: int) -> Option<(int, RemarkEntry)> {
    if spec_lit(s, p, seq!['S', 'L', 'P']) is Some && spec_plus(s, p + 3, Class::Digit) is Some {
        match spec_plus(s, p + 3, Class::Digit) {
            Some(q) => Some((q, RemarkEntry::SeaLevelPressure(span(p + 3, q)))),
            None => None,
        }
    } else {
        match spec_plus(s, p, Class::RemarkChar) {
            Some(q) => Some((q, RemarkEntry::Unknown(span(p, q)))),
            None => None,
        }
    }
}

/// The remarks section: a prefix, whitespace, remarks separated by whitespace,
/// and an optional `=`; the end and the remarks.
pub open spec fn spec_remarks_section(s: Seq<char>, p: int) -> Option<(int, Seq<RemarkEntry>)> {
    match spec_remark_prefix(s, p) {
        None => None,
        Some(q1) => match spec_required_ws(s, q1) {
            None => None,
            Some(q2) => {
                let q3 = required_ws_repeat(s, q2);
                let (q4, entries) = sep_list::<RemarkEntry>(s, q3, true);
                let q5 = if crate::lex::at(s, q4, '=') {
                    q4 + 1
                } else {
                    q4
                };
                Some((q5, entries))
            },
        },
    }
}

/// The digits of the last sea level pressure remark.
pub open spec fn last_sea_level_pressure(entries: Seq<RemarkEntry>) -> Option<Span>
    decreases entries.len(),
{
    if entries.len() == 0 {
        None
    } else {
        match entries.last() {
            RemarkEntry::SeaLevelPressure(d) => Some(d),
            RemarkEntry::Unknown(_) => last_sea_level_pressure(entries.drop_last()),
        }
    }
}

/// The spans of the other remarks, in order.
pub open spec fn unknown_spans(entries: Seq<RemarkEntry>) -> Seq<Span>
    decreases entries.len(),
{
    if entries.len() == 0 {
        seq![]
    } else {
        let rest = unknown_spans(entries.drop_last());
        match entries.last() {
            RemarkEntry::SeaLevelPressure(_) => rest,
            RemarkEntry::Unknown(u) => rest.push(u),
        }
    }
}

/// The tenths of hectopascals that a three-digit sea level pressure `n` stands
/// for: 1000 hPa and up below 500, 900 hPa and up from 500.
pub open spec fn tenths_of(n: int) -> int {
    if n < 500 {
        10000 + n
    } else {
        9000 + n
    }
}

/// The pressure that the digits `d` of a sea level pressure remark stand for.
pub open spec fn sea_level_pressure_of(t: Seq<char>, d: Span) -> SpecSeaLevelPressure {
    if d.end - d.start == 3 {
        SpecSeaLevelPressure::TenthsOfHectopascal(tenths_of(num3(t, d.start as int)) as u16)
    } else {
        SpecSeaLevelPressure::Hectopascals(t.subrange(d.start as int, d.end as int))
    }
}

/// The remarks that `entries`, found in `t`, stand for.
pub open spec fn remarks_of(t: Seq<char>, entries: Seq<RemarkEntry>) -> SpecRemarks {
    SpecRemarks {
        sea_level_pressure: match last_sea_level_pressure(entries) {
            Some(d) => Some(sea_level_pressure_of(t, d)),
            None => None,
        },
        unknown_remarks: unknown_spans(entries).map_values(|u: Span| t.subrange(u.start as int, u.end as int)),
    }
}

/// The remarks section read from the whole of `t`.
pub open spec fn spec_remarks(t: Seq<char>) -> Result<SpecRemarks, SpecParseError> {
    match outcome(t, spec_remarks_section(t, 0), marks_remarks_section(t, 0, no_marks())) {
        Ok(entries) => Ok(remarks_of(t, entries)),
        Err(e) => Err(e),
    }
}

/// Marks of a remark at `p`: `SLP` and its digits; failing that, the run of
/// letters, digits and `/`, whose end fails all three.
pub open spec fn marks_remark(s: Seq<char>, p: int, m: Marks) -> Marks {
    let slp = spec_lit(s, p, seq!['S', 'L', 'P']) is Some;
    let m1 = marks_lit(s, p, seq!['S', 'L', 'P'], Token::Slp, m);
    let m2 = if slp {
        marks_digits(s, p + 3, m1)
    } else {
        m1
    };
    if slp && spec_plus(s, p + 3, Class::Digit) is Some {
        m2
    } else {
        let e = scan(s, p, Class::RemarkChar);
        mark(mark(mark(m2, e, Token::Letter), e, Token::Digit), e, Token::Slash)
    }
}

/// Marks of the remarks section at `p`: the prefix, the whitespace after it
/// (whose repetition fails at its end), the remarks and the closing `=`.
pub open spec fn marks_remarks_section(s: Seq<char>, p: int, m: Marks) -> Marks {
    match spec_remark_prefix(s, p) {
        None => mark(m, p, Token::RemarkPrefix),
        Some(q1) => match spec_required_ws(s, q1) {
            None => mark(m, q1, Token::Whitespace),
            Some(q2) => {
                let q3 = required_ws_repeat(s, q2);
                let m1 = marks_sep_list::<RemarkEntry>(s, q3, true, mark(m, q3, Token::Whitespace));
                let q4 = sep_list::<RemarkEntry>(s, q3, true).0;
                mark_if(m1, !crate::lex::at(s, q4, '='), q4, Token::Equals)
            },
        },
    }
}

pub fn remark_prefix_at(s: &Vec<char>, p: usize) -> (r: Option<usize>)
    requires
        p <= s.len(),
    ensures
        match r {
            Some(q) => spec_remark_prefix(s@, p as int) == Some(q as int) && p < q <= s.len(),
            None => spec_remark_prefix(s@, p as int) is None,
        },
{
    if let Some(q) = lit(s, p, &[':', 'R', 'M', 'K']) {
        Some(q)
    } else if let Some(q) = lit(s, p, &['R', ' ', 'M', 'K']) {
        Some(q)
    } else if let Some(q) = lit(s, p, &['R', 'M', 'K']) {
        Some(q)
    } else {
        lit(s, p, &['R', 'E', 'M', 'A', 'R', 'K'])
    }
}

fn required_ws_repeat_at(s: &Vec<char>, p: usize) -> (q: usize)
    requires
        p <= s.len(),
    ensures
        q as int == required_ws_repeat(s@, p as int),
        p <= q <= s.len(),
{
    let mut q = p;
    loop
        invariant
            p <= q <= s.len(),
            required_ws_repeat(s@, p as int) == required_ws_repeat(s@, q as int),
        decreases s.len() - q,
    {
        match required_ws(s, q) {
            Some(n) => {
                q = n;
            },
            None => {
                return q;
            },
        }
    }
}

fn remark_at(s: &Vec<char>, p: usize) -> (r: Option<(usize, RemarkEntry)>)
    requires
        p <= s.len(),
    ensures
        res_of(r) == spec_remark(s@, p as int),
        r matches Some((q, _)) ==> p < q <= s.len(),
{
    if lit(s, p, &['S', 'L', 'P']).is_some() {
        if let Some(q) = plus(s, p + 3, Class::Digit) {
            return Some((q, RemarkEntry::SeaLevelPressure(Span { start: p + 3, end: q })));
        }
    }
    let q = plus(s, p, Class::RemarkChar)?;
    Some((q, RemarkEntry::Unknown(Span { start: p, end: q })))
}

impl Element for RemarkEntry {
    type Spec = RemarkEntry;

    open spec fn spec_of(&self) -> RemarkEntry {
        *self
    }

    open spec fn spec_parse(s: Seq<char>, p: int) -> Option<(int, RemarkEntry)> {
        spec_remark(s, p)
    }

    fn parse(s: &Vec<char>, p: usize) -> (r: Option<(usize, RemarkEntry)>) {
        remark_at(s, p)
    }
}

impl Marked for RemarkEntry {
    open spec fn spec_marks(s: Seq<char>, p: int, m: Marks) -> Marks {
        marks_remark(s, p, m)
    }

    fn marks(s: &Vec<char>, p: usize, tr: &mut Tracker) {
        let slp = lit(s, p, &['S', 'L', 'P']).is_some();
        lit_marks(s, p, &['S', 'L', 'P'], Token::Slp, tr);
        if slp {
            digits_marks(s, p + 3, tr);
        }
        if !(slp && plus(s, p + 3, Class::Digit).is_some()) {
            let e = scan_class(s, p, Class::RemarkChar);
            tr.mark(e, Token::Letter);
            tr.mark(e, Token::Digit);
            tr.mark(e, Token::Slash);
        }
    }
}

fn remarks_section_marks(s: &Vec<char>, p: usize, tr: &mut Tracker)
    requires
        p <= s.len(),
    ensures
        final(tr)@ == marks_remarks_section(s@, p as int, old(tr)@),
{
    match remark_prefix_at(s, p) {
        None => tr.mark(p, Token::RemarkPrefix),
        Some(q1) => match required_ws(s, q1) {
            None => tr.mark(q1, Token::Whitespace),
            Some(q2) => {
                let q3 = required_ws_repeat_at(s, q2);
                tr.mark(q3, Token::Whitespace);
                sep_list_marks::<RemarkEntry>(s, q3, true, tr);
                let (q4, _) = parse_sep_list::<RemarkEntry>(s, q3, true);
                tr.mark_if(!is_at(s, q4, '='), q4, Token::Equals);
            },
        },
    }
}

pub fn remarks_section_at(s: &Vec<char>, p: usize) -> (r: Option<(usize, Vec<RemarkEntry>)>)
    requires
        p <= s.len(),
    ensures
        match r {
            Some((q, v)) => spec_remarks_section(s@, p as int) == Some((q as int, v@)) && p < q <= s.len(),
            None => spec_remarks_section(s@, p as int) is None,
        },
{
    let q1 = remark_prefix_at(s, p)?;
    let q2 = required_ws(s, q1)?;
    let q3 = required_ws_repeat_at(s, q2);
    let (q4, entries) = parse_sep_list::<RemarkEntry>(s, q3, true);
    assert(specs(entries@) =~= entries@);
    let q5 = if is_at(s, q4, '=') {
        q4 + 1
    } else {
        q4
    };
    Some((q5, entries))
}

/// Decodes the digits `d` of a sea level pressure remark in `input`.
fn sea_level_pressure(input: &str, s: &Vec<char>, d: Span) -> (r: SeaLevelPressure)
    requires
        s@ == input@,
        d.start <= d.end <= s.len(),
        forall|i: int| d.start <= i < d.end ==> crate::lex::is_digit(#[trigger] s@[i]),
    ensures
        r@ == sea_level_pressure_of(s@, d),
{
    if d.end - d.start == 3 {
        assert(run_of(s@, d.start as int, 3, Class::Digit));
        let n = three_digits(s, d.start);
        assert(n <= 999) by {
            assert(crate::lex::is_digit(s@[d.start as int]) && crate::lex::is_digit(s@[d.start + 1])
                && crate::lex::is_digit(s@[d.start + 2]));
        }
        let t = if n < 500 {
            10000 + n
        } else {
            9000 + n
        };
        SeaLevelPressure::TenthsOfHectopascal(t)
    } else {
        SeaLevelPressure::Hectopascals(String::from_str(input.substring_char(d.start, d.end)))
    }
}

/// A remark whose spans lie in `s`, with digits for a sea level pressure.
pub open spec fn entry_ok(s: Seq<char>, e: RemarkEntry) -> bool {
    match e {
        RemarkEntry::SeaLevelPressure(d) => d.start <= d.end <= s.len() && forall|i: int|
            d.start <= i < d.end ==> crate::lex::is_digit(#[trigger] s[i]),
        RemarkEntry::Unknown(u) => u.start <= u.end <= s.len(),
    }
}

proof fn lemma_remark_ok(s: Seq<char>, p: int)
    requires
        0 <= p <= s.len() <= usize::MAX,
    ensures
        spec_remark(s, p) matches Some((q, e)) ==> entry_ok(s, e),
{
    crate::lex::lemma_scan(s, p, Class::RemarkChar);
    if p + 3 <= s.len() {
        crate::lex::lemma_scan(s, p + 3, Class::Digit);
    }
}

proof fn lemma_tail_ok(s: Seq<char>, p: int)
    requires
        0 <= p <= s.len() <= usize::MAX,
    ensures
        forall|i: int| 0 <= i < sep_tail::<RemarkEntry>(s, p, true).1.len() ==> entry_ok(s, #[trigger] sep_tail::<RemarkEntry>(s, p, true).1[i]),
    decreases s.len() - p,
{
    crate::ws::lemma_ws(s, p);
    if let Some(a) = spec_required_ws(s, p) {
        lemma_remark_ok(s, a);
        if let Some((q, v)) = spec_remark(s, a) {
            if p < q <= s.len() {
                lemma_tail_ok(s, q);
                let vs = sep_tail::<RemarkEntry>(s, q, true).1;
                assert forall|i: int| 0 <= i < (seq![v] + vs).len() implies entry_ok(s, #[trigger] (seq![v] + vs)[i]) by {
                    if i > 0 {
                        assert((seq![v] + vs)[i] == vs[i - 1]);
                    }
                }
            }
        }
    }
}

/// Every remark in a parsed list lies in the input.
proof fn lemma_entries_ok(s: Seq<char>, p: int)
    requires
        0 <= p <= s.len() <= usize::MAX,
    ensures
        forall|i: int| 0 <= i < sep_list::<RemarkEntry>(s, p, true).1.len() ==> entry_ok(s, #[trigger] sep_list::<RemarkEntry>(s, p, true).1[i]),
{
    lemma_remark_ok(s, p);
    if let Some((q, v)) = spec_remark(s, p) {
        if p < q <= s.len() {
            lemma_tail_ok(s, q);
            let vs = sep_tail::<RemarkEntry>(s, q, true).1;
            assert forall|i: int| 0 <= i < (seq![v] + vs).len() implies entry_ok(s, #[trigger] (seq![v] + vs)[i]) by {
                if i > 0 {
                    assert((seq![v] + vs)[i] == vs[i - 1]);
                }
            }
        }
    }
}

proof fn lemma_required_ws_repeat(s: Seq<char>, p: int)
    requires
        0 <= p <= s.len(),
    ensures
        p <= required_ws_repeat(s, p) <= s.len(),
    decreases s.len() - p,
{
    crate::ws::lemma_ws(s, p);
    if let Some(q) = spec_required_ws(s, p) {
        lemma_required_ws_repeat(s, q);
    }
}

/// Every remark of a parsed section lies in the input.
proof fn lemma_section_ok(s: Seq<char>, p: int)
    requires
        0 <= p <= s.len() <= usize::MAX,
    ensures
        spec_remarks_section(s, p) matches Some((q, es)) ==> forall|i: int| 0 <= i < es.len() ==> entry_ok(s, #[trigger] es[i]),
{
    if let Some(q1) = spec_remark_prefix(s, p) {
        if let Some(q2) = spec_required_ws(s, q1) {
            crate::ws::lemma_ws(s, q1);
            lemma_required_ws_repeat(s, q2);
            lemma_entries_ok(s, required_ws_repeat(s, q2));
        }
    }
}

/// The remarks that `entries`, found in `input`, stand for.
fn build_remarks(input: &str, s: &Vec<char>, entries: &Vec<RemarkEntry>) -> (r: Remarks)
    requires
        s@ == input@,
        forall|i: int| 0 <= i < entries@.len() ==> entry_ok(s@, #[trigger] entries@[i]),
    ensures
        r@ == remarks_of(s@, entries@),
{
    let mut sea_level: Option<SeaLevelPressure> = None;
    let mut unknown: Vec<String> = Vec::new();
    let mut i: usize = 0;
    while i < entries.len()
        invariant
            i <= entries.len(),
            s@ == input@,
            forall|k: int| 0 <= k < entries@.len() ==> entry_ok(s@, #[trigger] entries@[k]),
            ({
                let prefix = entries@.subrange(0, i as int);
                &&& match last_sea_level_pressure(prefix) {
                    Some(d) => sea_level matches Some(p) && p@ == sea_level_pressure_of(s@, d),
                    None => sea_level is None,
                }
                &&& unknown@.map_values(|u: String| u@) == unknown_spans(prefix).map_values(
                    |u: Span| s@.subrange(u.start as int, u.end as int),
                )
            }),
        decreases entries.len() - i,
    {
        let ghost prev_unknown = unknown@;
        assert(entries@.subrange(0, i + 1).drop_last() =~= entries@.subrange(0, i as int));
        assert(entries@.subrange(0, i + 1).last() == entries@[i as int]);
        assert(entry_ok(s@, entries@[i as int]));
        match entries[i] {
            RemarkEntry::SeaLevelPressure(d) => {
                sea_level = Some(sea_level_pressure(input, s, d));
            },
            RemarkEntry::Unknown(u) => {
                let text = String::from_str(input.substring_char(u.start, u.end));
                unknown.push(text);
                proof {
                    let prefix = entries@.subrange(0, i as int);
                    assert(unknown@.map_values(|u: String| u@) =~= prev_unknown.map_values(
                        |u: String| u@,
                    ).push(s@.subrange(u.start as int, u.end as int)));
                    assert(unknown_spans(prefix).push(u).map_values(
                        |u: Span| s@.subrange(u.start as int, u.end as int),
                    ) =~= unknown_spans(prefix).map_values(
                        |u: Span| s@.subrange(u.start as int, u.end as int),
                    ).push(s@.subrange(u.start as int, u.end as int)));
                }
            },
        }
        i += 1;
    }
    assert(entries@.subrange(0, i as int) =~= entries@);
    Remarks { sea_level_pressure: sea_level, unknown_remarks: unknown }
}

/// Parses a remarks section (such as `RMK AO2 SLP132`) that makes up the whole
/// input.
pub fn remarks(input: &str) -> (r: Result<Remarks, ParseError>)
    ensures
        match r {
            Ok(v) => spec_remarks(input@) == Ok::<SpecRemarks, SpecParseError>(v@),
            Err(e) => spec_remarks(input@) == Err::<SpecRemarks, SpecParseError>(e@),
        },
{
    let s = to_chars(input);
    let mut tr = Tracker::new();
    remarks_section_marks(&s, 0, &mut tr);
    let section = remarks_section_at(&s, 0);
    match section {
        Some((q, entries)) => {
            if q == s.len() {
                proof {
                    lemma_section_ok(s@, 0);
                }
                Ok(build_remarks(input, &s, &entries))
            } else {
                tr.mark(q, Token::Eof);
                Err(refusal(input, &s, &tr))
            }
        },
        None => Err(refusal(input, &s, &tr)),
    }
}

} // verus!
