//! Whitespace between report groups. Besides blanks, tabs, line breaks and `>`,
//! reports may carry runs of `/` or single `M` characters between blanks; the
//! grammar swallows those as whitespace too.

use vstd::prelude::*;
use crate::lex::{at, is_at, pos_of, scan, scan_class, Class};
use crate::error::{mark_if, Marks, Token, Tracker};

verus! {

/// One whitespace character: ` `, `\r\n`, `\n`, `\t` or `>`.
pub open spec fn spec_ws_char(s: Seq<char>, p: int) -> Option<int> {
    if at(s, p, ' ') {
        Some(p + 1)
    } else if at(s, p, '\r') && at(s, p + 1, '\n') {
        Some(p + 2)
    } else if at(s, p, '\n') || at(s, p, '\t') || at(s, p, '>') {
        Some(p + 1)
    } else {
        None
    }
}

/// End of the longest run of whitespace characters from `p`.
pub open spec fn ws_run(s: Seq<char>, p: int) -> int
    decreases s.len() - p,
{
    match spec_ws_char(s, p) {
        Some(q) => ws_run(s, q),
        None => p,
    }
}

/// One or more whitespace characters.
pub open spec fn spec_ws_plus(s: Seq<char>, p: int) -> Option<int> {
    let q = ws_run(s, p);
    if q > p {
        Some(q)
    } else {
        None
    }
}

/// `"/"+ whitespace_char()+`, when `filler` is `/`; `"M" whitespace_char()+`
/// when it is `M`.
pub open spec fn spec_filler_group(s: Seq<char>, p: int, filler: char) -> Option<int> {
    let q = if filler == '/' {
        scan(s, p, Class::Slash)
    } else if at(s, p, filler) {
        p + 1
    } else {
        p
    };
    if q > p {
        spec_ws_plus(s, q)
    } else {
        None
    }
}

/// Greedy repetition of `spec_filler_group`.
pub open spec fn filler_groups(s: Seq<char>, p: int, filler: char) -> int
    decreases s.len() - p,
{
    match spec_filler_group(s, p, filler) {
        Some(q) => if p < q <= s.len() {
            filler_groups(s, q, filler)
        } else {
            p
        },
        None => p,
    }
}

/// One unit of required whitespace:
/// `(ws+ ("/"+ ws+)+) / (ws+ ("M" ws+)+) / ws+`.
pub open spec fn spec_ws_unit(s: Seq<char>, p: int) -> Option<int> {
    match spec_ws_plus(s, p) {
        None => None,
        Some(q) => {
            let a = filler_groups(s, q, '/');
            if a > q {
                Some(a)
            } else {
                Some(filler_groups(s, q, 'M'))
            }
        },
    }
}

/// Greedy repetition of `spec_ws_unit`.
pub open spec fn ws_units(s: Seq<char>, p: int) -> int
    decreases s.len() - p,
{
    match spec_ws_unit(s, p) {
        Some(q) => if p < q <= s.len() {
            ws_units(s, q)
        } else {
            p
        },
        None => p,
    }
}

/// `required_whitespace`: one or more whitespace units.
pub open spec fn spec_required_ws(s: Seq<char>, p: int) -> Option<int> {
    match spec_ws_unit(s, p) {
        None => None,
        Some(q) => Some(ws_units(s, q)),
    }
}

/// `whitespace`: optional required whitespace; always succeeds.
pub open spec fn spec_ws(s: Seq<char>, p: int) -> int {
    match spec_required_ws(s, p) {
        Some(q) => q,
        None => p,
    }
}

/// Required whitespace, or the end of the input.
pub open spec fn spec_ws_or_eof(s: Seq<char>, p: int) -> Option<int> {
    match spec_required_ws(s, p) {
        Some(q) => Some(q),
        None => if p >= s.len() {
            Some(p)
        } else {
            None
        },
    }
}

pub proof fn lemma_ws_run(s: Seq<char>, p: int)
    requires
        0 <= p <= s.len(),
    ensures
        p <= ws_run(s, p) <= s.len(),
    decreases s.len() - p,
{
    if let Some(q) = spec_ws_char(s, p) {
        lemma_ws_run(s, q);
    }
}

pub proof fn lemma_filler_groups(s: Seq<char>, p: int, filler: char)
    requires
        0 <= p <= s.len(),
    ensures
        p <= filler_groups(s, p, filler) <= s.len(),
    decreases s.len() - p,
{
    if let Some(q) = spec_filler_group(s, p, filler) {
        if p < q <= s.len() {
            lemma_filler_groups(s, q, filler);
        }
    }
}

pub proof fn lemma_ws_unit(s: Seq<char>, p: int)
    requires
        0 <= p <= s.len(),
    ensures
        spec_ws_unit(s, p) matches Some(q) ==> p < q <= s.len(),
{
    lemma_ws_run(s, p);
    if let Some(q) = spec_ws_plus(s, p) {
        lemma_filler_groups(s, q, '/');
        lemma_filler_groups(s, q, 'M');
    }
}

pub proof fn lemma_ws_units(s: Seq<char>, p: int)
    requires
        0 <= p <= s.len(),
    ensures
        p <= ws_units(s, p) <= s.len(),
    decreases s.len() - p,
{
    lemma_ws_unit(s, p);
    if let Some(q) = spec_ws_unit(s, p) {
        lemma_ws_units(s, q);
    }
}

/// Every whitespace rule stays within the input and never moves backwards.
pub proof fn lemma_ws(s: Seq<char>, p: int)
    requires
        0 <= p <= s.len(),
    ensures
        spec_required_ws(s, p) matches Some(q) ==> p < q <= s.len(),
        p <= spec_ws(s, p) <= s.len(),
        spec_ws_or_eof(s, p) matches Some(q) ==> p <= q <= s.len(),
{
    lemma_ws_unit(s, p);
    if let Some(q) = spec_ws_unit(s, p) {
        lemma_ws_units(s, q);
    }
}

pub fn ws_char(s: &Vec<char>, p: usize) -> (r: Option<usize>)
    requires
        p <= s.len(),
    ensures
        pos_of(r) == spec_ws_char(s@, p as int),
        r matches Some(q) ==> p < q <= s.len(),
{
    if is_at(s, p, ' ') {
        Some(p + 1)
    } else if is_at(s, p, '\r') && is_at(s, p + 1, '\n') {
        Some(p + 2)
    } else if is_at(s, p, '\n') || is_at(s, p, '\t') || is_at(s, p, '>') {
        Some(p + 1)
    } else {
        None
    }
}

pub fn ws_run_exec(s: &Vec<char>, p: usize) -> (q: usize)
    requires
        p <= s.len(),
    ensures
        q as int == ws_run(s@, p as int),
        p <= q <= s.len(),
{
    let mut q = p;
    loop
        invariant
            p <= q <= s.len(),
            ws_run(s@, p as int) == ws_run(s@, q as int),
        decreases s.len() - q,
    {
        match ws_char(s, q) {
            Some(n) => {
                q = n;
            },
            None => {
                return q;
            },
        }
    }
}

pub fn ws_plus(s: &Vec<char>, p: usize) -> (r: Option<usize>)
    requires
        p <= s.len(),
    ensures
        pos_of(r) == spec_ws_plus(s@, p as int),
        r matches Some(q) ==> p < q <= s.len(),
{
    let q = ws_run_exec(s, p);
    if q > p {
        Some(q)
    } else {
        None
    }
}

pub fn filler_group(s: &Vec<char>, p: usize, filler: char) -> (r: Option<usize>)
    requires
        p <= s.len(),
    ensures
        pos_of(r) == spec_filler_group(s@, p as int, filler),
        r matches Some(q) ==> p < q <= s.len(),
{
    let q = if filler == '/' {
        scan_class(s, p, Class::Slash)
    } else if is_at(s, p, filler) {
        p + 1
    } else {
        p
    };
    if q > p {
        ws_plus(s, q)
    } else {
        None
    }
}

pub fn filler_groups_exec(s: &Vec<char>, p: usize, filler: char) -> (q: usize)
    requires
        p <= s.len(),
    ensures
        q as int == filler_groups(s@, p as int, filler),
        p <= q <= s.len(),
{
    let mut q = p;
    loop
        invariant
            p <= q <= s.len(),
            filler_groups(s@, p as int, filler) == filler_groups(s@, q as int, filler),
        decreases s.len() - q,
    {
        match filler_group(s, q, filler) {
            Some(n) => {
                q = n;
            },
            None => {
                return q;
            },
        }
    }
}

pub fn ws_unit(s: &Vec<char>, p: usize) -> (r: Option<usize>)
    requires
        p <= s.len(),
    ensures
        pos_of(r) == spec_ws_unit(s@, p as int),
        r matches Some(q) ==> p < q <= s.len(),
{
    match ws_plus(s, p) {
        None => None,
        Some(q) => {
            let a = filler_groups_exec(s, q, '/');
            if a > q {
                Some(a)
            } else {
                Some(filler_groups_exec(s, q, 'M'))
            }
        },
    }
}

pub fn required_ws(s: &Vec<char>, p: usize) -> (r: Option<usize>)
    requires
        p <= s.len(),
    ensures
        pos_of(r) == spec_required_ws(s@, p as int),
        r matches Some(q) ==> p < q <= s.len(),
{
    match ws_unit(s, p) {
        None => None,
        Some(q0) => {
            let mut q = q0;
            loop
                invariant
                    p < q0 <= q <= s.len(),
                    spec_ws_unit(s@, p as int) == Some(q0 as int),
                    ws_units(s@, q0 as int) == ws_units(s@, q as int),
                decreases s.len() - q,
            {
                match ws_unit(s, q) {
                    Some(n) => {
                        q = n;
                    },
                    None => {
                        return Some(q);
                    },
                }
            }
        },
    }
}

pub fn ws(s: &Vec<char>, p: usize) -> (q: usize)
    requires
        p <= s.len(),
    ensures
        q as int == spec_ws(s@, p as int),
        p <= q <= s.len(),
{
    match required_ws(s, p) {
        Some(q) => q,
        None => p,
    }
}

pub fn ws_or_eof(s: &Vec<char>, p: usize) -> (r: Option<usize>)
    requires
        p <= s.len(),
    ensures
        pos_of(r) == spec_ws_or_eof(s@, p as int),
        r matches Some(q) ==> p <= q <= s.len(),
{
    match required_ws(s, p) {
        Some(q) => Some(q),
        None => if p >= s.len() {
            Some(p)
        } else {
            None
        },
    }
}

/// Marks of `whitespace` (and of `required_whitespace`) at `p`: only a
/// failed `required_whitespace` marks.
pub open spec fn marks_ws(s: Seq<char>, p: int, m: Marks) -> Marks {
    mark_if(m, spec_required_ws(s, p) is None, p, Token::Whitespace)
}

pub fn ws_marks(s: &Vec<char>, p: usize, tr: &mut Tracker)
    requires
        p <= s.len(),
    ensures
        final(tr)@ == marks_ws(s@, p as int, old(tr)@),
{
    let r = required_ws(s, p);
    tr.mark_if(r.is_none(), p, Token::Whitespace);
}

} // verus!
