//! Character-level building blocks of the report grammar: single characters,
//! literals, greedy runs of a character class, and the (rather permissive)
//! whitespace that separates report groups.

use vstd::prelude::*;
use vstd::string::StrSliceExecFns;

verus! {

/// A position in the input returned by an exec parser, read as a spec position.
pub open spec fn pos_of(r: Option<usize>) -> Option<int> {
    match r {
        Some(q) => Some(q as int),
        None => None,
    }
}

/// The result of an exec parser (end position and value), read as a spec result.
pub open spec fn res_of<T>(r: Option<(usize, T)>) -> Option<(int, T)> {
    match r {
        Some((q, v)) => Some((q as int, v)),
        None => None,
    }
}

/// Like `res_of`, for values whose spec counterpart is their view.
pub open spec fn res_view<T: View>(r: Option<(usize, T)>) -> Option<(int, T::V)> {
    match r {
        Some((q, v)) => Some((q as int, v@)),
        None => None,
    }
}

/// The characters `[start, end)` of the input, counted in `char`s.
#[derive(Clone, Copy, PartialEq, Eq, Debug)]
pub struct Span {
    pub start: usize,
    pub end: usize,
}

/// The span `[a, b)` of spec positions.
pub open spec fn span(a: int, b: int) -> Span {
    Span { start: a as usize, end: b as usize }
}

impl Span {
    /// The text that the span covers in `input`.
    pub fn text<'a>(&self, input: &'a str) -> (t: &'a str)
        requires
            self.start <= self.end <= input@.len(),
        ensures
            t@ == input@.subrange(self.start as int, self.end as int),
    {
        input.substring_char(self.start, self.end)
    }
}

/// A number as written in the report: a run of digits, optionally followed by
/// `.` and a second run of digits.
#[derive(Clone, Copy, PartialEq, Eq, Debug)]
pub struct Decimal {
    pub whole: Span,
    pub fraction: Option<Span>,
}

pub open spec fn is_digit(c: char) -> bool {
    '0' <= c && c <= '9'
}

pub open spec fn is_letter(c: char) -> bool {
    'A' <= c && c <= 'Z'
}

/// The numeric value of a decimal digit character.
pub open spec fn digit_value(c: char) -> int {
    (c as int) - ('0' as int)
}

/// `s[p] == c`, with `p` in range.
pub open spec fn at(s: Seq<char>, p: int, c: char) -> bool {
    0 <= p < s.len() && s[p] == c
}

/// Matches the literal `l` at `p`.
pub open spec fn spec_lit(s: Seq<char>, p: int, l: Seq<char>) -> Option<int> {
    if 0 <= p && p + l.len() <= s.len() && s.subrange(p, p + l.len()) == l {
        Some(p + l.len())
    } else {
        None
    }
}

/// The character classes that the grammar repeats greedily.
#[derive(Clone, Copy, PartialEq, Eq, Debug)]
pub enum Class {
    Digit,
    Letter,
    Slash,
    /// Anything but `$`.
    NotDollar,
    /// Anything but `=`.
    NotEquals,
    Any,
    /// Capital letters, digits and `/`.
    RemarkChar,
    /// Capital letters and digits.
    LetterOrDigit,
}

pub open spec fn in_class(c: char, cls: Class) -> bool {
    match cls {
        Class::Digit => is_digit(c),
        Class::Letter => is_letter(c),
        Class::Slash => c == '/',
        Class::NotDollar => c != '$',
        Class::NotEquals => c != '=',
        Class::Any => true,
        Class::RemarkChar => is_letter(c) || is_digit(c) || c == '/',
        Class::LetterOrDigit => is_letter(c) || is_digit(c),
    }
}

/// End of the longest run of `cls` characters that starts at `p`.
pub open spec fn scan(s: Seq<char>, p: int, cls: Class) -> int
    decreases s.len() - p,
{
    if 0 <= p < s.len() && in_class(s[p], cls) {
        scan(s, p + 1, cls)
    } else {
        p
    }
}

/// One or more `cls` characters.
pub open spec fn spec_plus(s: Seq<char>, p: int, cls: Class) -> Option<int> {
    let q = scan(s, p, cls);
    if q > p {
        Some(q)
    } else {
        None
    }
}

/// Exactly `n` characters of class `cls` starting at `p`.
pub open spec fn run_of(s: Seq<char>, p: int, n: int, cls: Class) -> bool {
    0 <= p && p + n <= s.len() && forall|i: int| p <= i < p + n ==> in_class(#[trigger] s[i], cls)
}

/// The value of the two digits at `p`.
pub open spec fn num2(s: Seq<char>, p: int) -> int {
    10 * digit_value(s[p]) + digit_value(s[p + 1])
}

/// The value of the three digits at `p`.
pub open spec fn num3(s: Seq<char>, p: int) -> int {
    100 * digit_value(s[p]) + 10 * digit_value(s[p + 1]) + digit_value(s[p + 2])
}

pub proof fn lemma_scan(s: Seq<char>, p: int, cls: Class)
    requires
        0 <= p <= s.len(),
    ensures
        p <= scan(s, p, cls) <= s.len(),
        forall|i: int| p <= i < scan(s, p, cls) ==> in_class(#[trigger] s[i], cls),
        scan(s, p, cls) < s.len() ==> !in_class(s[scan(s, p, cls)], cls),
    decreases s.len() - p,
{
    if p < s.len() && in_class(s[p], cls) {
        lemma_scan(s, p + 1, cls);
    }
}

pub fn class_has(c: char, cls: Class) -> (b: bool)
    ensures
        b == in_class(c, cls),
{
    match cls {
        Class::Digit => '0' <= c && c <= '9',
        Class::Letter => 'A' <= c && c <= 'Z',
        Class::Slash => c == '/',
        Class::NotDollar => c != '$',
        Class::NotEquals => c != '=',
        Class::Any => true,
        Class::RemarkChar => ('A' <= c && c <= 'Z') || ('0' <= c && c <= '9') || c == '/',
        Class::LetterOrDigit => ('A' <= c && c <= 'Z') || ('0' <= c && c <= '9'),
    }
}

pub fn is_at(s: &Vec<char>, p: usize, c: char) -> (b: bool)
    ensures
        b == at(s@, p as int, c),
{
    p < s.len() && s[p] == c
}

pub fn lit(s: &Vec<char>, p: usize, l: &[char]) -> (r: Option<usize>)
    requires
        p <= s.len(),
    ensures
        pos_of(r) == spec_lit(s@, p as int, l@),
{
    if l.len() > s.len() - p {
        return None;
    }
    let mut i: usize = 0;
    while i < l.len()
        invariant
            i <= l.len(),
            p <= s.len(),
            p + l@.len() <= s@.len(),
            s@.subrange(p as int, p + i) == l@.subrange(0, i as int),
        decreases l.len() - i,
    {
        if s[p + i] != l[i] {
            assert(s@.subrange(p as int, p + l@.len())[i as int] != l@[i as int]);
            return None;
        }
        i += 1;
        assert(s@.subrange(p as int, p + i) =~= l@.subrange(0, i as int));
    }
    assert(l@.subrange(0, i as int) =~= l@);
    Some(p + l.len())
}

pub fn scan_class(s: &Vec<char>, p: usize, cls: Class) -> (q: usize)
    requires
        p <= s.len(),
    ensures
        q as int == scan(s@, p as int, cls),
        p <= q <= s.len(),
{
    let mut q = p;
    while q < s.len() && class_has(s[q], cls)
        invariant
            p <= q <= s.len(),
            scan(s@, p as int, cls) == scan(s@, q as int, cls),
        decreases s.len() - q,
    {
        q += 1;
    }
    q
}

pub fn plus(s: &Vec<char>, p: usize, cls: Class) -> (r: Option<usize>)
    requires
        p <= s.len(),
    ensures
        pos_of(r) == spec_plus(s@, p as int, cls),
        r matches Some(q) ==> p < q <= s.len(),
{
    let q = scan_class(s, p, cls);
    if q > p {
        Some(q)
    } else {
        None
    }
}

pub fn has_run(s: &Vec<char>, p: usize, n: usize, cls: Class) -> (b: bool)
    requires
        p <= s.len(),
    ensures
        b == run_of(s@, p as int, n as int, cls),
{
    if n > s.len() - p {
        return false;
    }
    let mut i: usize = 0;
    while i < n
        invariant
            i <= n,
            p + n <= s.len(),
            forall|k: int| p <= k < p + i ==> in_class(#[trigger] s@[k], cls),
        decreases n - i,
    {
        if !class_has(s[p + i], cls) {
            assert(!in_class(s@[p + i], cls));
            return false;
        }
        i += 1;
    }
    true
}

pub fn digit_val(c: char) -> (r: u8)
    requires
        is_digit(c),
    ensures
        r as int == digit_value(c),
        r <= 9,
{
    (c as u32 - '0' as u32) as u8
}

pub fn two_digits(s: &Vec<char>, p: usize) -> (r: u8)
    requires
        run_of(s@, p as int, 2, Class::Digit),
    ensures
        r as int == num2(s@, p as int),
{
    assert(is_digit(s@[p as int]) && is_digit(s@[p + 1]));
    let _n = s.len();
    10 * digit_val(s[p]) + digit_val(s[p + 1])
}

pub fn three_digits(s: &Vec<char>, p: usize) -> (r: u16)
    requires
        run_of(s@, p as int, 3, Class::Digit),
    ensures
        r as int == num3(s@, p as int),
{
    assert(is_digit(s@[p as int]) && is_digit(s@[p + 1]) && is_digit(s@[p + 2]));
    let _n = s.len();
    100 * (digit_val(s[p]) as u16) + 10 * (digit_val(s[p + 1]) as u16) + digit_val(s[p + 2]) as u16
}


/// `digit()+ ("." digit()+)?`
pub open spec fn spec_decimal(s: Seq<char>, p: int) -> Option<(int, Decimal)> {
    match spec_plus(s, p, Class::Digit) {
        None => None,
        Some(q) => if at(s, q, '.') && spec_plus(s, q + 1, Class::Digit) is Some {
            let r = scan(s, q + 1, Class::Digit);
            Some((r, Decimal { whole: span(p, q), fraction: Some(span(q + 1, r)) }))
        } else {
            Some((q, Decimal { whole: span(p, q), fraction: None }))
        },
    }
}

pub fn decimal_at(s: &Vec<char>, p: usize) -> (r: Option<(usize, Decimal)>)
    requires
        p <= s.len(),
    ensures
        res_of(r) == spec_decimal(s@, p as int),
        r matches Some((q, _)) ==> p < q <= s.len(),
{
    match plus(s, p, Class::Digit) {
        None => None,
        Some(q) => {
            if is_at(s, q, '.') {
                if let Some(r) = plus(s, q + 1, Class::Digit) {
                    return Some((r, Decimal { whole: Span { start: p, end: q }, fraction: Some(Span { start: q + 1, end: r }) }));
                }
            }
            Some((q, Decimal { whole: Span { start: p, end: q }, fraction: None }))
        },
    }
}


/// The value of the four digits at `p`.
pub open spec fn num4(s: Seq<char>, p: int) -> int {
    1000 * digit_value(s[p]) + num3(s, p + 1)
}

pub fn four_digits(s: &Vec<char>, p: usize) -> (r: u16)
    requires
        run_of(s@, p as int, 4, Class::Digit),
    ensures
        r as int == num4(s@, p as int),
        r <= 9999,
{
    assert(is_digit(s@[p as int]));
    assert(run_of(s@, p + 1, 3, Class::Digit));
    let _n = s.len();
    let d = digit_val(s[p]) as u16;
    let t = three_digits(s, p + 1);
    assert(t <= 999) by {
        assert(is_digit(s@[p + 1]) && is_digit(s@[p + 2]) && is_digit(s@[p + 3]));
    }
    1000 * d + t
}


/// The characters of `input`.
pub fn to_chars(input: &str) -> (r: Vec<char>)
    ensures
        r@ == input@,
{
    let mut v: Vec<char> = Vec::new();
    for c in it: input.chars()
        invariant
            v@ == it.seq().take(it.index() as int),
            it.seq() == input@,
    {
        v.push(c);
    }
    v
}

} // verus!
