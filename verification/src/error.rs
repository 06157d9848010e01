//! What a refused input is answered with: the furthest position that the
//! grammar reached, where that is (line, column, byte offset), and the tokens
//! that the grammar expected there.
//!
//! Every rule that fails outside a quiet group marks its token at the position
//! where it failed. A refusal reports the furthest marked position and every
//! token marked there, whichever alternative marked it.

use vstd::prelude::*;
use vstd::utf8::{char_is_scalar, encode_utf8, has_width_1_encoding, has_width_2_encoding, has_width_3_encoding};
use crate::lex::{lit, scan, scan_class, spec_lit, Class};

verus! {

/// The number of tokens that the grammar can expect.
pub const TOKENS: usize = 35;

/// A token that the grammar can expect where it fails. The variants are listed
/// in the byte order of their texts.
#[derive(Clone, Copy, PartialEq, Eq, Debug, Structural)]
pub enum Token {
    /// A report that was not found at all.
    Empty,
    Dot,
    Slash,
    Slash2,
    Slash3,
    Slash4,
    Slash5,
    Slash6,
    MissingVariance,
    Equals,
    G,
    Nil,
    P,
    Slp,
    V,
    Vrb,
    Eof,
    IcaoIdentifier,
    CloudCoverage,
    CloudType,
    Color,
    Digit,
    Letter,
    ObservationFlag,
    PressureUnit,
    RemarkPrefix,
    ReportName,
    RunwayReport,
    RunwayVisibility,
    Temperatures,
    VelocityUnit,
    Visibility,
    WaterConditions,
    Weather,
    Whitespace,
}

/// The place of a token in the list of all tokens.
pub open spec fn token_index(t: Token) -> int {
    match t {
        Token::Empty => 0,
        Token::Dot => 1,
        Token::Slash => 2,
        Token::Slash2 => 3,
        Token::Slash3 => 4,
        Token::Slash4 => 5,
        Token::Slash5 => 6,
        Token::Slash6 => 7,
        Token::MissingVariance => 8,
        Token::Equals => 9,
        Token::G => 10,
        Token::Nil => 11,
        Token::P => 12,
        Token::Slp => 13,
        Token::V => 14,
        Token::Vrb => 15,
        Token::Eof => 16,
        Token::IcaoIdentifier => 17,
        Token::CloudCoverage => 18,
        Token::CloudType => 19,
        Token::Color => 20,
        Token::Digit => 21,
        Token::Letter => 22,
        Token::ObservationFlag => 23,
        Token::PressureUnit => 24,
        Token::RemarkPrefix => 25,
        Token::ReportName => 26,
        Token::RunwayReport => 27,
        Token::RunwayVisibility => 28,
        Token::Temperatures => 29,
        Token::VelocityUnit => 30,
        Token::Visibility => 31,
        Token::WaterConditions => 32,
        Token::Weather => 33,
        Token::Whitespace => 34,
    }
}

/// All tokens, in the byte order of their texts.
pub open spec fn all_tokens() -> Seq<Token> {
    seq![
        Token::Empty, Token::Dot, Token::Slash, Token::Slash2, Token::Slash3, Token::Slash4,
        Token::Slash5, Token::Slash6, Token::MissingVariance, Token::Equals, Token::G, Token::Nil,
        Token::P, Token::Slp, Token::V, Token::Vrb, Token::Eof, Token::IcaoIdentifier,
        Token::CloudCoverage, Token::CloudType, Token::Color, Token::Digit, Token::Letter,
        Token::ObservationFlag, Token::PressureUnit, Token::RemarkPrefix,
        Token::ReportName, Token::RunwayReport, Token::RunwayVisibility, Token::Temperatures,
        Token::VelocityUnit, Token::Visibility, Token::WaterConditions, Token::Weather,
        Token::Whitespace,
    ]
}

/// How a token reads in a message. Literals keep their double quotes; a report
/// that was not found at all reads as the empty text.
pub open spec fn token_text(t: Token) -> Seq<char> {
    match t {
        Token::Empty => ""@,
        Token::Dot => "\".\""@,
        Token::Slash => "\"/\""@,
        Token::Slash2 => "\"//\""@,
        Token::Slash3 => "\"///\""@,
        Token::Slash4 => "\"////\""@,
        Token::Slash5 => "\"/////\""@,
        Token::Slash6 => "\"//////\""@,
        Token::MissingVariance => "\"///V///\""@,
        Token::Equals => "\"=\""@,
        Token::G => "\"G\""@,
        Token::Nil => "\"NIL\""@,
        Token::P => "\"P\""@,
        Token::Slp => "\"SLP\""@,
        Token::V => "\"V\""@,
        Token::Vrb => "\"VRB\""@,
        Token::Eof => "EOF"@,
        Token::IcaoIdentifier => "ICAO identifier"@,
        Token::CloudCoverage => "cloud coverage"@,
        Token::CloudType => "cloud type"@,
        Token::Color => "color"@,
        Token::Digit => "digit"@,
        Token::Letter => "letter"@,
        Token::ObservationFlag => "observation flag"@,
        Token::PressureUnit => "pressure unit"@,
        Token::RemarkPrefix => "remark_prefix"@,
        Token::ReportName => "report name"@,
        Token::RunwayReport => "runway_report"@,
        Token::RunwayVisibility => "runway_visibility"@,
        Token::Temperatures => "temperatures"@,
        Token::VelocityUnit => "velocity unit"@,
        Token::Visibility => "visibility"@,
        Token::WaterConditions => "water_conditions"@,
        Token::Weather => "weather"@,
        Token::Whitespace => "whitespace"@,
    }
}

impl Token {
    /// How the token reads in a message.
    pub fn text(&self) -> (r: &'static str)
        ensures
            r@ == token_text(*self),
    {
        match self {
            Token::Empty => "",
            Token::Dot => "\".\"",
            Token::Slash => "\"/\"",
            Token::Slash2 => "\"//\"",
            Token::Slash3 => "\"///\"",
            Token::Slash4 => "\"////\"",
            Token::Slash5 => "\"/////\"",
            Token::Slash6 => "\"//////\"",
            Token::MissingVariance => "\"///V///\"",
            Token::Equals => "\"=\"",
            Token::G => "\"G\"",
            Token::Nil => "\"NIL\"",
            Token::P => "\"P\"",
            Token::Slp => "\"SLP\"",
            Token::V => "\"V\"",
            Token::Vrb => "\"VRB\"",
            Token::Eof => "EOF",
            Token::IcaoIdentifier => "ICAO identifier",
            Token::CloudCoverage => "cloud coverage",
            Token::CloudType => "cloud type",
            Token::Color => "color",
            Token::Digit => "digit",
            Token::Letter => "letter",
            Token::ObservationFlag => "observation flag",
            Token::PressureUnit => "pressure unit",
            Token::RemarkPrefix => "remark_prefix",
            Token::ReportName => "report name",
            Token::RunwayReport => "runway_report",
            Token::RunwayVisibility => "runway_visibility",
            Token::Temperatures => "temperatures",
            Token::VelocityUnit => "velocity unit",
            Token::Visibility => "visibility",
            Token::WaterConditions => "water_conditions",
            Token::Weather => "weather",
            Token::Whitespace => "whitespace",
        }
    }

    fn index(&self) -> (i: usize)
        ensures
            i as int == token_index(*self),
            i < TOKENS,
    {
        match self {
            Token::Empty => 0,
            Token::Dot => 1,
            Token::Slash => 2,
            Token::Slash2 => 3,
            Token::Slash3 => 4,
            Token::Slash4 => 5,
            Token::Slash5 => 6,
            Token::Slash6 => 7,
            Token::MissingVariance => 8,
            Token::Equals => 9,
            Token::G => 10,
            Token::Nil => 11,
            Token::P => 12,
            Token::Slp => 13,
            Token::V => 14,
            Token::Vrb => 15,
            Token::Eof => 16,
            Token::IcaoIdentifier => 17,
            Token::CloudCoverage => 18,
            Token::CloudType => 19,
            Token::Color => 20,
            Token::Digit => 21,
            Token::Letter => 22,
            Token::ObservationFlag => 23,
            Token::PressureUnit => 24,
            Token::RemarkPrefix => 25,
            Token::ReportName => 26,
            Token::RunwayReport => 27,
            Token::RunwayVisibility => 28,
            Token::Temperatures => 29,
            Token::VelocityUnit => 30,
            Token::Visibility => 31,
            Token::WaterConditions => 32,
            Token::Weather => 33,
            Token::Whitespace => 34,
        }
    }
}

/// All tokens, in the byte order of their texts.
pub fn token_list() -> (v: Vec<Token>)
    ensures
        v@ == all_tokens(),
{
    vec![
        Token::Empty, Token::Dot, Token::Slash, Token::Slash2, Token::Slash3, Token::Slash4,
        Token::Slash5, Token::Slash6, Token::MissingVariance, Token::Equals, Token::G, Token::Nil,
        Token::P, Token::Slp, Token::V, Token::Vrb, Token::Eof, Token::IcaoIdentifier,
        Token::CloudCoverage, Token::CloudType, Token::Color, Token::Digit, Token::Letter,
        Token::ObservationFlag, Token::PressureUnit, Token::RemarkPrefix,
        Token::ReportName, Token::RunwayReport, Token::RunwayVisibility, Token::Temperatures,
        Token::VelocityUnit, Token::Visibility, Token::WaterConditions, Token::Weather,
        Token::Whitespace,
    ]
}

/// The failures marked so far: the furthest position, and for each token
/// (by its index) whether it was expected there.
pub struct Marks {
    pub pos: int,
    pub flags: Seq<bool>,
}

pub open spec fn no_flags() -> Seq<bool> {
    Seq::new(TOKENS as nat, |i: int| false)
}

/// Nothing marked yet.
pub open spec fn no_marks() -> Marks {
    Marks { pos: 0, flags: no_flags() }
}

/// Marks that `t` was expected at `p`: a position beyond the furthest one so
/// far replaces it, the furthest one gains `t`, an earlier one changes nothing.
pub open spec fn mark(m: Marks, p: int, t: Token) -> Marks {
    if p > m.pos {
        Marks { pos: p, flags: no_flags().update(token_index(t), true) }
    } else if p == m.pos {
        Marks { pos: p, flags: m.flags.update(token_index(t), true) }
    } else {
        m
    }
}

/// Marks `t` at `p` when `failed`.
pub open spec fn mark_if(m: Marks, failed: bool, p: int, t: Token) -> Marks {
    if failed {
        mark(m, p, t)
    } else {
        m
    }
}

/// The failures marked while parsing.
pub struct Tracker {
    pos: usize,
    flags: Vec<bool>,
}

impl Tracker {
    #[verifier::type_invariant]
    spec fn flags_complete(self) -> bool {
        self.flags.len() == TOKENS
    }
}

impl View for Tracker {
    type V = Marks;

    closed spec fn view(&self) -> Marks {
        Marks { pos: self.pos as int, flags: self.flags@ }
    }
}

fn cleared_flags() -> (v: Vec<bool>)
    ensures
        v@ == no_flags(),
{
    let mut v: Vec<bool> = Vec::new();
    let mut k: usize = 0;
    while k < TOKENS
        invariant
            k <= TOKENS,
            v@ =~= Seq::new(k as nat, |i: int| false),
        decreases TOKENS - k,
    {
        v.push(false);
        k += 1;
    }
    v
}

/// `v` with the flag at `i` set.
fn with_flag(v: &Vec<bool>, i: usize) -> (r: Vec<bool>)
    requires
        i < v.len(),
    ensures
        r@ == v@.update(i as int, true),
{
    let mut r: Vec<bool> = Vec::new();
    let mut k: usize = 0;
    while k < v.len()
        invariant
            k <= v.len(),
            i < v.len(),
            r@ =~= v@.update(i as int, true).take(k as int),
        decreases v.len() - k,
    {
        r.push(v[k] || k == i);
        k += 1;
    }
    assert(r@ =~= v@.update(i as int, true));
    r
}

impl Tracker {
    /// A tracker with nothing marked.
    pub fn new() -> (t: Tracker)
        ensures
            t@ == no_marks(),
    {
        Tracker { pos: 0, flags: cleared_flags() }
    }

    /// Marks that `t` was expected at `p`.
    pub fn mark(&mut self, p: usize, t: Token)
        ensures
            final(self)@ == mark(old(self)@, p as int, t),
    {
        proof {
            use_type_invariant(&*self);
        }
        let i = t.index();
        if p > self.pos {
            let f = cleared_flags();
            self.pos = p;
            self.flags = with_flag(&f, i);
        } else if p == self.pos {
            self.flags = with_flag(&self.flags, i);
        }
    }

    /// Marks `t` at `p` when `failed`.
    pub fn mark_if(&mut self, failed: bool, p: usize, t: Token)
        ensures
            final(self)@ == mark_if(old(self)@, failed, p as int, t),
    {
        if failed {
            self.mark(p, t);
        }
    }

    fn flag(&self, i: usize) -> (b: bool)
        requires
            i < TOKENS,
        ensures
            b == self@.flags[i as int],
    {
        proof {
            use_type_invariant(self);
        }
        self.flags[i]
    }

    fn furthest(&self) -> (p: usize)
        ensures
            p as int == self@.pos,
    {
        self.pos
    }
}

/// Marks of `digit()+` at `p`: the attempt after the run of digits fails.
pub open spec fn marks_digits(s: Seq<char>, p: int, m: Marks) -> Marks {
    mark(m, scan(s, p, Class::Digit), Token::Digit)
}

/// Marks of `digit()*<n>` (at most `n` digits) at `p`: an attempt fails only
/// before the `n`-th digit.
pub open spec fn marks_digits_upto(s: Seq<char>, p: int, n: int, m: Marks) -> Marks {
    let q = scan(s, p, Class::Digit);
    mark_if(m, q < p + n, q, Token::Digit)
}

/// Marks of the literal `l`, read as the token `t`, at `p`.
pub open spec fn marks_lit(s: Seq<char>, p: int, l: Seq<char>, t: Token, m: Marks) -> Marks {
    mark_if(m, spec_lit(s, p, l) is None, p, t)
}

pub fn digits_marks(s: &Vec<char>, p: usize, tr: &mut Tracker)
    requires
        p <= s.len(),
    ensures
        final(tr)@ == marks_digits(s@, p as int, old(tr)@),
{
    let q = scan_class(s, p, Class::Digit);
    tr.mark(q, Token::Digit);
}

pub fn digits_upto_marks(s: &Vec<char>, p: usize, n: usize, tr: &mut Tracker)
    requires
        p <= s.len(),
    ensures
        final(tr)@ == marks_digits_upto(s@, p as int, n as int, old(tr)@),
{
    let q = scan_class(s, p, Class::Digit);
    tr.mark_if(q - p < n, q, Token::Digit);
}

pub fn lit_marks(s: &Vec<char>, p: usize, l: &[char], t: Token, tr: &mut Tracker)
    requires
        p <= s.len(),
    ensures
        final(tr)@ == marks_lit(s@, p as int, l@, t, old(tr)@),
{
    let r = lit(s, p, l);
    tr.mark_if(r.is_none(), p, t);
}

/// The tokens among the first `n` whose flag is set, in order.
pub open spec fn flagged(flags: Seq<bool>, n: int) -> Seq<Token>
    decreases n,
{
    if n <= 0 {
        Seq::empty()
    } else {
        flagged(flags, n - 1) + if flags[n - 1] {
            seq![all_tokens()[n - 1]]
        } else {
            Seq::empty()
        }
    }
}

/// The tokens whose flag is set, in the byte order of their texts.
pub open spec fn expected_tokens(flags: Seq<bool>) -> Seq<Token> {
    flagged(flags, TOKENS as int)
}

/// The 1-based line of the position after `cs`.
pub open spec fn line_of(cs: Seq<char>) -> int
    decreases cs.len(),
{
    if cs.len() == 0 {
        1
    } else {
        line_of(cs.drop_last()) + if cs.last() == '\n' {
            1int
        } else {
            0int
        }
    }
}

/// The 1-based column, in `char`s, of the position after `cs`.
pub open spec fn column_of(cs: Seq<char>) -> int
    decreases cs.len(),
{
    if cs.len() == 0 {
        1
    } else if cs.last() == '\n' {
        1
    } else {
        column_of(cs.drop_last()) + 1
    }
}

/// A count that a `usize` holds, or `usize::MAX` for a larger one.
pub open spec fn capped(n: int) -> int {
    if n <= usize::MAX {
        n
    } else {
        usize::MAX as int
    }
}

/// The number of bytes of the UTF-8 encoding of `c`.
pub open spec fn utf8_width(c: char) -> int {
    if has_width_1_encoding(c as u32) {
        1
    } else if has_width_2_encoding(c as u32) {
        2
    } else if has_width_3_encoding(c as u32) {
        3
    } else {
        4
    }
}

/// The number of bytes of the UTF-8 encoding of `cs`.
pub open spec fn utf8_len(cs: Seq<char>) -> int
    decreases cs.len(),
{
    if cs.len() == 0 {
        0
    } else {
        utf8_width(cs[0]) + utf8_len(cs.drop_first())
    }
}

/// `utf8_len` is the length of the encoding that `str` uses.
pub proof fn lemma_utf8_len(cs: Seq<char>)
    ensures
        utf8_len(cs) == encode_utf8(cs).len(),
    decreases cs.len(),
{
    if cs.len() > 0 {
        char_is_scalar(cs[0]);
        lemma_utf8_len(cs.drop_first());
    }
}

proof fn lemma_utf8_len_push(cs: Seq<char>, c: char)
    ensures
        utf8_len(cs.push(c)) == utf8_len(cs) + utf8_width(c),
    decreases cs.len(),
{
    if cs.len() == 0 {
        assert(cs.push(c).drop_first() =~= Seq::<char>::empty());
        assert(utf8_len(Seq::<char>::empty()) == 0);
        assert(cs.push(c)[0] == c);
    } else {
        assert(cs.push(c).drop_first() =~= cs.drop_first().push(c));
        lemma_utf8_len_push(cs.drop_first(), c);
    }
}

proof fn lemma_utf8_len_concat(a: Seq<char>, b: Seq<char>)
    ensures
        utf8_len(a + b) == utf8_len(a) + utf8_len(b),
        utf8_len(b) >= 0,
    decreases a.len(),
{
    lemma_utf8_len_nonneg(b);
    if a.len() == 0 {
        assert(a + b =~= b);
    } else {
        assert((a + b).drop_first() =~= a.drop_first() + b);
        lemma_utf8_len_concat(a.drop_first(), b);
    }
}

proof fn lemma_utf8_len_nonneg(cs: Seq<char>)
    ensures
        utf8_len(cs) >= 0,
    decreases cs.len(),
{
    if cs.len() > 0 {
        lemma_utf8_len_nonneg(cs.drop_first());
    }
}

/// The encoding of a prefix is no longer than that of the whole.
proof fn lemma_prefix_len(cs: Seq<char>, n: int)
    requires
        0 <= n <= cs.len(),
    ensures
        utf8_len(cs.subrange(0, n)) <= utf8_len(cs),
{
    assert(cs =~= cs.subrange(0, n) + cs.subrange(n, cs.len() as int));
    lemma_utf8_len_concat(cs.subrange(0, n), cs.subrange(n, cs.len() as int));
}

fn width(c: char) -> (w: usize)
    ensures
        w == utf8_width(c),
{
    let v = c as u32;
    if v <= 0x7F {
        1
    } else if v <= 0x7FF {
        2
    } else if v <= 0xFFFF {
        proof {
            char_is_scalar(c);
        }
        3
    } else {
        4
    }
}

/// Why an input was refused: the furthest position that the grammar reached,
/// and the tokens it expected there.
#[derive(Clone, PartialEq, Eq, Debug)]
pub struct ParseError {
    /// The position, in `char`s.
    pub position: usize,
    /// Its 1-based line.
    pub line: usize,
    /// Its 1-based column, in `char`s.
    pub column: usize,
    /// Its offset in bytes of the UTF-8 input.
    pub offset: usize,
    /// The tokens expected there, in the byte order of their texts.
    pub expected: Vec<Token>,
}

pub struct SpecParseError {
    pub position: int,
    pub line: int,
    pub column: int,
    pub offset: int,
    pub expected: Seq<Token>,
}

impl View for ParseError {
    type V = SpecParseError;

    open spec fn view(&self) -> SpecParseError {
        SpecParseError {
            position: self.position as int,
            line: self.line as int,
            column: self.column as int,
            offset: self.offset as int,
            expected: self.expected@,
        }
    }
}

/// The error that the marks `m` give on the input `s` (a position past the
/// input stands for its end).
pub open spec fn error_of(s: Seq<char>, m: Marks) -> SpecParseError {
    let pos = if m.pos < 0 {
        0
    } else if m.pos > s.len() {
        s.len() as int
    } else {
        m.pos
    };
    let before = s.subrange(0, pos);
    SpecParseError {
        position: pos,
        line: capped(line_of(before)),
        column: capped(column_of(before)),
        offset: utf8_len(before),
        expected: expected_tokens(m.flags),
    }
}

/// A rule applied to the whole input `s`: its value when its match `r` covers
/// `s`; otherwise the error of the marks `m` made while parsing, to which a
/// match that stops short adds the expected end of input.
pub open spec fn outcome<T>(s: Seq<char>, r: Option<(int, T)>, m: Marks) -> Result<T, SpecParseError> {
    match r {
        Some((q, v)) => if q == s.len() {
            Ok(v)
        } else {
            Err(error_of(s, mark(m, q, Token::Eof)))
        },
        None => Err(error_of(s, m)),
    }
}

/// `r` is the result `o`, the error taken by its view.
pub open spec fn answers<T>(r: Result<T, ParseError>, o: Result<T, SpecParseError>) -> bool {
    match r {
        Ok(v) => o == Ok::<T, SpecParseError>(v),
        Err(e) => o == Err::<T, SpecParseError>(e@),
    }
}

/// The error that the marks of `tr` give on `input`, whose characters are `s`.
pub fn refusal(input: &str, s: &Vec<char>, tr: &Tracker) -> (e: ParseError)
    requires
        s@ == input@,
    ensures
        e@ == error_of(s@, tr@),
{
    let byte_len = input.as_bytes().len();
    let p = tr.furthest();
    let end = if p > s.len() {
        s.len()
    } else {
        p
    };
    let mut offset: usize = 0;
    let mut line: usize = 1;
    let mut column: usize = 1;
    let mut i: usize = 0;
    proof {
        lemma_utf8_len(input@);
        assert(s@.subrange(0, 0) =~= Seq::<char>::empty());
    }
    while i < end
        invariant
            i <= end <= s.len(),
            s@ == input@,
            offset == utf8_len(s@.subrange(0, i as int)),
            line as int == capped(line_of(s@.subrange(0, i as int))),
            column as int == capped(column_of(s@.subrange(0, i as int))),
            utf8_len(s@) == encode_utf8(input@).len() == byte_len,
        decreases end - i,
    {
        let ghost before = s@.subrange(0, i as int);
        proof {
            assert(s@.subrange(0, i + 1) =~= before.push(s@[i as int]));
            assert(s@.subrange(0, i + 1).drop_last() =~= before);
            lemma_utf8_len_push(before, s@[i as int]);
            lemma_prefix_len(s@, i + 1);
        }
        offset = offset + width(s[i]);
        if s[i] == '\n' {
            line = line.saturating_add(1);
            column = 1;
        } else {
            column = column.saturating_add(1);
        }
        i += 1;
    }
    let list = token_list();
    let mut expected: Vec<Token> = Vec::new();
    let mut k: usize = 0;
    while k < TOKENS
        invariant
            k <= TOKENS,
            list@ == all_tokens(),
            expected@ == flagged(tr@.flags, k as int),
        decreases TOKENS - k,
    {
        if tr.flag(k) {
            expected.push(list[k]);
        }
        k += 1;
    }
    ParseError { position: end, line, column, offset, expected }
}

/// The result of a rule applied to the whole input `input`, whose characters
/// are `s`: `r` is its match at the start and `tr` the marks made meanwhile.
pub fn finish<T>(input: &str, s: &Vec<char>, r: Option<(usize, T)>, tr: Tracker) -> (out: Result<T, ParseError>)
    requires
        s@ == input@,
    ensures
        answers(out, outcome(s@, crate::lex::res_of(r), tr@)),
{
    let mut tr = tr;
    match r {
        Some((q, v)) => if q == s.len() {
            Ok(v)
        } else {
            tr.mark(q, Token::Eof);
            Err(refusal(input, s, &tr))
        },
        None => Err(refusal(input, s, &tr)),
    }
}

} // verus!
