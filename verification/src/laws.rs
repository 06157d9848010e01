//! Properties of the grammar as a whole.

use vstd::prelude::*;
use crate::lex::scan;
use crate::lex::Class;
use crate::remarks::tenths_of;
use crate::ws::{filler_groups, spec_ws, spec_ws_char, ws_run, ws_units};
use crate::error::{all_tokens, error_of, flagged, mark, token_text, Marks, ParseError, Token, TOKENS};
use crate::diagnostic::{codespan_diagnostic, flags_of, report_of, sorted_tokens};

verus! {

/// A character that is whitespace on its own.
pub open spec fn is_blank(c: char) -> bool {
    c == ' ' || c == '\t' || c == '\n' || c == '>'
}

proof fn lemma_ws_run_blanks(s: Seq<char>, p: int)
    requires
        0 <= p <= s.len(),
        forall|i: int| p <= i < s.len() ==> is_blank(#[trigger] s[i]),
    ensures
        ws_run(s, p) == s.len(),
    decreases s.len() - p,
{
    if p < s.len() {
        assert(is_blank(s[p]));
        assert(spec_ws_char(s, p) == Some(p + 1));
        lemma_ws_run_blanks(s, p + 1);
    }
}

/// Whitespace swallows any run of blanks, tabs, line feeds and `>`: such an
/// input is whitespace as a whole.
pub proof fn lemma_blanks_are_whitespace(s: Seq<char>)
    requires
        forall|i: int| 0 <= i < s.len() ==> is_blank(#[trigger] s[i]),
    ensures
        spec_ws(s, 0) == s.len(),
{
    lemma_ws_run_blanks(s, 0);
    let n = s.len() as int;
    assert(scan(s, n, Class::Slash) == n);
    assert(filler_groups(s, n, '/') == n);
    assert(filler_groups(s, n, 'M') == n);
    assert(ws_run(s, n) == n);
    assert(ws_units(s, n) == n);
}

/// A three-digit sea level pressure always stands for 950.0 to 1049.9
/// hectopascals.
pub proof fn lemma_coded_sea_level_pressure_range(n: int)
    requires
        0 <= n <= 999,
    ensures
        9500 <= tenths_of(n) <= 10499,
{
}

/// Errors at the same byte offset that expect the same tokens, in whatever
/// order and however often, give the same diagnostic.
pub proof fn lemma_same_error_same_diagnostic(e1: ParseError, e2: ParseError)
    requires
        e1.offset == e2.offset,
        e1.expected@.to_set() == e2.expected@.to_set(),
    ensures
        report_of(e1@) == report_of(e2@),
        codespan_diagnostic(report_of(e1@)) == codespan_diagnostic(report_of(e2@)),
{
    assert forall|i: int| 0 <= i < TOKENS implies flags_of(e1.expected@)[i] == flags_of(e2.expected@)[i] by {
        let t = all_tokens()[i];
        assert(e1.expected@.to_set().contains(t) == e1.expected@.contains(t));
        assert(e2.expected@.to_set().contains(t) == e2.expected@.contains(t));
    }
    assert(flags_of(e1.expected@) =~= flags_of(e2.expected@));
}

/// `a` comes before `b` in the byte order of texts. UTF-8 keeps the order
/// of code points, so texts compare by their `char`s.
pub open spec fn text_before(a: Seq<char>, b: Seq<char>) -> bool
    decreases a.len(),
{
    if b.len() == 0 {
        false
    } else if a.len() == 0 {
        true
    } else if a[0] != b[0] {
        (a[0] as u32) < (b[0] as u32)
    } else {
        text_before(a.drop_first(), b.drop_first())
    }
}

proof fn lemma_text_before_transitive(a: Seq<char>, b: Seq<char>, c: Seq<char>)
    requires
        text_before(a, b),
        text_before(b, c),
    ensures
        text_before(a, c),
    decreases a.len(),
{
    if a.len() > 0 && a[0] == b[0] && b[0] == c[0] {
        lemma_text_before_transitive(a.drop_first(), b.drop_first(), c.drop_first());
    }
}

proof fn lemma_next_token_after(i: int)
    requires
        0 <= i < TOKENS - 1,
    ensures
        text_before(token_text(all_tokens()[i]), token_text(all_tokens()[i + 1])),
{
    if i == 0 {
        reveal_strlit("");
        reveal_strlit("\".\"");
        reveal_with_fuel(text_before, 2);
    } else if i == 1 {
        reveal_strlit("\".\"");
        reveal_strlit("\"/\"");
        reveal_with_fuel(text_before, 3);
    } else if i == 2 {
        reveal_strlit("\"/\"");
        reveal_strlit("\"//\"");
        reveal_with_fuel(text_before, 4);
    } else if i == 3 {
        reveal_strlit("\"//\"");
        reveal_strlit("\"///\"");
        reveal_with_fuel(text_before, 5);
    } else if i == 4 {
        reveal_strlit("\"///\"");
        reveal_strlit("\"////\"");
        reveal_with_fuel(text_before, 6);
    } else if i == 5 {
        reveal_strlit("\"////\"");
        reveal_strlit("\"/////\"");
        reveal_with_fuel(text_before, 7);
    } else if i == 6 {
        reveal_strlit("\"/////\"");
        reveal_strlit("\"//////\"");
        reveal_with_fuel(text_before, 8);
    } else if i == 7 {
        reveal_strlit("\"//////\"");
        reveal_strlit("\"///V///\"");
        reveal_with_fuel(text_before, 6);
    } else if i == 8 {
        reveal_strlit("\"///V///\"");
        reveal_strlit("\"=\"");
        reveal_with_fuel(text_before, 3);
    } else if i == 9 {
        reveal_strlit("\"=\"");
        reveal_strlit("\"G\"");
        reveal_with_fuel(text_before, 3);
    } else if i == 10 {
        reveal_strlit("\"G\"");
        reveal_strlit("\"NIL\"");
        reveal_with_fuel(text_before, 3);
    } else if i == 11 {
        reveal_strlit("\"NIL\"");
        reveal_strlit("\"P\"");
        reveal_with_fuel(text_before, 3);
    } else if i == 12 {
        reveal_strlit("\"P\"");
        reveal_strlit("\"SLP\"");
        reveal_with_fuel(text_before, 3);
    } else if i == 13 {
        reveal_strlit("\"SLP\"");
        reveal_strlit("\"V\"");
        reveal_with_fuel(text_before, 3);
    } else if i == 14 {
        reveal_strlit("\"V\"");
        reveal_strlit("\"VRB\"");
        reveal_with_fuel(text_before, 4);
    } else if i == 15 {
        reveal_strlit("\"VRB\"");
        reveal_strlit("EOF");
        reveal_with_fuel(text_before, 2);
    } else if i == 16 {
        reveal_strlit("EOF");
        reveal_strlit("ICAO identifier");
        reveal_with_fuel(text_before, 2);
    } else if i == 17 {
        reveal_strlit("ICAO identifier");
        reveal_strlit("cloud coverage");
        reveal_with_fuel(text_before, 2);
    } else if i == 18 {
        reveal_strlit("cloud coverage");
        reveal_strlit("cloud type");
        reveal_with_fuel(text_before, 8);
    } else if i == 19 {
        reveal_strlit("cloud type");
        reveal_strlit("color");
        reveal_with_fuel(text_before, 3);
    } else if i == 20 {
        reveal_strlit("color");
        reveal_strlit("digit");
        reveal_with_fuel(text_before, 2);
    } else if i == 21 {
        reveal_strlit("digit");
        reveal_strlit("letter");
        reveal_with_fuel(text_before, 2);
    } else if i == 22 {
        reveal_strlit("letter");
        reveal_strlit("observation flag");
        reveal_with_fuel(text_before, 2);
    } else if i == 23 {
        reveal_strlit("observation flag");
        reveal_strlit("pressure unit");
        reveal_with_fuel(text_before, 2);
    } else if i == 24 {
        reveal_strlit("pressure unit");
        reveal_strlit("remark_prefix");
        reveal_with_fuel(text_before, 2);
    } else if i == 25 {
        reveal_strlit("remark_prefix");
        reveal_strlit("report name");
        reveal_with_fuel(text_before, 4);
    } else if i == 26 {
        reveal_strlit("report name");
        reveal_strlit("runway_report");
        reveal_with_fuel(text_before, 3);
    } else if i == 27 {
        reveal_strlit("runway_report");
        reveal_strlit("runway_visibility");
        reveal_with_fuel(text_before, 9);
    } else if i == 28 {
        reveal_strlit("runway_visibility");
        reveal_strlit("temperatures");
        reveal_with_fuel(text_before, 2);
    } else if i == 29 {
        reveal_strlit("temperatures");
        reveal_strlit("velocity unit");
        reveal_with_fuel(text_before, 2);
    } else if i == 30 {
        reveal_strlit("velocity unit");
        reveal_strlit("visibility");
        reveal_with_fuel(text_before, 3);
    } else if i == 31 {
        reveal_strlit("visibility");
        reveal_strlit("water_conditions");
        reveal_with_fuel(text_before, 2);
    } else if i == 32 {
        reveal_strlit("water_conditions");
        reveal_strlit("weather");
        reveal_with_fuel(text_before, 3);
    } else if i == 33 {
        reveal_strlit("weather");
        reveal_strlit("whitespace");
        reveal_with_fuel(text_before, 3);
    }
}

/// The tokens are listed in the byte order of their texts.
pub proof fn lemma_tokens_in_byte_order(i: int, j: int)
    requires
        0 <= i < j < TOKENS,
    ensures
        text_before(token_text(all_tokens()[i]), token_text(all_tokens()[j])),
    decreases j - i,
{
    lemma_next_token_after(j - 1);
    if i < j - 1 {
        lemma_tokens_in_byte_order(i, j - 1);
        lemma_text_before_transitive(
            token_text(all_tokens()[i]),
            token_text(all_tokens()[j - 1]),
            token_text(all_tokens()[j]),
        );
    }
}

proof fn lemma_flagged_in_order(flags: Seq<bool>, n: int)
    requires
        0 <= n <= TOKENS,
    ensures
        forall|a: int, b: int|
            0 <= a < b < flagged(flags, n).len() ==> text_before(
                token_text(#[trigger] flagged(flags, n)[a]),
                token_text(#[trigger] flagged(flags, n)[b]),
            ),
        forall|a: int, k: int|
            0 <= a < flagged(flags, n).len() && n <= k < TOKENS ==> text_before(
                token_text(#[trigger] flagged(flags, n)[a]),
                token_text(#[trigger] all_tokens()[k]),
            ),
    decreases n,
{
    if n > 0 {
        lemma_flagged_in_order(flags, n - 1);
        let before = flagged(flags, n - 1);
        let now = flagged(flags, n);
        assert forall|k: int| n <= k < TOKENS implies text_before(
            token_text(all_tokens()[n - 1]),
            token_text(#[trigger] all_tokens()[k]),
        ) by {
            lemma_tokens_in_byte_order(n - 1, k);
        }
        if flags[n - 1] {
            assert(now =~= before.push(all_tokens()[n - 1]));
            assert forall|a: int, b: int| 0 <= a < b < now.len() implies text_before(
                token_text(#[trigger] now[a]),
                token_text(#[trigger] now[b]),
            ) by {
                if b == now.len() - 1 {
                    assert(now[a] == before[a]);
                }
            }
        } else {
            assert(now =~= before);
        }
    }
}

/// A label lists the expected tokens in the byte order of their texts, each
/// once.
pub proof fn lemma_label_tokens_sorted(ts: Seq<Token>)
    ensures
        forall|a: int, b: int|
            0 <= a < b < sorted_tokens(ts).len() ==> text_before(
                token_text(#[trigger] sorted_tokens(ts)[a]),
                token_text(#[trigger] sorted_tokens(ts)[b]),
            ),
{
    lemma_flagged_in_order(flags_of(ts), TOKENS as int);
}

proof fn lemma_flagged_contains(flags: Seq<bool>, n: int, i: int)
    requires
        0 <= i < n <= TOKENS,
        flags[i],
    ensures
        flagged(flags, n).contains(all_tokens()[i]),
    decreases n,
{
    let before = flagged(flags, n - 1);
    let now = flagged(flags, n);
    if i < n - 1 {
        lemma_flagged_contains(flags, n - 1, i);
        let k = choose|k: int| 0 <= k < before.len() && before[k] == all_tokens()[i];
        assert(now[k] == before[k]);
    } else {
        assert(now[now.len() - 1] == all_tokens()[i]);
    }
}

/// A rule whose match stops short of the end of the input is refused no
/// earlier than where the match ends, and refused there, it expects the end
/// of the input among its tokens.
pub proof fn lemma_short_match_expects_end(s: Seq<char>, q: int, m: Marks)
    requires
        0 <= q < s.len(),
        m.flags.len() == TOKENS,
    ensures
        error_of(s, mark(m, q, Token::Eof)).position >= q,
        error_of(s, mark(m, q, Token::Eof)).position == q ==> error_of(
            s,
            mark(m, q, Token::Eof),
        ).expected.contains(Token::Eof),
{
    let m1 = mark(m, q, Token::Eof);
    if m1.pos == q {
        assert(all_tokens()[16] == Token::Eof);
        lemma_flagged_contains(m1.flags, TOKENS as int, 16);
    }
}

} // verus!
