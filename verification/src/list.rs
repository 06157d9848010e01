//! Repetitions of a report group separated by whitespace (`e ** whitespace()`
//! and friends), and the collection of the present entries of such lists.

use vstd::prelude::*;
use crate::ws::{marks_ws, required_ws, spec_required_ws, spec_ws, ws, ws_marks};
use crate::error::{Marks, Tracker};

verus! {

/// A report group that can be repeated in a list.
pub trait Element: Sized {
    /// What a parsed group stands for in specifications.
    type Spec;

    spec fn spec_of(&self) -> Self::Spec;

    /// The group's grammar: where a match at `p` ends, and its value.
    spec fn spec_parse(s: Seq<char>, p: int) -> Option<(int, Self::Spec)>;

    fn parse(s: &Vec<char>, p: usize) -> (r: Option<(usize, Self)>)
        requires
            p <= s.len(),
        ensures
            match r {
                Some((q, v)) => Self::spec_parse(s@, p as int) == Some((q as int, v.spec_of()))
                    && p < q <= s.len(),
                None => Self::spec_parse(s@, p as int) is None,
            },
    ;
}

/// The separator between list entries: `whitespace()` (which may be empty) when
/// `required` is false, `required_whitespace()` otherwise.
pub open spec fn spec_sep(s: Seq<char>, p: int, required: bool) -> Option<int> {
    if required {
        spec_required_ws(s, p)
    } else {
        Some(spec_ws(s, p))
    }
}

/// The entries after the first: separator and entry, as often as both match.
pub open spec fn sep_tail<E: Element>(s: Seq<char>, p: int, required: bool) -> (int, Seq<E::Spec>)
    decreases s.len() - p,
{
    match spec_sep(s, p, required) {
        None => (p, seq![]),
        Some(a) => match E::spec_parse(s, a) {
            Some((q, v)) => if p < q <= s.len() {
                let (r, vs) = sep_tail::<E>(s, q, required);
                (r, seq![v] + vs)
            } else {
                (p, seq![])
            },
            None => (p, seq![]),
        },
    }
}

/// `e ** sep`: zero or more entries separated by the separator.
pub open spec fn sep_list<E: Element>(s: Seq<char>, p: int, required: bool) -> (int, Seq<E::Spec>) {
    match E::spec_parse(s, p) {
        None => (p, seq![]),
        Some((q, v)) => if p < q <= s.len() {
            let (r, vs) = sep_tail::<E>(s, q, required);
            (r, seq![v] + vs)
        } else {
            (p, seq![])
        },
    }
}

/// The spec values of a vector of entries.
pub open spec fn specs<E: Element>(v: Seq<E>) -> Seq<E::Spec> {
    v.map_values(|e: E| e.spec_of())
}

fn sep(s: &Vec<char>, p: usize, required: bool) -> (r: Option<usize>)
    requires
        p <= s.len(),
    ensures
        match r {
            Some(q) => spec_sep(s@, p as int, required) == Some(q as int) && p <= q <= s.len(),
            None => spec_sep(s@, p as int, required) is None,
        },
{
    if required {
        required_ws(s, p)
    } else {
        Some(ws(s, p))
    }
}

/// Parses `e ** sep` at `p`.
pub fn parse_sep_list<E: Element>(s: &Vec<char>, p: usize, required: bool) -> (r: (usize, Vec<E>))
    requires
        p <= s.len(),
    ensures
        (r.0 as int, specs(r.1@)) == sep_list::<E>(s@, p as int, required),
        p <= r.0 <= s.len(),
{
    let mut out: Vec<E> = Vec::new();
    match E::parse(s, p) {
        None => {
            assert(specs(out@) =~= seq![]);
            return (p, out);
        },
        Some((q0, v)) => {
            out.push(v);
            assert(specs(out@) =~= seq![v.spec_of()]);
            let mut q = q0;
            loop
                invariant
                    p < q <= s.len(),
                    ({
                        let (r, vs) = sep_tail::<E>(s@, q as int, required);
                        sep_list::<E>(s@, p as int, required) == (r, specs(out@) + vs)
                    }),
                decreases s.len() - q,
            {
                let ghost before = out@;
                match sep(s, q, required) {
                    None => {
                        assert(specs(out@) + seq![] =~= specs(out@));
                        return (q, out);
                    },
                    Some(a) => match E::parse(s, a) {
                        None => {
                            assert(specs(out@) + seq![] =~= specs(out@));
                            return (q, out);
                        },
                        Some((n, v)) => {
                            out.push(v);
                            proof {
                                let (r, vs) = sep_tail::<E>(s@, n as int, required);
                                assert(specs(out@) =~= specs(before) + seq![v.spec_of()]);
                                assert(specs(before) + (seq![v.spec_of()] + vs) =~= specs(out@)
                                    + vs);
                            }
                            q = n;
                        },
                    },
                }
            }
        },
    }
}

/// A list entry whose failures mark expected tokens.
pub trait Marked: Element {
    /// The marks that parsing an entry at `p` adds to `m`.
    spec fn spec_marks(s: Seq<char>, p: int, m: Marks) -> Marks;

    fn marks(s: &Vec<char>, p: usize, tr: &mut Tracker)
        requires
            p <= s.len(),
        ensures
            final(tr)@ == Self::spec_marks(s@, p as int, old(tr)@),
    ;
}

/// Marks of the entries after the first: each separator (both separators
/// mark as whitespace does), then each entry, up to the first that fails.
pub open spec fn marks_sep_tail<E: Marked>(s: Seq<char>, p: int, required: bool, m: Marks) -> Marks
    decreases s.len() - p,
{
    let m1 = marks_ws(s, p, m);
    match spec_sep(s, p, required) {
        None => m1,
        Some(a) => {
            let m2 = E::spec_marks(s, a, m1);
            match E::spec_parse(s, a) {
                Some((q, _)) => if p < q <= s.len() {
                    marks_sep_tail::<E>(s, q, required, m2)
                } else {
                    m2
                },
                None => m2,
            }
        },
    }
}

/// Marks of `e ** sep` at `p`.
pub open spec fn marks_sep_list<E: Marked>(s: Seq<char>, p: int, required: bool, m: Marks) -> Marks {
    let m1 = E::spec_marks(s, p, m);
    match E::spec_parse(s, p) {
        None => m1,
        Some((q, _)) => if p < q <= s.len() {
            marks_sep_tail::<E>(s, q, required, m1)
        } else {
            m1
        },
    }
}

pub fn sep_list_marks<E: Marked>(s: &Vec<char>, p: usize, required: bool, tr: &mut Tracker)
    requires
        p <= s.len(),
    ensures
        final(tr)@ == marks_sep_list::<E>(s@, p as int, required, old(tr)@),
{
    E::marks(s, p, tr);
    match E::parse(s, p) {
        None => {},
        Some((q0, _)) => {
            let mut q = q0;
            loop
                invariant
                    p < q <= s.len(),
                    marks_sep_list::<E>(s@, p as int, required, old(tr)@) == marks_sep_tail::<E>(
                        s@,
                        q as int,
                        required,
                        tr@,
                    ),
                decreases s.len() - q,
            {
                ws_marks(s, q, tr);
                match sep(s, q, required) {
                    None => {
                        return;
                    },
                    Some(a) => {
                        E::marks(s, a, tr);
                        match E::parse(s, a) {
                            None => {
                                return;
                            },
                            Some((n, _)) => {
                                q = n;
                            },
                        }
                    },
                }
            }
        },
    }
}

/// The present entries of a sequence of optional entries, in order.
pub open spec fn somes<T>(v: Seq<Option<T>>) -> Seq<T>
    decreases v.len(),
{
    if v.len() == 0 {
        seq![]
    } else {
        let rest = somes(v.drop_last());
        match v.last() {
            Some(x) => rest.push(x),
            None => rest,
        }
    }
}

pub proof fn lemma_somes_single<T>(x: Option<T>)
    ensures
        somes(seq![x]) == match x {
            Some(y) => seq![y],
            None => Seq::<T>::empty(),
        },
{
    reveal_with_fuel(somes, 2);
    assert(seq![x].drop_last() =~= Seq::<Option<T>>::empty());
    assert(Seq::<T>::empty().push(x->0) =~= seq![x->0]);
}

pub proof fn lemma_somes_concat<T>(a: Seq<Option<T>>, b: Seq<Option<T>>)
    ensures
        somes(a + b) == somes(a) + somes(b),
    decreases b.len(),
{
    if b.len() == 0 {
        assert(a + b =~= a);
        assert(somes(a) + somes(b) =~= somes(a));
    } else {
        assert((a + b).drop_last() =~= a + b.drop_last());
        lemma_somes_concat(a, b.drop_last());
        match b.last() {
            Some(x) => {
                assert(somes(a) + somes(b.drop_last()).push(x) =~= (somes(a) + somes(
                    b.drop_last(),
                )).push(x));
            },
            None => {},
        }
    }
}

/// Appends the present entries of `v` to `out`.
pub fn push_somes<T: Copy>(out: &mut Vec<T>, v: &Vec<Option<T>>)
    ensures
        final(out)@ == old(out)@ + somes(v@),
{
    let mut i: usize = 0;
    while i < v.len()
        invariant
            i <= v.len(),
            out@ == old(out)@ + somes(v@.subrange(0, i as int)),
        decreases v.len() - i,
    {
        let ghost prev = out@;
        assert(v@.subrange(0, i + 1).drop_last() =~= v@.subrange(0, i as int));
        match v[i] {
            Some(x) => {
                out.push(x);
                assert(out@ =~= old(out)@ + somes(v@.subrange(0, i + 1)));
            },
            None => {
                assert(out@ =~= old(out)@ + somes(v@.subrange(0, i + 1)));
            },
        }
        i += 1;
    }
    assert(v@.subrange(0, i as int) =~= v@);
}

} // verus!
