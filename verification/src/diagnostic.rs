//! Diagnostics for refused inputs, for displaying to a user with
//! `codespan_reporting`.

use vstd::prelude::*;
use vstd::string::StringExecFns;
use codespan_reporting::diagnostic::{Diagnostic, Label, LabelStyle, Severity};
use crate::error::{
    all_tokens, expected_tokens, flagged, token_list, token_text, ParseError, SpecParseError,
    Token, TOKENS,
};

verus! {

/// `codespan_reporting::diagnostic::Diagnostic`, carried through as an opaque
/// value.
#[verifier::external_type_specification]
#[verifier::external_body]
#[verifier::reject_recursive_types(FileId)]
pub struct ExDiagnostic<FileId>(Diagnostic<FileId>);

/// The texts of `ts`, each followed by `, `.
pub open spec fn listed_texts(ts: Seq<Token>) -> Seq<char>
    decreases ts.len(),
{
    if ts.len() == 0 {
        Seq::empty()
    } else {
        listed_texts(ts.drop_last()) + token_text(ts.last()) + ", "@
    }
}

/// The label for an error that expected the tokens `ts`, in this order:
/// `unclear cause` for none, `expected t` for one, and
/// `expected one of t1, t2, ..., or tn` for more.
pub open spec fn label_text(ts: Seq<Token>) -> Seq<char> {
    if ts.len() == 0 {
        "unclear cause"@
    } else if ts.len() == 1 {
        "expected "@ + token_text(ts[0])
    } else {
        "expected one of "@ + listed_texts(ts.drop_last()) + "or "@ + token_text(ts.last())
    }
}

/// Whether each token, by its index, occurs in `ts`.
pub open spec fn flags_of(ts: Seq<Token>) -> Seq<bool> {
    Seq::new(TOKENS as nat, |i: int| ts.contains(all_tokens()[i]))
}

/// The tokens of `ts`, each once, in the byte order of their texts.
pub open spec fn sorted_tokens(ts: Seq<Token>) -> Seq<Token> {
    expected_tokens(flags_of(ts))
}

/// How serious a diagnostic is.
#[derive(Clone, Copy, PartialEq, Eq, Debug, Structural)]
pub enum ReportSeverity {
    Bug,
    Error,
    Warning,
    Note,
    Help,
}

/// Whether a label marks the cause of a diagnostic or only its context.
#[derive(Clone, Copy, PartialEq, Eq, Debug, Structural)]
pub enum ReportLabelStyle {
    Primary,
    Secondary,
}

/// A diagnostic for a refused report, as plain values: its severity, code and
/// message, one label (its style, its bytes `label_start..label_end` of the
/// only file, and its message), and its notes.
#[derive(Debug)]
pub struct ReportDiagnostic {
    pub severity: ReportSeverity,
    pub code: Option<String>,
    pub message: String,
    pub label_style: ReportLabelStyle,
    pub label_start: usize,
    pub label_end: usize,
    pub label_message: String,
    pub notes: Vec<String>,
}

pub struct SpecReportDiagnostic {
    pub severity: ReportSeverity,
    pub code: Option<Seq<char>>,
    pub message: Seq<char>,
    pub label_style: ReportLabelStyle,
    pub label_start: int,
    pub label_end: int,
    pub label_message: Seq<char>,
    pub notes: Seq<Seq<char>>,
}

impl View for ReportDiagnostic {
    type V = SpecReportDiagnostic;

    open spec fn view(&self) -> SpecReportDiagnostic {
        SpecReportDiagnostic {
            severity: self.severity,
            code: match self.code {
                Some(c) => Some(c@),
                None => None,
            },
            message: self.message@,
            label_style: self.label_style,
            label_start: self.label_start as int,
            label_end: self.label_end as int,
            label_message: self.label_message@,
            notes: self.notes@.map_values(|n: String| n@),
        }
    }
}

/// The diagnostic for the error `e`: an error without code or notes, with the
/// message `could not parse report` and one primary label at the byte offset
/// of the error that lists the tokens it expected, sorted.
pub open spec fn report_of(e: SpecParseError) -> SpecReportDiagnostic {
    SpecReportDiagnostic {
        severity: ReportSeverity::Error,
        code: None,
        message: "could not parse report"@,
        label_style: ReportLabelStyle::Primary,
        label_start: e.offset,
        label_end: e.offset,
        label_message: label_text(sorted_tokens(e.expected)),
        notes: Seq::empty(),
    }
}

fn occurs(ts: &Vec<Token>, t: Token) -> (b: bool)
    ensures
        b == ts@.contains(t),
{
    let mut i: usize = 0;
    while i < ts.len()
        invariant
            i <= ts.len(),
            forall|k: int| 0 <= k < i ==> ts@[k] != t,
        decreases ts.len() - i,
    {
        if ts[i] == t {
            return true;
        }
        i += 1;
    }
    false
}

fn sorted(ts: &Vec<Token>) -> (r: Vec<Token>)
    ensures
        r@ == sorted_tokens(ts@),
{
    let list = token_list();
    let mut r: Vec<Token> = Vec::new();
    let mut k: usize = 0;
    while k < TOKENS
        invariant
            k <= TOKENS,
            list@ == all_tokens(),
            r@ == flagged(flags_of(ts@), k as int),
        decreases TOKENS - k,
    {
        if occurs(ts, list[k]) {
            r.push(list[k]);
        }
        k += 1;
    }
    r
}

fn label_message(ts: &Vec<Token>) -> (m: String)
    ensures
        m@ == label_text(ts@),
{
    let n = ts.len();
    if n == 0 {
        String::from_str("unclear cause")
    } else if n == 1 {
        let mut m = String::from_str("expected ");
        m.append(ts[0].text());
        m
    } else {
        let mut m = String::from_str("expected one of ");
        let mut i: usize = 0;
        proof {
            assert(ts@.subrange(0, 0) =~= Seq::<Token>::empty());
        }
        while i < n - 1
            invariant
                n == ts.len() >= 2,
                i <= n - 1,
                m@ == "expected one of "@ + listed_texts(ts@.subrange(0, i as int)),
            decreases n - 1 - i,
        {
            let ghost before = m@;
            proof {
                assert(ts@.subrange(0, i + 1).drop_last() =~= ts@.subrange(0, i as int));
                assert(ts@.subrange(0, i + 1).last() == ts@[i as int]);
            }
            m.append(ts[i].text());
            m.append(", ");
            assert(m@ =~= "expected one of "@ + listed_texts(ts@.subrange(0, i + 1)));
            i += 1;
        }
        assert(ts@.subrange(0, n - 1) =~= ts@.drop_last());
        m.append("or ");
        m.append(ts[n - 1].text());
        m
    }
}

/// The diagnostic for a refused report, as plain values.
pub fn report_diagnostic(err: &ParseError) -> (d: ReportDiagnostic)
    ensures
        d@ == report_of(err@),
{
    let tokens = sorted(&err.expected);
    let d = ReportDiagnostic {
        severity: ReportSeverity::Error,
        code: None,
        message: String::from_str("could not parse report"),
        label_style: ReportLabelStyle::Primary,
        label_start: err.offset,
        label_end: err.offset,
        label_message: label_message(&tokens),
        notes: Vec::new(),
    };
    assert(d.notes@.map_values(|n: String| n@) =~= Seq::<Seq<char>>::empty());
    d
}

/// What `codespan_reporting` builds from a diagnostic given as plain values.
pub uninterp spec fn codespan_diagnostic(d: SpecReportDiagnostic) -> Diagnostic<()>;

/// `Diagnostic::new(..).with_message(..).with_labels(vec![Label::new(..,
/// (), start..end).with_message(..)]).with_notes(..)` with the code set: the
/// codespan diagnostic with the same severity, code, message and notes, and
/// one label of the same style, bytes and message in the file `()`. The
/// contract names that value as a function of `d`, which is opaque here.
#[verifier::external_body]
fn to_codespan(d: ReportDiagnostic) -> (r: Diagnostic<()>)
    ensures
        r == codespan_diagnostic(d@),
{
    let severity = match d.severity { ReportSeverity::Bug => Severity::Bug, ReportSeverity::Error => Severity::Error, ReportSeverity::Warning => Severity::Warning, ReportSeverity::Note => Severity::Note, ReportSeverity::Help => Severity::Help };
    let style = match d.label_style { ReportLabelStyle::Primary => LabelStyle::Primary, ReportLabelStyle::Secondary => LabelStyle::Secondary };
    let label = Label::new(style, (), d.label_start..d.label_end).with_message(d.label_message);
    let mut r = Diagnostic::new(severity).with_message(d.message).with_labels(vec![label]).with_notes(d.notes);
    r.code = d.code;
    r
}

/// Converts a parsing error into a [codespan_reporting::diagnostic::Diagnostic]
/// for displaying to a user: an error `could not parse report`, without code
/// or notes, with one primary label at the byte offset of the error that says
/// which tokens were expected there.
pub fn into_diagnostic(err: &ParseError) -> (d: Diagnostic<()>)
    ensures
        d == codespan_diagnostic(report_of(err@)),
{
    to_codespan(report_diagnostic(err))
}

} // verus!
