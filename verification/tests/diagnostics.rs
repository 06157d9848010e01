use codespan_reporting::diagnostic::{LabelStyle, Severity};
use metar::diagnostic::{into_diagnostic, report_diagnostic, ReportLabelStyle, ReportSeverity};
use metar::error::{refusal, ParseError, Token, Tracker};
use metar::grammar::{pressure, whitespace};
use metar::lex::to_chars;
use metar::metar::metar;

#[test]
fn pressure_unit_without_value() {
    let e = pressure("A").unwrap_err();
    assert_eq!(e.offset, 1);
    assert_eq!(e.expected, vec![Token::Slash4, Token::Nil, Token::Digit, Token::Whitespace]);
    let d = into_diagnostic(&e);
    assert_eq!(d.severity, Severity::Error);
    assert_eq!(d.code, None);
    assert_eq!(d.message, "could not parse report");
    assert!(d.notes.is_empty());
    assert_eq!(d.labels.len(), 1);
    assert_eq!(d.labels[0].style, LabelStyle::Primary);
    assert_eq!(d.labels[0].file_id, ());
    assert_eq!(d.labels[0].range, 1..1);
    assert_eq!(d.labels[0].message, r#"expected one of "////", "NIL", digit, or whitespace"#);
}

#[test]
fn whitespace_before_other_input() {
    let e = whitespace("X").unwrap_err();
    assert_eq!(e.offset, 0);
    let d = into_diagnostic(&e);
    assert_eq!(d.labels.len(), 1);
    assert_eq!(d.labels[0].range, 0..0);
    assert_eq!(d.labels[0].message, "expected one of EOF, or whitespace");
}

#[test]
fn missing_pressure_unit() {
    let e = pressure("X").unwrap_err();
    let d = into_diagnostic(&e);
    assert_eq!(d.labels[0].range, 0..0);
    assert_eq!(d.labels[0].message, "expected pressure unit");
}

#[test]
fn report_without_station() {
    let e = metar("12345").unwrap_err();
    let d = report_diagnostic(&e);
    assert_eq!(d.severity, ReportSeverity::Error);
    assert_eq!(d.code, None);
    assert_eq!(d.message, "could not parse report");
    assert_eq!(d.label_style, ReportLabelStyle::Primary);
    assert_eq!((d.label_start, d.label_end), (0, 0));
    assert!(d.notes.is_empty());
    assert_eq!(
        d.label_message,
        "expected one of , ICAO identifier, observation flag, report name, or whitespace"
    );
}

#[test]
fn nothing_expected_is_an_unclear_cause() {
    let e = ParseError { position: 2, line: 1, column: 3, offset: 2, expected: vec![] };
    let d = report_diagnostic(&e);
    assert_eq!(d.label_message, "unclear cause");
    assert_eq!((d.label_start, d.label_end), (2, 2));
}

#[test]
fn expected_tokens_are_sorted_and_counted_once() {
    let shuffled = ParseError {
        position: 0,
        line: 1,
        column: 1,
        offset: 0,
        expected: vec![Token::Whitespace, Token::Digit, Token::Nil, Token::Digit, Token::Slash4],
    };
    let sorted = ParseError {
        position: 0,
        line: 1,
        column: 1,
        offset: 0,
        expected: vec![Token::Slash4, Token::Nil, Token::Digit, Token::Whitespace],
    };
    let a = report_diagnostic(&shuffled);
    let b = report_diagnostic(&sorted);
    assert_eq!(a.label_message, b.label_message);
    assert_eq!(a.label_message, r#"expected one of "////", "NIL", digit, or whitespace"#);
    assert_eq!(into_diagnostic(&shuffled), into_diagnostic(&sorted));
}

#[test]
fn error_location_counts_lines_columns_and_bytes() {
    let input = "é\nab";
    let s = to_chars(input);
    let mut tr = Tracker::new();
    tr.mark(1, Token::Digit);
    tr.mark(3, Token::Letter);
    tr.mark(3, Token::Dot);
    tr.mark(2, Token::Slash);
    let e = refusal(input, &s, &tr);
    assert_eq!(e.position, 3);
    assert_eq!(e.line, 2);
    assert_eq!(e.column, 2);
    assert_eq!(e.offset, 4);
    assert_eq!(e.expected, vec![Token::Dot, Token::Letter]);
    let d = report_diagnostic(&e);
    assert_eq!((d.label_start, d.label_end), (4, 4));
    assert_eq!(d.label_message, r#"expected one of ".", or letter"#);
}

#[test]
fn token_texts() {
    assert_eq!(Token::Empty.text(), "");
    assert_eq!(Token::MissingVariance.text(), "\"///V///\"");
    assert_eq!(Token::ObservationFlag.text(), "observation flag");
    assert_eq!(Token::Whitespace.text(), "whitespace");
}
