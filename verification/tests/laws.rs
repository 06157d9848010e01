use metar::grammar::whitespace;
use metar::remarks::{remarks, SeaLevelPressure};

fn coded(input: &str) -> u16 {
    match remarks(input).unwrap().sea_level_pressure.unwrap() {
        SeaLevelPressure::TenthsOfHectopascal(t) => t,
        SeaLevelPressure::Hectopascals(h) => panic!("uncoded pressure {}", h),
    }
}

#[test]
fn blanks_are_whitespace() {
    for val in ["", " ", "   \t\n", ">>> >", "\n\n\t >"] {
        whitespace(val).expect(val);
    }
}

#[test]
fn coded_sea_level_pressure_bounds() {
    assert_eq!(coded("RMK SLP000"), 10000);
    assert_eq!(coded("RMK SLP499"), 10499);
    assert_eq!(coded("RMK SLP500"), 9500);
    assert_eq!(coded("RMK SLP999"), 9999);
}

#[test]
fn short_match_expects_end() {
    let e = metar::grammar::whitespace(" x").unwrap_err();
    assert_eq!(e.position, 1);
    assert_eq!(e.expected, vec![metar::error::Token::Eof]);
    let e = metar::grammar::pressure("Q1013X").unwrap_err();
    assert_eq!(e.position, 5);
    assert!(e.expected.contains(&metar::error::Token::Eof));
    let d = metar::diagnostic::report_diagnostic(&e);
    assert_eq!(d.label_message, r#"expected one of ".", EOF, or digit"#);
}
