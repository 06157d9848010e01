use metar::cloud::CloudCoverage;
use metar::header::ObservationFlag;
use metar::error::{ParseError, Token};
use metar::lex::Span;
use metar::measure::PressureUnit;
use metar::metar::metar;
use metar::remarks::{remarks, SeaLevelPressure};
use metar::trend::{Trend, TrendTime};
use metar::wind::SpeedUnit;

fn sp(start: usize, end: usize) -> Span {
    Span { start, end }
}

/// An error on a single line of ASCII text.
fn refused(position: usize, expected: Vec<Token>) -> ParseError {
    ParseError { position, line: 1, column: position + 1, offset: position, expected }
}

#[test]
fn remarks_section() {
    let r = remarks("RMK AO2 SLP132 T01230045").unwrap();
    assert_eq!(r.unknown_remarks, vec!["AO2".to_string(), "T01230045".to_string()]);
    match r.sea_level_pressure.unwrap() {
        SeaLevelPressure::TenthsOfHectopascal(t) => assert_eq!(t, 10132),
        SeaLevelPressure::Hectopascals(_) => panic!("expected a coded pressure"),
    }
    match remarks("RMK SLP982").unwrap().sea_level_pressure.unwrap() {
        SeaLevelPressure::TenthsOfHectopascal(t) => assert_eq!(t, 9982),
        SeaLevelPressure::Hectopascals(_) => panic!("expected a coded pressure"),
    }
    match remarks("RMK SLP1013").unwrap().sea_level_pressure.unwrap() {
        SeaLevelPressure::Hectopascals(h) => assert_eq!(h, "1013"),
        SeaLevelPressure::TenthsOfHectopascal(_) => panic!("expected an uncoded pressure"),
    }
    match remarks("RMK SLP100 SLP200").unwrap().sea_level_pressure.unwrap() {
        SeaLevelPressure::TenthsOfHectopascal(t) => assert_eq!(t, 10200),
        SeaLevelPressure::Hectopascals(_) => panic!("expected a coded pressure"),
    }
    assert_eq!(remarks("REMARK AO1=").unwrap().unknown_remarks, vec!["AO1".to_string()]);
    assert_eq!(
        remarks("RMK ao2").unwrap_err(),
        refused(
            4,
            vec![Token::Slash, Token::Equals, Token::Slp, Token::Eof, Token::Digit, Token::Letter, Token::Whitespace]
        )
    );
    assert_eq!(remarks("AO2").unwrap_err(), refused(0, vec![Token::RemarkPrefix]));
}

#[test]
fn full_report_fields() {
    let input = "METAR KSEA 251453Z AUTO 09015G25KT 10SM -RA BKN020 OVC050 14/09 A3002 RMK AO2 SLP170=";
    let r = metar(input).unwrap();
    assert_eq!(r.identifier.text(input), "KSEA");
    let t = r.observation_time.unwrap();
    assert_eq!((t.day_of_month, t.time.hour, t.time.minute), (25, 14, 53));
    assert_eq!(r.observation_flags, vec![ObservationFlag::Automatic]);
    let w = r.wind.unwrap();
    assert_eq!(w.direction, Some(90));
    assert_eq!(w.speed.unwrap().unit, SpeedUnit::Knots);
    assert!(r.visibility.unwrap().prevailing.is_some());
    assert_eq!(r.weather.len(), 1);
    assert_eq!(r.cloud_cover.len(), 2);
    assert_eq!(r.cloud_cover[0].coverage, CloudCoverage::Broken);
    assert_eq!(r.cloud_cover[1].base, Some(5000));
    assert!(r.temperatures.is_some());
    assert_eq!(r.pressure.unwrap().unit, PressureUnit::InchesOfMercury);
    assert_eq!(r.remark.unwrap().text(input), "RMK AO2 SLP170=");
    assert!(!r.maintenance_needed);
    assert!(!r.cavok);
    // The remark section runs up to `$`, so the `=` is part of it.
    let rem = r.remarks.unwrap();
    assert_eq!(rem.unknown_remarks, vec!["AO2".to_string()]);
}

#[test]
fn report_with_trends_and_runways() {
    let input = "UNNT 211630Z 08002MPS CAVOK M14/M16 Q1043 R07/810150 R16/////// TEMPO FM1200 TL1300 25010KT BKN010 NOSIG";
    let r = metar(input).unwrap();
    assert!(r.cavok);
    assert_eq!(r.pressure.unwrap().unit, PressureUnit::Pascals);
    assert_eq!(r.runway_reports.len(), 1);
    assert_eq!(r.runway_visibilities.len(), 0);
    assert_eq!(r.trends.len(), 2);
    match &r.trends[0] {
        Trend::Temporarily(t) => {
            assert!(matches!(t.time, Some(TrendTime::Range { .. })));
            assert_eq!(t.wind.unwrap().direction, Some(250));
            assert_eq!(t.cloud_cover.len(), 1);
        },
        _ => panic!("expected a temporary change"),
    }
    assert!(matches!(r.trends[1], Trend::NoSignificantChange));
}

#[test]
fn unmarked_remarks_and_maintenance() {
    let input = "KABC 011200Z 00000KT $ AO2 SLP120=";
    let r = metar(input).unwrap();
    assert!(r.maintenance_needed);
    assert_eq!(r.remark, Some(sp(23, 33)));
    assert_eq!(r.remark.unwrap().text(input), "AO2 SLP120");
    // Remarks without a prefix do not read as a remarks section.
    assert!(r.remarks.is_none());
}

#[test]
fn pilot_report_remark() {
    let input = "KTDF 202145Z AUTO 09004KT 10SM CLR 13/M01 A3029 RM AO1 8 RMK AO2 T0123101K AO2 T01520052=";
    let r = metar(input).unwrap();
    let pirep = r.pirep_remark.unwrap();
    assert_eq!(pirep.start, 48);
    assert_eq!(pirep.end, input.chars().count());
    assert_eq!(r.remark.unwrap().start, r.remark.unwrap().end);
}

#[test]
fn trailing_garbage_is_consumed() {
    assert!(metar("KSEA 251453Z ??? something odd").is_ok());
    assert!(metar("KSEA=garbage=more").is_ok());
    assert!(metar("  SPECI KSEA").is_ok());
}

#[test]
fn refused_reports_expect_the_head() {
    let at_start = vec![Token::Empty, Token::IcaoIdentifier, Token::ObservationFlag, Token::ReportName, Token::Whitespace];
    assert_eq!(metar("").unwrap_err(), refused(0, at_start.clone()));
    assert_eq!(metar("12345").unwrap_err(), refused(0, at_start));
    assert_eq!(
        metar("METAR 1234").unwrap_err(),
        refused(6, vec![Token::IcaoIdentifier, Token::ObservationFlag, Token::Whitespace])
    );
}

#[test]
fn refusal_on_a_later_line() {
    assert_eq!(
        metar("\n\n1").unwrap_err(),
        ParseError {
            position: 2,
            line: 3,
            column: 1,
            offset: 2,
            expected: vec![Token::IcaoIdentifier, Token::ObservationFlag, Token::ReportName, Token::Whitespace],
        }
    );
}
