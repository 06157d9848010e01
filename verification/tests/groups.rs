use metar::cloud::{CloudCoverage, CloudType};
use metar::conditions::{ColorState, WaterSurfaceState};
use metar::grammar::{
    cloud_cover, color, icao_identifier, observation_time, pressure, runway_report,
    runway_visibility, temperatures, visibility, water_conditions, weather, whitespace, wind,
};
use metar::error::{ParseError, Token};
use metar::lex::{Decimal, Span};
use metar::measure::PressureUnit;
use metar::runway::{
    depth_value, BrakingAction, Coverage, DepositType, RunwayReportInfo, VisibilityTrend,
    VisibilityType,
};
use metar::visibility::{CompassDirection, DirectionalOrRawVisibility, LengthUnit, Magnitude, OutOfRange};
use metar::weather::{Condition, Descriptor, Intensity, Obscuration, Precipitation};
use metar::wind::SpeedUnit;

fn sp(start: usize, end: usize) -> Span {
    Span { start, end }
}

/// An error on a single line of ASCII text.
fn refused(position: usize, expected: Vec<Token>) -> ParseError {
    ParseError { position, line: 1, column: position + 1, offset: position, expected }
}

#[test]
fn identifier_span_and_errors() {
    assert_eq!(icao_identifier("KSEA"), Ok(sp(0, 4)));
    assert_eq!(icao_identifier("K1"), Err(refused(0, vec![Token::IcaoIdentifier])));
    assert_eq!(icao_identifier("1SEA"), Err(refused(0, vec![Token::IcaoIdentifier])));
    assert_eq!(icao_identifier("KSEAX"), Err(refused(4, vec![Token::Eof])));
}

#[test]
fn observation_time_values() {
    let t = observation_time("251453Z").unwrap();
    assert_eq!((t.day_of_month, t.time.hour, t.time.minute, t.is_zulu), (25, 14, 53, true));
    let t = observation_time("010005").unwrap();
    assert_eq!((t.day_of_month, t.time.hour, t.time.minute, t.is_zulu), (1, 0, 5, false));
    assert!(observation_time("25145Z").is_err());
}

#[test]
fn wind_groups() {
    let w = wind("09015G25KT").unwrap().unwrap();
    assert_eq!(w.direction, Some(90));
    let speed = w.speed.unwrap();
    assert_eq!(speed.value, Decimal { whole: sp(3, 5), fraction: None });
    assert_eq!(speed.unit, SpeedUnit::Knots);
    assert_eq!(w.peak_gust.unwrap().value.whole, sp(6, 8));
    assert_eq!(w.variance, None);

    let w = wind("VRB04G19KT").unwrap().unwrap();
    assert_eq!(w.direction, None);

    let w = wind("1804KT").unwrap().unwrap();
    assert_eq!(w.direction, Some(180));
    assert_eq!(w.speed.unwrap().value.whole, sp(3, 4));

    let w = wind("P49MPS").unwrap().unwrap();
    assert_eq!(w.direction, None);
    assert_eq!(w.speed.unwrap().value.whole, sp(1, 3));
    assert_eq!(w.speed.unwrap().unit, SpeedUnit::MetersPerSecond);

    let w = wind("27012.5KMH 240V300").unwrap().unwrap();
    assert_eq!(w.speed.unwrap().value, Decimal { whole: sp(3, 5), fraction: Some(sp(6, 7)) });
    assert_eq!(w.speed.unwrap().unit, SpeedUnit::KilometersPerHour);
    assert_eq!(w.variance, Some((240, 300)));

    let w = wind("22010G//KTS").unwrap().unwrap();
    assert_eq!(w.peak_gust, None);

    assert_eq!(wind("/////KT ///V///"), Ok(None));
    assert!(wind("09015").is_err());
}

#[test]
fn visibility_groups() {
    let v = visibility("1 1/2SM ").unwrap().unwrap();
    let p = v.prevailing.unwrap();
    assert_eq!(p.value, Magnitude::Mixed { whole: sp(0, 1), numerator: sp(2, 3), denominator: sp(4, 5) });
    assert_eq!(p.unit, LengthUnit::StatuteMiles);
    assert_eq!(v.minimum, None);

    let v = visibility("9999 ").unwrap().unwrap();
    assert_eq!(v.prevailing.unwrap().value, Magnitude::Whole(sp(0, 4)));
    assert_eq!(v.prevailing.unwrap().unit, LengthUnit::Meters);

    let v = visibility("M1/4SM ").unwrap().unwrap();
    assert_eq!(v.prevailing.unwrap().out_of_range, Some(OutOfRange::Below));

    let v = visibility("4000 1500SW ").unwrap().unwrap();
    match v.minimum.unwrap() {
        DirectionalOrRawVisibility::Directional(d) => {
            assert_eq!(d.direction, CompassDirection::SouthWest);
            assert_eq!(d.distance.value, Magnitude::Whole(sp(5, 9)));
        },
        DirectionalOrRawVisibility::Raw(_) => panic!("expected a directional minimum"),
    }

    assert_eq!(visibility("9999NDV"), Ok(None));
    assert_eq!(visibility("////SM"), Ok(None));
    assert!(visibility("10SM").is_err());
}

#[test]
fn runway_visual_ranges() {
    let r = runway_visibility("R01L/3500VP6000FT").unwrap().unwrap();
    assert_eq!(r.designator, sp(1, 4));
    match r.visibility {
        VisibilityType::Varying { lower, upper } => {
            assert_eq!(lower.value, Magnitude::Whole(sp(5, 9)));
            assert_eq!(lower.unit, LengthUnit::Feet);
            assert_eq!(upper.out_of_range, Some(OutOfRange::Above));
            assert_eq!(upper.value, Magnitude::Whole(sp(11, 15)));
        },
        VisibilityType::Fixed(_) => panic!("expected a varying range"),
    }
    let r = runway_visibility("R06/0600N").unwrap().unwrap();
    assert_eq!(r.trend, Some(VisibilityTrend::NoChange));
    match r.visibility {
        VisibilityType::Fixed(v) => assert_eq!(v.unit, LengthUnit::Meters),
        VisibilityType::Varying { .. } => panic!("expected a fixed range"),
    }
    let r = runway_visibility("R24/P1500/U").unwrap().unwrap();
    assert_eq!(r.trend, Some(VisibilityTrend::Increasing));
    assert_eq!(runway_visibility("R31///////"), Ok(None));
    assert!(runway_visibility("R24/290050").is_err());
}

#[test]
fn runway_states() {
    let r = runway_report("R24/290050").unwrap().unwrap();
    assert_eq!(r.designator, sp(1, 3));
    assert_eq!(
        r.report_info,
        RunwayReportInfo::Condition {
            deposit: DepositType::WetOrWaterPatches,
            coverage: Some(Coverage::UpToWhole),
            depth: Some(0),
            friction_coefficient: Some(50),
            braking_action: None,
        }
    );
    let r = runway_report("R88/499295").unwrap().unwrap();
    assert_eq!(
        r.report_info,
        RunwayReportInfo::Condition {
            deposit: DepositType::DrySnow,
            coverage: Some(Coverage::UpToWhole),
            depth: Some(10),
            friction_coefficient: None,
            braking_action: Some(BrakingAction::Good),
        }
    );
    let r = runway_report("R16/CLRD70").unwrap().unwrap();
    assert_eq!(r.report_info, RunwayReportInfo::Cleared { friction: Some(sp(8, 10)) });
    let r = runway_report("R16/CLRD//").unwrap().unwrap();
    assert_eq!(r.report_info, RunwayReportInfo::Cleared { friction: None });
    let r = runway_report("R05/SNOCLO").unwrap().unwrap();
    assert_eq!(r.report_info, RunwayReportInfo::ClosedSnowOrIce);
    let r = runway_report("R07/8/////").unwrap().unwrap();
    assert_eq!(
        r.report_info,
        RunwayReportInfo::Condition {
            deposit: DepositType::CompactedSnow,
            coverage: None,
            depth: None,
            friction_coefficient: None,
            braking_action: None,
        }
    );
}

#[test]
fn depth_codes() {
    assert_eq!(depth_value(92), Some(10));
    assert_eq!(depth_value(95), Some(25));
    assert_eq!(depth_value(98), Some(40));
    assert_eq!(depth_value(99), None);
    assert_eq!(depth_value(5), Some(5));
    assert_eq!(depth_value(91), Some(91));
}

#[test]
fn weather_groups() {
    let w = weather("+TSRA").unwrap();
    assert_eq!(w.intensity, Intensity::Heavy);
    assert_eq!(w.descriptor, Some(Descriptor::Thunderstorm));
    match w.condition {
        Some(Condition::Precipitation(p)) => assert_eq!(p, vec![Precipitation::Rain]),
        _ => panic!("expected precipitation"),
    }
    let w = weather("-RASN").unwrap();
    assert_eq!(w.intensity, Intensity::Light);
    match w.condition {
        Some(Condition::Precipitation(p)) => assert_eq!(p, vec![Precipitation::Rain, Precipitation::Snow]),
        _ => panic!("expected precipitation"),
    }
    let w = weather("VCSH").unwrap();
    assert!(w.vicinity);
    assert_eq!(w.descriptor, Some(Descriptor::Showers));
    assert!(w.condition.is_none());
    let w = weather("MIFG").unwrap();
    assert_eq!(w.intensity, Intensity::Moderate);
    match w.condition {
        Some(Condition::Obscuration(o)) => assert_eq!(o, Obscuration::Fog),
        _ => panic!("expected an obscuration"),
    }
    assert!(weather("+").is_err());
}

#[test]
fn cloud_layers() {
    let c = cloud_cover("BKN020CB").unwrap().unwrap();
    assert_eq!(c.coverage, CloudCoverage::Broken);
    assert_eq!(c.base, Some(2000));
    assert_eq!(c.cloud_type, Some(CloudType::Cumulonimbus));
    let c = cloud_cover("FEW1000").unwrap().unwrap();
    assert_eq!(c.base, Some(100000));
    let c = cloud_cover("OVC///").unwrap().unwrap();
    assert_eq!((c.coverage, c.base), (CloudCoverage::Overcast, None));
    let c = cloud_cover("SCT025///").unwrap().unwrap();
    assert_eq!((c.base, c.cloud_type), (Some(2500), None));
    let c = cloud_cover("SC030TCU").unwrap().unwrap();
    assert_eq!(c.coverage, CloudCoverage::Scattered);
    assert_eq!(c.cloud_type, Some(CloudType::ToweringCumulus));
    assert_eq!(cloud_cover("///CB"), Ok(None));
    assert!(cloud_cover("XYZ").is_err());
}

#[test]
fn temperature_groups() {
    let t = temperatures("24/M01").unwrap().unwrap();
    assert!(!t.air.negative);
    assert_eq!(t.air.degrees, sp(0, 2));
    let d = t.dewpoint.unwrap();
    assert!(d.negative);
    assert_eq!(d.degrees, sp(4, 6));
    let t = temperatures("14/").unwrap().unwrap();
    assert_eq!(t.dewpoint, None);
    let t = temperatures("M05/XX").unwrap().unwrap();
    assert!(t.air.negative);
    assert_eq!(t.dewpoint, None);
    assert_eq!(temperatures("XX/XX"), Ok(None));
    assert!(temperatures("10/10SM").is_err());
}

#[test]
fn pressure_units() {
    let p = pressure("A3002").unwrap().unwrap();
    assert_eq!(p.unit, PressureUnit::InchesOfMercury);
    assert_eq!(p.value, Decimal { whole: sp(1, 5), fraction: None });
    assert_eq!(pressure("A1013").unwrap().unwrap().unit, PressureUnit::Hectopascals);
    assert_eq!(pressure("A2000").unwrap().unwrap().unit, PressureUnit::Hectopascals);
    assert_eq!(pressure("A2000.0").unwrap().unwrap().unit, PressureUnit::Hectopascals);
    assert_eq!(pressure("A2000.5").unwrap().unwrap().unit, PressureUnit::InchesOfMercury);
    assert_eq!(pressure("A99999999999999999999999").unwrap().unwrap().unit, PressureUnit::InchesOfMercury);
    assert_eq!(pressure("Q1013").unwrap().unwrap().unit, PressureUnit::Pascals);
    assert_eq!(pressure("QNH 1013").unwrap().unwrap().value.whole, sp(4, 8));
    assert_eq!(pressure("Q////"), Ok(None));
    assert_eq!(pressure("ANIL"), Ok(None));
    assert!(pressure("B1013").is_err());
}

#[test]
fn color_groups() {
    let c = color("BLU+").unwrap();
    assert_eq!((c.is_black, c.current_color, c.next_color), (false, ColorState::BluePlus, None));
    let c = color("BLACKRED AMB").unwrap();
    assert_eq!((c.is_black, c.current_color, c.next_color), (true, ColorState::Red, Some(ColorState::Amber)));
    let c = color("YLO1").unwrap();
    assert_eq!(c.current_color, ColorState::Yellow1);
    assert!(color("WHTX").is_err());
}

#[test]
fn water_groups() {
    let w = water_conditions("W13/S3").unwrap();
    assert_eq!(w.temperature, Some(sp(1, 3)));
    assert_eq!(w.surface_state, Some(WaterSurfaceState::Slight));
    let w = water_conditions("W///S3").unwrap();
    assert_eq!(w.temperature, None);
    let w = water_conditions("W15/H7").unwrap();
    assert_eq!(w.significant_wave_height, Some(sp(5, 6)));
    let w = water_conditions("W13/H//").unwrap();
    assert_eq!(w.significant_wave_height, None);
    assert!(water_conditions("W13S3").is_err());
}

#[test]
fn whitespace_variants() {
    assert_eq!(whitespace(""), Ok(()));
    assert_eq!(whitespace(" M "), Ok(()));
    assert_eq!(whitespace(" /// M "), Err(refused(5, vec![Token::Eof])));
    assert_eq!(whitespace("x"), Err(refused(0, vec![Token::Eof, Token::Whitespace])));
}

#[test]
fn span_text() {
    let input = "R01L/3500FT";
    let r = runway_visibility(input).unwrap().unwrap();
    assert_eq!(r.designator.text(input), "01L");
}

#[test]
fn refusals_report_the_furthest_failure() {
    assert_eq!(
        wind("X"),
        Err(refused(
            0,
            vec![Token::Slash5, Token::Slash6, Token::G, Token::P, Token::Vrb, Token::Digit, Token::VelocityUnit]
        ))
    );
    assert_eq!(wind("18004"), Err(refused(5, vec![Token::Dot, Token::G, Token::Digit, Token::VelocityUnit])));
    assert_eq!(cloud_cover("FEW02"), Err(refused(5, vec![Token::Digit])));
    assert_eq!(pressure("Q1013."), Err(refused(6, vec![Token::Digit])));
    assert_eq!(
        pressure("A"),
        Err(refused(1, vec![Token::Slash4, Token::Nil, Token::Digit, Token::Whitespace]))
    );
    assert_eq!(pressure("X"), Err(refused(0, vec![Token::PressureUnit])));
    assert_eq!(visibility("X"), Err(refused(0, vec![Token::Visibility])));
    assert_eq!(observation_time("X"), Err(refused(0, vec![])));
    assert_eq!(observation_time("251453ZX"), Err(refused(7, vec![Token::Eof])));
}
