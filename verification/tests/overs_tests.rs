use duckworth_lewis::DuckworthLewisError;
use duckworth_lewis::Overs;
use duckworth_lewis::subtract;

#[test]
fn subtracting_exact_overs() {
    let overs_one = Overs::new(45);
    let overs_two = Overs::new(40);

    assert_eq!(subtract(&overs_one, &overs_two), Overs::new(5));
}

#[test]
fn subtracting_partial_overs_without_overflow() {
    let overs_one = Overs { overs: 25, balls: 5 };
    let overs_two = Overs { overs: 5, balls: 2 };

    assert_eq!(subtract(&overs_one, &overs_two), Overs { overs: 20, balls: 3 });
}

#[test]
fn subtracting_partial_overs_with_overflow() {
    let overs_one = Overs { overs: 25, balls: 2 };
    let overs_two = Overs { overs: 5, balls: 4 };

    assert_eq!(subtract(&overs_one, &overs_two), Overs { overs: 19, balls: 4 });
}

#[test]
fn subtracting_more_than_remains_floors_at_zero() {
    let overs_one = Overs { overs: 5, balls: 0 };
    let overs_two = Overs { overs: 7, balls: 3 };

    assert_eq!(subtract(&overs_one, &overs_two), Overs { overs: 0, balls: 0 });
}

#[test]
fn create_overs_from_str() {
    let o1: Overs = "37.3".parse().unwrap();
    let o2: Overs = "7.1".parse().unwrap();
    let o3: Overs = "50".parse().unwrap();
    let o4: Overs = "11.0".parse().unwrap();

    assert_eq!(o1, Overs { overs: 37, balls: 3 });
    assert_eq!(o2, Overs { overs: 7, balls: 1 });
    assert_eq!(o3, Overs { overs: 50, balls: 0 });
    assert_eq!(o4, Overs { overs: 11, balls: 0 });
}

#[test]
#[should_panic]
fn does_not_create_overs_from_invalid_float() {
    let _: Overs = Overs::from_decimal_text(&37.6f32.to_string()).unwrap();
}

#[test]
fn create_overs_from_float() {
    let o1: Overs = Overs::from_decimal_text(&37.3f32.to_string()).unwrap();
    let o2: Overs = Overs::from_decimal_text(&7.1f32.to_string()).unwrap();
    let o3: Overs = Overs::from_decimal_text(&50.0f32.to_string()).unwrap();
    let o4: Overs = Overs::from_decimal_text(&11.32f32.to_string()).unwrap();
    assert_eq!(o1, Overs { overs: 37, balls: 3 });
    assert_eq!(o2, Overs { overs: 7, balls: 1 });
    assert_eq!(o3, Overs { overs: 50, balls: 0 });
    assert_eq!(o4, Overs { overs: 11, balls: 3 });
}

#[test]
fn decimal_with_single_fraction_digit_matches_text_parse() {
    let from_decimal = Overs::from_decimal_text("37.3").unwrap();
    let from_text: Overs = "37.3".parse().unwrap();
    assert_eq!(from_decimal, from_text);
}

#[test]
fn decimal_truncates_second_fraction_digit_where_text_rejects_it() {
    assert_eq!(Overs::from_decimal_text("11.32").unwrap(), Overs { overs: 11, balls: 3 });
    assert!(matches!(
        Overs::parse_text("11.32"),
        Err(DuckworthLewisError::TooManyBalls(32))
    ));
}

#[test]
fn decimal_with_six_balls_fails() {
    assert!(matches!(
        Overs::from_decimal_text("37.6"),
        Err(DuckworthLewisError::TooManyBalls(6))
    ));
}

#[test]
fn whole_over_text_round_trips() {
    let o: Overs = "37".parse().unwrap();
    assert_eq!(o, Overs { overs: 37, balls: 0 });
    assert_eq!(o.to_text(), "37");
    let zero: Overs = "0".parse().unwrap();
    assert_eq!(zero.to_text(), "0");
    let big: Overs = "65535".parse().unwrap();
    assert_eq!(big.to_text(), "65535");
}

#[test]
fn partial_overs_render_with_a_point() {
    let o: Overs = "37.3".parse().unwrap();
    assert_eq!(o.to_text(), "37.3");
}

#[test]
fn parse_rejects_malformed_text() {
    assert!(matches!(
        Overs::parse_text("1.2.3"),
        Err(DuckworthLewisError::InvalidOverFormat(_))
    ));
    assert!(matches!(
        Overs::parse_text("abc"),
        Err(DuckworthLewisError::InvalidOverFormat(_))
    ));
    assert!(matches!(
        Overs::parse_text(""),
        Err(DuckworthLewisError::InvalidOverFormat(_))
    ));
    assert!(matches!(
        Overs::parse_text("99999"),
        Err(DuckworthLewisError::InvalidOverFormat(_))
    ));
}

#[test]
fn parse_rejects_non_numeric_components() {
    match Overs::parse_text("a.b") {
        Err(DuckworthLewisError::OversNotNumeric(t)) => assert_eq!(t, "a"),
        other => panic!("expected OversNotNumeric, got {:?}", other),
    }
    match Overs::parse_text("5.") {
        Err(DuckworthLewisError::OversNotNumeric(t)) => assert_eq!(t, ""),
        other => panic!("expected OversNotNumeric, got {:?}", other),
    }
    match Overs::parse_text("99999.3") {
        Err(DuckworthLewisError::OversNotNumeric(t)) => assert_eq!(t, "99999"),
        other => panic!("expected OversNotNumeric, got {:?}", other),
    }
}

#[test]
fn parse_rejects_six_or_more_balls() {
    assert!(matches!(
        Overs::parse_text("37.10"),
        Err(DuckworthLewisError::TooManyBalls(10))
    ));
}

#[test]
fn total_balls_counts_deliveries() {
    assert_eq!(Overs { overs: 37, balls: 3 }.total_balls(), 225);
    assert_eq!(Overs::new(50).total_balls(), 300);
}

#[test]
fn render_then_parse_is_identity() {
    for (overs, balls) in [(0, 1), (7, 5), (50, 0), (37, 3), (65535, 5)] {
        let v = Overs { overs, balls };
        assert_eq!(v.to_text().parse::<Overs>().unwrap(), v);
    }
}
