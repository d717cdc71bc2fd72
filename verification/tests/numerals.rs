use weather_client::api::numeral::Numeral;

fn is_numeral(text: &str) -> bool {
    Numeral::parse(text).is_some()
}

#[test]
fn parse_keeps_the_text() {
    for text in ["0", "51.5", "-0.1", "-84.7642624", "1000", "007", "0.0000001", "-0"] {
        let numeral = Numeral::parse(text).unwrap();
        assert_eq!(numeral.as_str(), text);
    }
}

#[test]
fn parse_takes_what_is_no_number() {
    for text in ["NaN", "inf", "-inf"] {
        assert_eq!(Numeral::parse(text).unwrap().as_str(), text);
    }
}

#[test]
fn parse_refuses_the_empty_text_and_a_bare_sign() {
    assert!(!is_numeral(""));
    assert!(!is_numeral("-"));
    assert!(!is_numeral("--1"));
    assert!(!is_numeral("+1"));
    assert!(!is_numeral("1-"));
}

#[test]
fn parse_refuses_a_point_without_digits_on_both_sides() {
    assert!(!is_numeral("."));
    assert!(!is_numeral("1."));
    assert!(!is_numeral(".5"));
    assert!(!is_numeral("-.5"));
    assert!(!is_numeral("-1."));
    assert!(!is_numeral("1.2.3"));
    assert!(!is_numeral("1..2"));
}

#[test]
fn parse_refuses_other_notations() {
    assert!(!is_numeral("1e5"));
    assert!(!is_numeral("1E5"));
    assert!(!is_numeral("1,5"));
    assert!(!is_numeral("0x10"));
    assert!(!is_numeral(" 1"));
    assert!(!is_numeral("1 "));
    assert!(!is_numeral("1 2"));
}

#[test]
fn parse_refuses_other_words() {
    assert!(!is_numeral("nan"));
    assert!(!is_numeral("-NaN"));
    assert!(!is_numeral("Inf"));
    assert!(!is_numeral("infinity"));
    assert!(!is_numeral("in"));
    assert!(!is_numeral("inf1"));
    assert!(!is_numeral("1inf"));
}

#[test]
fn parse_refuses_characters_outside_ascii() {
    assert!(!is_numeral("\u{0663}"));
    assert!(!is_numeral("1\u{00bd}"));
    assert!(!is_numeral("\u{2212}1"));
    assert!(!is_numeral("1\u{ff0e}5"));
}

#[test]
fn every_number_prints_as_a_numeral() {
    let wide = [
        0.0,
        -0.0,
        1.0,
        -1.5,
        51.5,
        -0.1,
        39.501824,
        -84.7642624,
        f64::MAX,
        f64::MIN,
        f64::MIN_POSITIVE,
        f64::EPSILON,
        5e-324,
        1e21,
        f64::NAN,
        f64::INFINITY,
        f64::NEG_INFINITY,
    ];
    for value in wide {
        let numeral = Numeral::parse(&value.to_string()).unwrap();
        let back: f64 = numeral.as_str().parse().unwrap();
        assert!(back == value || (back.is_nan() && value.is_nan()));
    }
    let narrow = [0.0f32, 72.5, 70.1, -40.0, f32::MAX, f32::MIN_POSITIVE, f32::NAN, f32::INFINITY];
    for value in narrow {
        let numeral = Numeral::parse(&value.to_string()).unwrap();
        let back: f32 = numeral.as_str().parse().unwrap();
        assert!(back == value || (back.is_nan() && value.is_nan()));
    }
}

#[test]
fn clone_is_the_same_numeral() {
    let numeral = Numeral::parse("-12.25").unwrap();
    assert_eq!(numeral.clone(), numeral);
    assert_eq!(numeral.clone().as_str(), "-12.25");
}
