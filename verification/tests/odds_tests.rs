use octorust::odds::{convert_odds, format_e2, format_e4, get_lowest_odds, i64_dec_string,
    parse_odds, parse_odds_value, u64_dec_string};

// Normalization replaces every comma with a period and nothing else.
#[test]
fn normalize_replaces_comma() {
    assert_eq!(parse_odds("2,50"), "2.50");
    assert_eq!(parse_odds("1,05"), "1.05");
    assert_eq!(parse_odds("10"), "10");
    assert_eq!(parse_odds(""), "");
}

// Normalization is idempotent: a period-formatted string is unchanged,
// and both forms parse to the same value.
#[test]
fn normalize_idempotent() {
    assert_eq!(parse_odds("2.50"), "2.50");
    assert_eq!(parse_odds(&parse_odds("2,50")), parse_odds("2,50"));
    assert_eq!(parse_odds_value("2.50"), Some(25000));
    assert_eq!(parse_odds_value(&parse_odds("2,50")), Some(25000));
    assert_eq!(
        parse_odds_value(&parse_odds("2.50")),
        parse_odds_value(&parse_odds("2,50"))
    );
}

#[test]
fn parse_value_forms() {
    assert_eq!(parse_odds_value("2.5"), Some(25000));
    assert_eq!(parse_odds_value("2.5000"), Some(25000));
    assert_eq!(parse_odds_value("10"), Some(100000));
    assert_eq!(parse_odds_value("0.01"), Some(100));
    assert_eq!(parse_odds_value("0"), Some(0));
}

#[test]
fn parse_value_rejects_bad_forms() {
    assert_eq!(parse_odds_value(""), None);
    assert_eq!(parse_odds_value("Null"), None);
    assert_eq!(parse_odds_value("."), None);
    assert_eq!(parse_odds_value("2."), None);
    assert_eq!(parse_odds_value(".5"), None);
    assert_eq!(parse_odds_value("2.50000"), None);
    assert_eq!(parse_odds_value("2,50"), None);
    assert_eq!(parse_odds_value("-1"), None);
    assert_eq!(parse_odds_value("1234567890123"), None);
}

// Probability conversion: 100 / odds as a percentage, two decimals.
#[test]
fn probability_conversion() {
    assert_eq!(convert_odds("2.00"), Some("50.00".to_string()));
    assert_eq!(convert_odds("4.00"), Some("25.00".to_string()));
    assert_eq!(convert_odds("2,50"), Some("40.00".to_string()));
    assert_eq!(convert_odds("3"), Some("33.33".to_string()));
}

#[test]
fn probability_conversion_fails_on_zero_or_garbage() {
    assert_eq!(convert_odds("0"), None);
    assert_eq!(convert_odds("0,00"), None);
    assert_eq!(convert_odds("Null"), None);
    assert_eq!(convert_odds("abc"), None);
}

// The favorite is the minimum; ties break toward home, then draw.
#[test]
fn favorite_is_minimum() {
    assert_eq!(get_lowest_odds(25000, 32000, 28000), 25000);
    assert_eq!(get_lowest_odds(32000, 25000, 28000), 25000);
    assert_eq!(get_lowest_odds(32000, 28000, 25000), 25000);
}

#[test]
fn favorite_tie_breaks_left_to_right() {
    // 2.50 home, 2.50 draw, 3.00 away: the home branch wins the tie.
    assert_eq!(get_lowest_odds(25000, 25000, 30000), 25000);
    assert_eq!(get_lowest_odds(25000, 25000, 25000), 25000);
    assert_eq!(get_lowest_odds(30000, 25000, 25000), 25000);
}

#[test]
fn fixed_point_formatting() {
    assert_eq!(format_e4(25000), "2.5000");
    assert_eq!(format_e4(100000), "10.0000");
    assert_eq!(format_e4(0), "0.0000");
    assert_eq!(format_e4(105), "0.0105");
    assert_eq!(format_e2(5000), "50.00");
    assert_eq!(format_e2(3), "0.03");
    assert_eq!(u64_dec_string(0), "0");
    assert_eq!(u64_dec_string(907), "907");
    assert_eq!(i64_dec_string(-42), "-42");
    assert_eq!(i64_dec_string(7), "7");
}
