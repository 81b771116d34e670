use kv_gateway::model::Fault;
use kv_gateway::query::{list_limit, parse_positive, parse_ttl, DEFAULT_LIMIT};

#[test]
fn parses_plain_decimal_numbers() {
    assert_eq!(parse_positive("1"), Some(1));
    assert_eq!(parse_positive("25"), Some(25));
    assert_eq!(parse_positive("60"), Some(60));
    assert_eq!(parse_positive("1000000"), Some(1_000_000));
}

#[test]
fn accepts_a_leading_plus_and_leading_zeros() {
    assert_eq!(parse_positive("+5"), Some(5));
    assert_eq!(parse_positive("007"), Some(7));
    assert_eq!(parse_positive("+0012"), Some(12));
}

#[test]
fn rejects_zero_in_every_spelling() {
    assert_eq!(parse_positive("0"), None);
    assert_eq!(parse_positive("000"), None);
    assert_eq!(parse_positive("+0"), None);
}

#[test]
fn rejects_what_is_no_number() {
    assert_eq!(parse_positive(""), None);
    assert_eq!(parse_positive("+"), None);
    assert_eq!(parse_positive("-5"), None);
    assert_eq!(parse_positive("abc"), None);
    assert_eq!(parse_positive("1a"), None);
    assert_eq!(parse_positive("a1"), None);
    assert_eq!(parse_positive(" 1"), None);
    assert_eq!(parse_positive("1 "), None);
    assert_eq!(parse_positive("++1"), None);
    assert_eq!(parse_positive("1+"), None);
    assert_eq!(parse_positive("1.5"), None);
    assert_eq!(parse_positive("\u{0663}"), None);
    assert_eq!(parse_positive("1\u{00e9}"), None);
}

#[test]
fn reads_up_to_the_largest_number_and_no_further() {
    assert_eq!(parse_positive("18446744073709551615"), Some(u64::MAX));
    assert_eq!(parse_positive("18446744073709551616"), None);
    assert_eq!(parse_positive("18446744073709551620"), None);
    assert_eq!(parse_positive("99999999999999999999"), None);
    assert_eq!(parse_positive("184467440737095516150"), None);
    assert_eq!(parse_positive("00018446744073709551615"), Some(u64::MAX));
}

#[test]
fn agrees_with_the_standard_parser_on_positive_numbers() {
    let samples = [
        "1", "9", "10", "+10", "42", "0042", "4294967296", "x", "", "-1", "+", "12x", "0",
        "18446744073709551615", "18446744073709551616",
    ];
    for text in samples {
        let expected = match text.parse::<u64>() {
            Ok(0) => None,
            Ok(n) => Some(n),
            Err(_) => None,
        };
        assert_eq!(parse_positive(text), expected);
    }
}

#[test]
fn listing_limit_defaults_to_one_hundred() {
    assert_eq!(DEFAULT_LIMIT, 100);
    assert_eq!(list_limit(None), 100);
    assert_eq!(list_limit(Some("abc")), 100);
    assert_eq!(list_limit(Some("")), 100);
    assert_eq!(list_limit(Some("-3")), 100);
    assert_eq!(list_limit(Some("0")), 100);
}

#[test]
fn listing_limit_is_taken_where_it_parses() {
    assert_eq!(list_limit(Some("2")), 2);
    assert_eq!(list_limit(Some("100")), 100);
    assert_eq!(list_limit(Some("1000")), 1000);
}

#[test]
fn ttl_is_optional() {
    assert_eq!(parse_ttl(None), Ok(None));
}

#[test]
fn ttl_is_taken_where_it_parses() {
    assert_eq!(parse_ttl(Some("60")), Ok(Some(60)));
    assert_eq!(parse_ttl(Some("1")), Ok(Some(1)));
}

#[test]
fn ttl_that_is_no_positive_integer_is_rejected() {
    assert_eq!(parse_ttl(Some("0")), Err(Fault::InvalidTtl));
    assert_eq!(parse_ttl(Some("-5")), Err(Fault::InvalidTtl));
    assert_eq!(parse_ttl(Some("abc")), Err(Fault::InvalidTtl));
    assert_eq!(parse_ttl(Some("")), Err(Fault::InvalidTtl));
}
