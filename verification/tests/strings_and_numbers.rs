use sls::config::{front_base_url, mongodb_url, static_base_url};
use sls::number::parse_i32;
use sls::text::{decimal_string, join2, replace_backslashes, same_text, suffix_from};

#[test]
fn decimal_numerals() {
    assert_eq!(decimal_string(0), "0");
    assert_eq!(decimal_string(7), "7");
    assert_eq!(decimal_string(305), "305");
    assert_eq!(decimal_string(1000), "1000");
    assert_eq!(decimal_string(u64::MAX), u64::MAX.to_string());
}

#[test]
fn backslashes_become_slashes() {
    assert_eq!(replace_backslashes("resources\\ftp\\a.txt"), "resources/ftp/a.txt");
    assert_eq!(replace_backslashes("plain/path"), "plain/path");
    assert_eq!(replace_backslashes(""), "");
    assert_eq!(replace_backslashes("中\\文"), "中/文");
}

#[test]
fn suffixes_and_joins() {
    assert_eq!(suffix_from("resources/images/a.png", 10), "images/a.png");
    assert_eq!(suffix_from("abc", 3), "");
    assert_eq!(join2("resources/", "ftp/"), "resources/ftp/");
    assert!(same_text("post", "post"));
    assert!(!same_text("post", "posts"));
}

#[test]
fn service_addresses() {
    assert_eq!(mongodb_url(), "mongodb://127.0.0.1:27017");
    assert_eq!(static_base_url(), "http://psplhl-pc.dynv6.net:4000/");
    assert_eq!(front_base_url(), "http://psplhl-pc.dynv6.net:3001/");
}

fn std_parse(s: &str) -> Result<i32, String> {
    s.parse::<i32>().map_err(|e| e.to_string())
}

#[test]
fn parses_like_the_standard_library() {
    let samples = [
        "", "+", "-", "0", "12", "-12", "+7", "007", "2147483647", "2147483648", "-2147483648",
        "-2147483649", "12a", "a12", "99999999999x", "-99999999999x", " 1", "1 ", "٣", "+-1",
        "--1", "10000000000", "-0", "4294967296",
    ];
    for s in samples {
        assert_eq!(parse_i32(s), std_parse(s), "input {:?}", s);
    }
}

#[test]
fn parse_error_messages() {
    assert_eq!(parse_i32("").unwrap_err(), "cannot parse integer from empty string");
    assert_eq!(parse_i32("x").unwrap_err(), "invalid digit found in string");
    assert_eq!(parse_i32("3000000000").unwrap_err(), "number too large to fit in target type");
    assert_eq!(parse_i32("-3000000000").unwrap_err(), "number too small to fit in target type");
    assert_eq!(parse_i32("-17"), Ok(-17));
}
