use activity_gist::config::{parse_count, parse_max_activities};
use activity_gist::pipeline::ConfigError;

#[test]
fn decimal_counts_parse() {
    assert_eq!(parse_count("0"), Some(0));
    assert_eq!(parse_count("5"), Some(5));
    assert_eq!(parse_count("0042"), Some(42));
    assert_eq!(parse_count(&usize::MAX.to_string()), Some(usize::MAX));
}

#[test]
fn malformed_counts_are_refused() {
    assert_eq!(parse_count(""), None);
    assert_eq!(parse_count("-1"), None);
    assert_eq!(parse_count("+3"), None);
    assert_eq!(parse_count("1 "), None);
    assert_eq!(parse_count("12a"), None);
    assert_eq!(parse_count("99999999999999999999999999"), None);
}

#[test]
fn unset_setting_gives_default() {
    assert_eq!(parse_max_activities(None), Ok(5));
    assert_eq!(parse_max_activities(Some("10")), Ok(10));
    assert_eq!(parse_max_activities(Some("ten")), Err(ConfigError::ConfigMissing));
}
