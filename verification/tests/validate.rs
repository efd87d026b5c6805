use zz_metasvr::validate::{mail_matches, pattern_matches, phone_matches, MAIL_PATTERN, PHONE_PATTERN};

#[test]
fn regexp_test() {
    assert_eq!(MAIL_PATTERN, r"^[.a-zA-Z0-9_-]+@[a-zA-Z0-9_-]+(\.[a-zA-Z0-9_-]+)+$");
    assert!(mail_matches("ccNB-_a123@gg.cn"));
    assert!(mail_matches("ccNB-_a.123@gg.com.cn"));
    assert!(!mail_matches("ccNB-_a.123@.com.cn"));

    assert_eq!(PHONE_PATTERN, r"^((\+86)|(86))?(1[3|5|7|8|9])\d{9}$");
    assert!(phone_matches("13888888888"));
    assert!(phone_matches("19888888888"));
    assert!(!phone_matches("198888888888"));
    assert!(!phone_matches("19888a88888"));
}

#[test]
fn phone_with_country_code() {
    assert!(phone_matches("+8613888888888"));
    assert!(phone_matches("8615888888888"));
    assert!(!phone_matches("12888888888"));
}

#[test]
fn mail_needs_a_dotted_domain() {
    assert!(!mail_matches("user@localhost"));
    assert!(!mail_matches(""));
}

#[test]
fn bad_pattern_matches_nothing() {
    assert!(!pattern_matches("(", "("));
    assert!(pattern_matches("a+", "caab"));
}
