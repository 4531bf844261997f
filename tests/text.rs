use gateway::text::{decimal_string, has_prefix, parse_bool, parse_u16, strip_prefix_once};

#[test]
fn decimal_of_numbers() {
    assert_eq!(decimal_string(0), "0");
    assert_eq!(decimal_string(7), "7");
    assert_eq!(decimal_string(3600), "3600");
    assert_eq!(decimal_string(u64::MAX), "18446744073709551615");
}

#[test]
fn port_parsing_matches_std() {
    for s in ["0", "3000", "+80", "65535", "0003000", "65536", "", "+", "-1", "30a", " 80", "99999999999"] {
        assert_eq!(parse_u16(s), s.parse::<u16>().ok(), "input {:?}", s);
    }
}

#[test]
fn flag_parsing_matches_std() {
    for s in ["true", "false", "True", "1", "", "false "] {
        assert_eq!(parse_bool(s), s.parse::<bool>().ok(), "input {:?}", s);
    }
}

#[test]
fn prefixes() {
    assert!(has_prefix("Bearer abc", "Bearer "));
    assert!(!has_prefix("Bear", "Bearer "));
    assert!(has_prefix("x", ""));
    assert_eq!(strip_prefix_once("Bearer Bearer t", "Bearer "), "Bearer t");
    assert_eq!(strip_prefix_once("Bearer t", "Bearer "), "t");
    assert_eq!(strip_prefix_once("abc", "Bearer "), "abc");
    assert_eq!(strip_prefix_once("Bearer ", "Bearer "), "");
}
