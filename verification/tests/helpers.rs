//! Tests for the lexical layer: character classes and the token scanners.

use jsptemplate::helpers::{is_ident_char, is_regex_char, quoted_regex_str, regex_str, variable};

#[test]
fn is_ident_char_test() {
    for x in vec![
        'a', 'b', 'c', 'd', 'e', 'f', 'g', 'h', 'i', 'j', 'k', 'l', 'm', 'n', 'o', 'p', 'q', 'r',
        'z', 'A', 'B', 'C', 'D', 'E', 'F', 'G', 'H', 'I', 'J', 'K', 'L', 'M', 'N', 'O', 'P', 'Q',
        'R', 'Z', '1', '2', '3', '4', '5', '6', '7', '8', '9', '0',
    ] {
        assert!(is_ident_char(x));
    }
}

#[test]
fn is_not_id_char_test() {
    for x in vec![
        '[', ']', '<', '>', '?', '^', '#', '@', '$', '%', '&', ',', '"', '/', '`', '+', ')', '(',
    ] {
        assert!(!is_ident_char(x));
    }
}

#[test]
fn is_regex_char_test() {
    for x in vec![
        '!', '#', '$', '%', '^', '&', '*', '(', ')', '_', '-', '+', '=', ';', ':', ',', '<', '.',
        '>', '?', '/', 'a', 'b', 'c', 'd', 'e', 'f', 'g', 'h', 'i', 'j', 'k', 'l', 'm', 'n', 'o',
        'p', 'q', 'r', 'z', 'A', 'B', 'C', 'D', 'E', 'F', 'G', 'H', 'I', 'J', 'K', 'L', 'M', 'N',
        'O', 'P', 'Q', 'R', 'Z', '1', '2', '3', '4', '5', '6', '7', '8', '9', '0',
    ] {
        assert!(is_regex_char(x));
    }
}

#[test]
fn helpers_is_not_id_char_test() {
    for x in vec!['"'] {
        assert!(!is_ident_char(x));
    }
}

#[test]
fn is_var_test() {
    let foo = variable("tHisIs_atest1-");
    assert!(foo.is_some());
}

#[test]
fn is_var_bad_test() {
    // The run of identifier characters must not consume the whole input.
    match variable("thisisatest!") {
        Some((rest, _)) => assert!(!rest.is_empty()),
        None => {},
    }
}

#[test]
fn is_var_bad2_test() {
    match variable("thisis atest") {
        Some((rest, _)) => assert!(!rest.is_empty()),
        None => {},
    }
}

#[test]
fn helpers_is_var_bad2_test() {
    match variable("thisis atest") {
        Some((rest, _)) => assert!(!rest.is_empty()),
        None => {},
    }
}

#[test]
fn is_regex_str_test() {
    let foo = regex_str("([a-zZ-Z0-9]+)*(foo|bar)$#{1,3}");
    assert!(foo.is_some());
}

#[test]
fn is_regex_str_bad_test() {
    match regex_str("thisi satest!") {
        Some((rest, _)) => assert!(!rest.is_empty()),
        None => {},
    }
}

#[test]
fn is_quoted_regex_str_test() {
    let foo = quoted_regex_str(r#""([a-zZ-Z0-9]+)""#);
    assert!(foo.is_some());
}

#[test]
fn is_quoted_regex_str_bad_test() {
    match quoted_regex_str(r#""(thisis'atest)""#) {
        Some((rest, _)) => assert!(!rest.is_empty()),
        None => {},
    }
}

#[test]
fn variable_splits_rest_and_match() {
    assert_eq!(
        variable("abc def"),
        Some((" def".to_string(), "abc".to_string()))
    );
}

#[test]
fn quoted_regex_str_returns_content() {
    assert_eq!(
        quoted_regex_str(r#""[0-9]+" tail"#),
        Some((" tail".to_string(), "[0-9]+".to_string()))
    );
}
