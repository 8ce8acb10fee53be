use scrollsplit::cli::{parse_bool, set_confirmation};

#[test]
fn parses_common_boolean_values() {
    assert_eq!(parse_bool("true"), Ok(true));
    assert_eq!(parse_bool("OFF"), Ok(false));
    assert!(parse_bool("maybe").is_err());
}

#[test]
fn every_listed_word_is_read() {
    for word in ["true", "1", "yes", "on", "TRUE", "Yes", "oN"] {
        assert_eq!(parse_bool(word), Ok(true), "{word}");
    }
    for word in ["false", "0", "no", "off", "FALSE", "No", "Off"] {
        assert_eq!(parse_bool(word), Ok(false), "{word}");
    }
}

#[test]
fn refusal_quotes_the_value() {
    assert_eq!(
        parse_bool("maybe"),
        Err("expected a boolean, got \"maybe\"".to_string())
    );
    assert_eq!(parse_bool(""), Err("expected a boolean, got \"\"".to_string()));
    assert!(parse_bool(" true").is_err());
    assert!(parse_bool("TRUE\u{130}").is_err());
}

#[test]
fn written_value_reads_back() {
    for b in [true, false] {
        assert_eq!(parse_bool(&b.to_string()), Ok(b));
    }
}

#[test]
fn confirmation_line() {
    assert_eq!(set_confirmation("reverse_mouse", false), "reverse_mouse = false");
    assert_eq!(set_confirmation("enabled", true), "enabled = true");
}
