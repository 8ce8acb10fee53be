use scrollsplit::config::{config_key_list, Config, CONFIG_KEYS};

#[test]
fn default_config_matches_documented_values() {
    let config = Config::default();
    assert!(config.enabled);
    assert!(config.reverse_mouse);
    assert!(!config.reverse_trackpad);
    assert!(!config.reverse_horizontal);
}

#[test]
fn set_changes_only_the_named_setting() {
    let mut config = Config::default();
    assert_eq!(config.set("reverse_trackpad", true), Ok(()));
    assert!(config.reverse_trackpad);
    assert!(config.enabled);
    assert!(config.reverse_mouse);
    assert!(!config.reverse_horizontal);

    assert_eq!(config.set("enabled", false), Ok(()));
    assert!(!config.enabled);
    assert_eq!(config.set("reverse_mouse", false), Ok(()));
    assert!(!config.reverse_mouse);
    assert_eq!(config.set("reverse_horizontal", true), Ok(()));
    assert!(config.reverse_horizontal);
    assert!(config.reverse_trackpad);
}

#[test]
fn set_reads_back_what_was_written() {
    for key in CONFIG_KEYS {
        for value in [true, false] {
            let mut config = Config::default();
            config.set(key, value).unwrap();
            let read = match key {
                "enabled" => config.enabled,
                "reverse_mouse" => config.reverse_mouse,
                "reverse_trackpad" => config.reverse_trackpad,
                _ => config.reverse_horizontal,
            };
            assert_eq!(read, value);
        }
    }
}

#[test]
fn last_write_wins() {
    let mut config = Config::default();
    config.set("reverse_horizontal", true).unwrap();
    config.set("reverse_horizontal", false).unwrap();
    assert_eq!(config, Config::default());
}

#[test]
fn unknown_key_is_refused_and_changes_nothing() {
    let mut config = Config::default();
    let err = config.set("bogus", true).unwrap_err();
    assert_eq!(
        err,
        "unknown key \"bogus\"; expected one of enabled, reverse_mouse, reverse_trackpad, reverse_horizontal"
    );
    assert_eq!(config, Config::default());
}

#[test]
fn keys_are_case_sensitive() {
    let mut config = Config::default();
    assert!(config.set("Enabled", false).is_err());
    assert!(config.enabled);
}

#[test]
fn key_list_is_comma_separated() {
    assert_eq!(
        config_key_list(),
        "enabled, reverse_mouse, reverse_trackpad, reverse_horizontal"
    );
}
