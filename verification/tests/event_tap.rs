use scrollsplit::config::Config;
use scrollsplit::event_tap::{
    events_of_interest, handles_event, horizontal_axis, inversion, is_continuous,
    vertical_axis, SCROLL_WHEEL, TAP_DISABLED_BY_TIMEOUT, TAP_DISABLED_BY_USER_INPUT,
};

#[test]
fn only_scroll_events_with_context_are_handled() {
    assert!(handles_event(SCROLL_WHEEL, true, true));
    assert!(!handles_event(SCROLL_WHEEL, false, true));
    assert!(!handles_event(SCROLL_WHEEL, true, false));
    assert!(!handles_event(TAP_DISABLED_BY_TIMEOUT, true, true));
    assert!(!handles_event(TAP_DISABLED_BY_USER_INPUT, true, true));
    assert!(!handles_event(1, true, true));
}

#[test]
fn vertical_follows_device_kind() {
    let config = Config::default();
    let wheel = inversion(&config, false);
    assert!(wheel.vertical && !wheel.horizontal);
    let pad = inversion(&config, true);
    assert!(!pad.vertical && !pad.horizontal);

    let mut all = Config::default();
    all.set("reverse_trackpad", true).unwrap();
    all.set("reverse_horizontal", true).unwrap();
    let pad = inversion(&all, true);
    assert!(pad.vertical && pad.horizontal);
}

#[test]
fn nothing_reversed_changes_nothing() {
    let mut config = Config::default();
    config.set("reverse_mouse", false).unwrap();
    for continuous in [false, true] {
        let inv = inversion(&config, continuous);
        assert!(!inv.vertical && !inv.horizontal);
    }
}

#[test]
fn event_fields_and_mask() {
    assert_eq!(events_of_interest(), 1u64 << 22);
    assert!(is_continuous(1) && is_continuous(-1) && !is_continuous(0));
    let v = vertical_axis();
    assert_eq!((v.delta, v.fixed, v.point), (11, 93, 96));
    let h = horizontal_axis();
    assert_eq!((h.delta, h.fixed, h.point), (12, 94, 97));
}
