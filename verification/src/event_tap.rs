//! Which scroll events are changed, and how: the decisions the event tap
//! makes for every event it sees.
use vstd::prelude::*;
use crate::cli::Command;
use crate::config::Config;
use crate::session::{initial, CommandView, Session};

verus! {

/// Event type of a scroll-wheel event.
pub const SCROLL_WHEEL: u32 = 22;
/// Event type the system sends when it disabled the tap after a timeout.
pub const TAP_DISABLED_BY_TIMEOUT: u32 = 0xffff_fffe;
/// Event type the system sends when user input disabled the tap.
pub const TAP_DISABLED_BY_USER_INPUT: u32 = 0xffff_ffff;
/// Integer line delta of the vertical axis.
pub const DELTA_AXIS_1: u32 = 11;
/// Integer line delta of the horizontal axis.
pub const DELTA_AXIS_2: u32 = 12;
/// Nonzero when the event comes from a continuous device (a trackpad).
pub const IS_CONTINUOUS: u32 = 88;
/// Fixed-point delta of the vertical axis.
pub const FIXED_PT_DELTA_AXIS_1: u32 = 93;
/// Fixed-point delta of the horizontal axis.
pub const FIXED_PT_DELTA_AXIS_2: u32 = 94;
/// Pixel delta of the vertical axis.
pub const POINT_DELTA_AXIS_1: u32 = 96;
/// Pixel delta of the horizontal axis.
pub const POINT_DELTA_AXIS_2: u32 = 97;

/// The three fields that together hold the movement along one axis.
pub struct AxisFields {
    /// Integer line delta.
    pub delta: u32,
    /// Fixed-point delta.
    pub fixed: u32,
    /// Pixel delta.
    pub point: u32,
}

/// The fields of the vertical axis.
pub fn vertical_axis() -> (r: AxisFields)
    ensures
        r.delta == DELTA_AXIS_1 && r.fixed == FIXED_PT_DELTA_AXIS_1 && r.point == POINT_DELTA_AXIS_1,
{
    AxisFields { delta: DELTA_AXIS_1, fixed: FIXED_PT_DELTA_AXIS_1, point: POINT_DELTA_AXIS_1 }
}

/// The fields of the horizontal axis.
pub fn horizontal_axis() -> (r: AxisFields)
    ensures
        r.delta == DELTA_AXIS_2 && r.fixed == FIXED_PT_DELTA_AXIS_2 && r.point == POINT_DELTA_AXIS_2,
{
    AxisFields { delta: DELTA_AXIS_2, fixed: FIXED_PT_DELTA_AXIS_2, point: POINT_DELTA_AXIS_2 }
}

/// The event mask the tap listens with: scroll-wheel events only.
pub fn events_of_interest() -> (r: u64)
    ensures
        r == 0x40_0000u64,
{
    assert(1u64 << 22u64 == 0x40_0000u64) by (bit_vector);
    1u64 << 22u64
}

/// The tap changes an event only when it is a scroll-wheel event and both
/// the event and the configuration are at hand; every other event,
/// including the notices that the tap was disabled, passes unchanged.
pub open spec fn changes_event(event_type: u32, has_event: bool, has_config: bool) -> bool {
    event_type == SCROLL_WHEEL && has_event && has_config
}

/// Whether the tap looks into this event at all (see `changes_event`).
pub fn handles_event(event_type: u32, has_event: bool, has_config: bool) -> (r: bool)
    ensures
        r == changes_event(event_type, has_event, has_config),
{
    if event_type == TAP_DISABLED_BY_TIMEOUT || event_type == TAP_DISABLED_BY_USER_INPUT {
        return false;
    }
    if event_type != SCROLL_WHEEL || !has_event || !has_config {
        return false;
    }
    true
}

/// The axes of one scroll event that are reversed.
#[derive(Clone, Copy, PartialEq, Eq, Structural)]
pub struct Inversion {
    /// Reverse the vertical axis.
    pub vertical: bool,
    /// Reverse the horizontal axis.
    pub horizontal: bool,
}

/// Vertical scrolling is reversed by the trackpad setting for events from
/// continuous devices and by the mouse setting for the others; horizontal
/// scrolling by the horizontal setting, whatever the device.
pub open spec fn inversion_for(config: Config, continuous: bool) -> Inversion {
    Inversion {
        vertical: if continuous {
            config.reverse_trackpad
        } else {
            config.reverse_mouse
        },
        horizontal: config.reverse_horizontal,
    }
}

/// Whether the device-kind field of an event marks it as continuous.
pub fn is_continuous(field_value: i64) -> (r: bool)
    ensures
        r == (field_value != 0),
{
    field_value != 0
}

/// The axes to reverse for a scroll event (see `inversion_for`).
pub fn inversion(config: &Config, continuous: bool) -> (r: Inversion)
    ensures
        r == inversion_for(*config, continuous),
        r.horizontal == config.reverse_horizontal,
        r.vertical == (if continuous {
            config.reverse_trackpad
        } else {
            config.reverse_mouse
        }),
{
    let vertical = if continuous {
        config.reverse_trackpad
    } else {
        config.reverse_mouse
    };
    Inversion { vertical, horizontal: config.reverse_horizontal }
}

/// Only scroll-wheel events (type 22) are ever changed, and only when both
/// the event and the configuration are at hand; the notices that the tap
/// was disabled pass through untouched.
pub proof fn lemma_only_scroll_events_change(event_type: u32, has_event: bool, has_config: bool)
    ensures
        changes_event(event_type, has_event, has_config) <==> (event_type == 22 && has_event
            && has_config),
        !changes_event(0xffff_fffe, has_event, has_config),
        !changes_event(0xffff_ffff, has_event, has_config),
{
}

/// For every configuration and device kind, the horizontal axis is
/// reversed exactly when the horizontal setting is on, and the vertical
/// axis exactly when the setting for that kind of device (trackpad for
/// continuous devices, mouse otherwise) is on.
pub proof fn lemma_inversion_follows_settings(c: Config, continuous: bool)
    ensures
        inversion_for(c, continuous).horizontal == c.reverse_horizontal,
        continuous ==> inversion_for(c, continuous).vertical == c.reverse_trackpad,
        !continuous ==> inversion_for(c, continuous).vertical == c.reverse_mouse,
{
}

/// A configuration that reverses nothing leaves every scroll event as it is.
pub proof fn lemma_nothing_reversed(config: Config, continuous: bool)
    requires
        !config.reverse_mouse,
        !config.reverse_trackpad,
        !config.reverse_horizontal,
    ensures
        inversion_for(config, continuous) == (Inversion { vertical: false, horizontal: false }),
{
}

/// Mouse and trackpad are independent: the trackpad setting never changes
/// what happens to wheel events, nor the mouse setting to trackpad events.
pub proof fn lemma_devices_independent(a: Config, b: Config)
    ensures
        a.reverse_mouse == b.reverse_mouse && a.reverse_horizontal == b.reverse_horizontal
            ==> inversion_for(a, false) == inversion_for(b, false),
        a.reverse_trackpad == b.reverse_trackpad && a.reverse_horizontal == b.reverse_horizontal
            ==> inversion_for(a, true) == inversion_for(b, true),
{
}

/// The enable switch plays no part in the per-event decision: it decides
/// only whether the tap is installed at all.
pub proof fn lemma_inversion_ignores_enabled(a: Config, continuous: bool)
    ensures
        inversion_for(a, continuous) == inversion_for(Config { enabled: !a.enabled, ..a }, continuous),
{
}

/// The session that runs the scroll reverser in the foreground.
pub fn run() -> (s: Session)
    ensures
        s@ == initial(CommandView::Run),
{
    Session::new(Command::Run)
}

} // verus!
