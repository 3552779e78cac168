//! The per-port input pipeline: axis scaling, recentering, deadzone,
//! trigger scaling and the assembly of a port's report.

use vstd::prelude::*;
use crate::config::{Config, remap_spec, MAX_DEADZONE};
use crate::pad::{GCPad, GC_L, GC_R};

verus! {

/// Share of the trigger travel, in percent, that is treated as rest.
pub const TRIGGER_DEADZONE_PERCENT: u16 = 16;

/// The signed 16-bit axis value of a raw analog byte: `(raw - 128) * 256 + raw`.
pub open spec fn axis_spec(raw: u8) -> int {
    (raw as int - 128) * 256 + raw as int
}

/// Maps a raw analog byte onto the signed 16-bit range, keeping order.
pub fn transform_axis(raw: u8) -> (r: i16)
    ensures
        r as int == axis_spec(raw),
{
    let centered: i16 = raw as i16 - 0x80;
    centered * 256 + raw as i16
}

/// Magnitude below which a centered axis value is snapped to zero.
pub open spec fn deadzone_threshold(percent: u8) -> int {
    32767 * (percent as int) / 100
}

pub open spec fn abs(x: int) -> int {
    if x < 0 {
        -x
    } else {
        x
    }
}

/// A centered axis value after the deadzone: zero when its magnitude is
/// below the threshold, unchanged otherwise.
pub open spec fn deadzone_spec(delta: int, percent: u8) -> int {
    if abs(delta) < deadzone_threshold(percent) {
        0
    } else {
        delta
    }
}

/// Subtracts the captured center from an axis value and applies the deadzone.
pub fn apply_deadzone(value: i16, center: i16, percent: u8) -> (r: i32)
    requires
        percent <= MAX_DEADZONE,
    ensures
        r as int == deadzone_spec(value - center, percent),
{
    let delta: i32 = value as i32 - center as i32;
    let threshold: i32 = (32767 * percent as i32) / 100;
    let magnitude: i32 = if delta < 0 {
        -delta
    } else {
        delta
    };
    if magnitude < threshold {
        0
    } else {
        delta
    }
}

/// Below the deadzone an axis reads zero; at or above it the value keeps
/// its sign (it passes unchanged).
pub proof fn deadzone_keeps_sign(delta: int, percent: u8)
    requires
        percent <= MAX_DEADZONE,
    ensures
        abs(delta) < deadzone_threshold(percent) ==> deadzone_spec(delta, percent) == 0,
        abs(delta) >= deadzone_threshold(percent) ==> deadzone_spec(delta, percent) == delta,
        abs(delta) >= deadzone_threshold(percent) ==> (deadzone_spec(delta, percent) > 0 <==> delta > 0)
            && (deadzone_spec(delta, percent) < 0 <==> delta < 0),
{
}

/// The axis transform keeps order, sends 0 and 255 to the ends of the
/// signed 16-bit range, and sends the raw midpoint 128 to 128, within one
/// raw step (257) of zero.
pub proof fn axis_transform_bounds(a: u8, b: u8)
    ensures
        a < b ==> axis_spec(a) < axis_spec(b),
        a == b ==> axis_spec(a) == axis_spec(b),
        axis_spec(0) == -32768,
        axis_spec(255) == 32767,
        axis_spec(128) == 128,
        -32768 <= axis_spec(a) <= 32767,
{
}

/// A trigger value: full when its digital button is held; otherwise the
/// rest share of the travel is cut off and the remainder rescaled to 0..=255.
pub open spec fn trigger_spec(raw: u8, digital: bool) -> u8 {
    let rest = 255 * TRIGGER_DEADZONE_PERCENT;
    if digital {
        255
    } else if 100 * (raw as int) <= rest {
        0
    } else {
        ((100 * (raw as int) - rest) / (100 - TRIGGER_DEADZONE_PERCENT)) as u8
    }
}

pub fn scale_trigger(raw: u8, digital: bool) -> (r: u8)
    ensures
        r == trigger_spec(raw, digital),
        !digital ==> (r as int) * (100 - TRIGGER_DEADZONE_PERCENT) <= 100 * (raw as int),
{
    if digital {
        return 255;
    }
    let rest: u16 = 255 * TRIGGER_DEADZONE_PERCENT;
    let scaled: u16 = 100 * raw as u16;
    if scaled <= rest {
        0
    } else {
        ((scaled - rest) / (100 - TRIGGER_DEADZONE_PERCENT)) as u8
    }
}

/// Reference stick positions, in transformed axis units, captured at the
/// last recenter.
#[derive(Clone, Copy, Debug, PartialEq, Eq, Structural)]
pub struct Center {
    pub stick_x: i16,
    pub stick_y: i16,
    pub cstick_x: i16,
    pub cstick_y: i16,
}

pub open spec fn zero_center() -> Center {
    Center { stick_x: 0, stick_y: 0, cstick_x: 0, cstick_y: 0 }
}

pub fn center_zero() -> (r: Center)
    ensures
        r == zero_center(),
{
    Center { stick_x: 0, stick_y: 0, cstick_x: 0, cstick_y: 0 }
}

/// The stick positions of `pad`, as a new center.
pub open spec fn center_of_spec(pad: GCPad) -> Center {
    Center {
        stick_x: axis_spec(pad.stick_x) as i16,
        stick_y: axis_spec(pad.stick_y) as i16,
        cstick_x: axis_spec(pad.cstick_x) as i16,
        cstick_y: axis_spec(pad.cstick_y) as i16,
    }
}

pub fn center_of(pad: &GCPad) -> (r: Center)
    ensures
        r == center_of_spec(*pad),
{
    Center {
        stick_x: transform_axis(pad.stick_x),
        stick_y: transform_axis(pad.stick_y),
        cstick_x: transform_axis(pad.cstick_x),
        cstick_y: transform_axis(pad.cstick_y),
    }
}

/// One port's values for a tick: target buttons, scaled triggers, and the
/// stick offsets from the center after the deadzone. The sticks still
/// have to be fitted to the octagonal gate before they reach a target.
#[derive(Clone, Copy, Debug, PartialEq, Eq, Structural)]
pub struct PadReport {
    pub buttons: u16,
    pub left_trigger: u8,
    pub right_trigger: u8,
    pub left_x: i32,
    pub left_y: i32,
    pub right_x: i32,
    pub right_y: i32,
}

pub open spec fn stick_spec(raw: u8, center: i16, percent: u8) -> i32 {
    deadzone_spec(axis_spec(raw) - center, percent) as i32
}

pub open spec fn report_spec(pad: GCPad, center: Center, config: Config) -> PadReport {
    PadReport {
        buttons: remap_spec(pad.buttons.bits, config.buttons@),
        left_trigger: trigger_spec(pad.trigger_left, pad.buttons.bits & GC_L == GC_L),
        right_trigger: trigger_spec(pad.trigger_right, pad.buttons.bits & GC_R == GC_R),
        left_x: stick_spec(pad.stick_x, center.stick_x, config.deadzone),
        left_y: stick_spec(pad.stick_y, center.stick_y, config.deadzone),
        right_x: stick_spec(pad.cstick_x, center.cstick_x, config.deadzone),
        right_y: stick_spec(pad.cstick_y, center.cstick_y, config.deadzone),
    }
}

fn stick(raw: u8, center: i16, percent: u8) -> (r: i32)
    requires
        percent <= MAX_DEADZONE,
    ensures
        r == stick_spec(raw, center, percent),
{
    apply_deadzone(transform_axis(raw), center, percent)
}

/// Translates a pad's state into its report, relative to `center`.
pub fn pad_report(pad: &GCPad, center: &Center, config: &Config) -> (r: PadReport)
    requires
        config.wf(),
    ensures
        r == report_spec(*pad, *center, *config),
{
    PadReport {
        buttons: config.remap(pad.buttons).bits(),
        left_trigger: scale_trigger(pad.trigger_left, pad.buttons.contains(GC_L)),
        right_trigger: scale_trigger(pad.trigger_right, pad.buttons.contains(GC_R)),
        left_x: stick(pad.stick_x, center.stick_x, config.deadzone),
        left_y: stick(pad.stick_y, center.stick_y, config.deadzone),
        right_x: stick(pad.cstick_x, center.cstick_x, config.deadzone),
        right_y: stick(pad.cstick_y, center.cstick_y, config.deadzone),
    }
}

} // verus!
