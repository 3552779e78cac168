use gc_x::config::{Config, XB_A, XB_B, XB_DPAD_LEFT, XB_DPAD_UP, XB_GUIDE, XB_RIGHT_SHOULDER, XB_START, XB_X, XB_Y};
use gc_x::pad::{GButton, GCPad, GC_A, GC_B, GC_DPAD_LEFT, GC_DPAD_UP, GC_L, GC_R, GC_START, GC_X, GC_Y, GC_Z};
use gc_x::transform::{apply_deadzone, center_of, center_zero, pad_report, scale_trigger, transform_axis};

#[test]
fn axis_boundaries() {
    assert_eq!(transform_axis(0), -32768);
    assert_eq!(transform_axis(255), 32767);
    assert_eq!(transform_axis(128), 128);
    assert_eq!(transform_axis(127), -129);
    assert_eq!(transform_axis(1), -32511);
}

#[test]
fn axis_is_monotonic() {
    for raw in 0u8..255 {
        assert!(transform_axis(raw) < transform_axis(raw + 1));
    }
}

#[test]
fn deadzone_snaps_small_offsets() {
    // 5 percent: threshold 32767 * 5 / 100 = 1638
    assert_eq!(apply_deadzone(1637, 0, 5), 0);
    assert_eq!(apply_deadzone(-1637, 0, 5), 0);
    assert_eq!(apply_deadzone(1638, 0, 5), 1638);
    assert_eq!(apply_deadzone(-1638, 0, 5), -1638);
    assert_eq!(apply_deadzone(2000, 1000, 5), 0);
    assert_eq!(apply_deadzone(3000, 1000, 5), 2000);
}

#[test]
fn deadzone_zero_and_full() {
    assert_eq!(apply_deadzone(1, 0, 0), 1);
    assert_eq!(apply_deadzone(0, 0, 0), 0);
    assert_eq!(apply_deadzone(32766, 0, 100), 0);
    assert_eq!(apply_deadzone(32767, 0, 100), 32767);
    assert_eq!(apply_deadzone(-32768, 0, 100), -32768);
}

#[test]
fn deadzone_never_flips_sign() {
    for pct in [0u8, 1, 5, 17, 50, 99, 100] {
        for v in [-32768i16, -20000, -1639, -1, 0, 1, 1639, 20000, 32767] {
            for c in [-1000i16, 0, 1000] {
                let r = apply_deadzone(v, c, pct);
                let delta = v as i32 - c as i32;
                assert!(r == 0 || r == delta);
                assert!(r == 0 || (r > 0) == (delta > 0));
                let threshold = 32767 * pct as i32 / 100;
                if delta.abs() < threshold {
                    assert_eq!(r, 0);
                } else {
                    assert_eq!(r, delta);
                }
            }
        }
    }
}

#[test]
fn deadzone_offset_wider_than_i16() {
    assert_eq!(apply_deadzone(32767, -32768, 5), 65535);
    assert_eq!(apply_deadzone(-32768, 32767, 5), -65535);
}

#[test]
fn trigger_scaling() {
    assert_eq!(scale_trigger(0, false), 0);
    assert_eq!(scale_trigger(40, false), 0);
    assert_eq!(scale_trigger(41, false), 0);
    assert_eq!(scale_trigger(42, false), 1);
    assert_eq!(scale_trigger(128, false), 103);
    assert_eq!(scale_trigger(255, false), 255);
    assert_eq!(scale_trigger(0, true), 255);
    assert_eq!(scale_trigger(100, true), 255);
}

fn pad(buttons: u16) -> GCPad {
    GCPad {
        buttons: GButton { bits: buttons },
        stick_x: 128,
        stick_y: 128,
        cstick_x: 128,
        cstick_y: 128,
        trigger_left: 0,
        trigger_right: 0,
    }
}

#[test]
fn default_mapping_table_lookup() {
    let config = Config::default();
    assert_eq!(config.buttons, [0, 2, 1, 3, 5, 7]);
    let names = gc_x::config::xbutton_names();
    let expected = ["A", "X", "B", "Y", "RB", "Start"];
    for (gc, name) in expected.iter().enumerate() {
        assert_eq!(names[config.buttons[gc]], *name);
    }
}

#[test]
fn default_mapping_translates_each_button() {
    let config = Config::default();
    let cases = [
        (GC_A, XB_A),
        (GC_B, XB_X),
        (GC_X, XB_B),
        (GC_Y, XB_Y),
        (GC_Z, XB_RIGHT_SHOULDER),
        (GC_START, XB_START),
    ];
    for (gc, xb) in cases {
        assert_eq!(config.remap(GButton { bits: gc }).bits(), xb);
    }
}

#[test]
fn dpad_maps_one_to_one_and_combines() {
    let config = Config::default();
    let r = config.remap(GButton { bits: GC_DPAD_LEFT | GC_DPAD_UP | GC_A });
    assert_eq!(r.bits(), XB_DPAD_LEFT | XB_DPAD_UP | XB_A);
    assert_eq!(config.remap(GButton { bits: GC_L | GC_R }).bits(), 0);
}

#[test]
fn custom_mapping_is_used() {
    let mut config = Config::default();
    config.buttons[0] = 10;
    assert_eq!(config.remap(GButton { bits: GC_A }).bits(), XB_GUIDE);
}

#[test]
fn report_of_resting_pad() {
    let config = Config::default();
    let r = pad_report(&pad(GC_R), &center_zero(), &config);
    assert_eq!(r.buttons, 0);
    assert_eq!(r.left_trigger, 0);
    assert_eq!(r.right_trigger, 255);
    // 128 maps to 128, inside the 5 percent deadzone
    assert_eq!((r.left_x, r.left_y, r.right_x, r.right_y), (0, 0, 0, 0));
}

#[test]
fn report_relative_to_center() {
    let mut config = Config::default();
    config.deadzone = 0;
    let mut p = pad(0);
    let center = center_of(&p);
    p.stick_x = 200;
    p.cstick_y = 0;
    let r = pad_report(&p, &center, &config);
    assert_eq!(r.left_x, 257 * 72);
    assert_eq!(r.left_y, 0);
    assert_eq!(r.right_y, -257 * 128);
}
