use gc_x::pad::{decode_frame, GButton, GCPad, FRAME_MARKER, GC_A, GC_L, GC_START, GC_Z};

fn frame_with_port0(status: u8) -> Vec<u8> {
    let mut f = vec![0u8; 37];
    f[0] = FRAME_MARKER;
    f[1] = status;
    f[2] = 0x01;
    f[3] = 0x0b;
    f[4] = 10;
    f[5] = 20;
    f[6] = 30;
    f[7] = 40;
    f[8] = 50;
    f[9] = 60;
    f
}

#[test]
fn port_with_zero_high_nibble_is_empty() {
    let f = frame_with_port0(0x04);
    let pads = decode_frame(&f);
    assert!(pads[0].is_none());
}

#[test]
fn port_with_status_decodes_every_field() {
    let f = frame_with_port0(0x14);
    let pads = decode_frame(&f);
    let expected = GCPad {
        buttons: GButton { bits: 0x0b01 },
        stick_x: 10,
        stick_y: 20,
        cstick_x: 30,
        cstick_y: 40,
        trigger_left: 50,
        trigger_right: 60,
    };
    assert!(pads[0] == Some(expected));
    let pad = pads[0].unwrap();
    assert!(pad.buttons.contains(GC_A));
    assert!(pad.buttons.contains(GC_START));
    assert!(pad.buttons.contains(GC_Z));
    assert!(pad.buttons.contains(GC_L));
    assert!(pads[1].is_none() && pads[2].is_none() && pads[3].is_none());
}

#[test]
fn unknown_button_bits_are_dropped() {
    let mut f = frame_with_port0(0x10);
    f[3] = 0xff;
    let pads = decode_frame(&f);
    assert_eq!(pads[0].unwrap().buttons.bits(), 0x0f01);
}

#[test]
fn fourth_port_uses_last_chunk() {
    let mut f = vec![0u8; 37];
    f[0] = FRAME_MARKER;
    f[28] = 0x22;
    f[29] = 0x02;
    f[31] = 200;
    f[36] = 7;
    let pads = decode_frame(&f);
    assert!(pads[0].is_none() && pads[1].is_none() && pads[2].is_none());
    let p = pads[3].unwrap();
    assert_eq!(p.buttons.bits(), 0x0002);
    assert_eq!(p.stick_x, 200);
    assert_eq!(p.trigger_right, 7);
}

#[test]
fn short_frame_yields_no_pads() {
    let mut f = frame_with_port0(0x14);
    f.pop();
    let pads = decode_frame(&f);
    assert!(pads.iter().all(|p| p.is_none()));
}

#[test]
fn long_frame_yields_no_pads() {
    let mut f = frame_with_port0(0x14);
    f.push(0);
    let pads = decode_frame(&f);
    assert!(pads.iter().all(|p| p.is_none()));
}

#[test]
fn wrong_marker_yields_no_pads() {
    let mut f = frame_with_port0(0x14);
    f[0] = 0x22;
    let pads = decode_frame(&f);
    assert!(pads.iter().all(|p| p.is_none()));
}

#[test]
fn empty_frame_yields_no_pads() {
    let pads = decode_frame(&[]);
    assert!(pads.iter().all(|p| p.is_none()));
}

#[test]
fn truncating_keeps_known_flags() {
    assert_eq!(GButton::from_bits_truncate(0xffff).bits(), 0x0fff);
    assert_eq!(GButton::empty().bits(), 0);
}
