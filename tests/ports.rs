use gc_x::config::Config;
use gc_x::pad::{GButton, GCPad};
use gc_x::port::{PortAction, PortSlot, Ports};

fn pad_at(x: u8) -> GCPad {
    GCPad {
        buttons: GButton { bits: 0 },
        stick_x: x,
        stick_y: 128,
        cstick_x: 128,
        cstick_y: 128,
        trigger_left: 0,
        trigger_right: 0,
    }
}

#[derive(Debug, PartialEq)]
enum Call {
    Create,
    Remove,
    Push,
}

fn tick(slot: &mut PortSlot, p: Option<GCPad>, config: &Config, calls: &mut Vec<Call>) {
    match slot.observe(&p, config) {
        PortAction::CreateTarget => {
            calls.push(Call::Create);
            if let PortAction::Push(_) = slot.target_created(true, &p.unwrap(), config) {
                calls.push(Call::Push);
            }
        },
        PortAction::RemoveTarget => calls.push(Call::Remove),
        PortAction::Push(_) => calls.push(Call::Push),
        PortAction::Idle => {},
    }
}

#[test]
fn arrival_then_departure_creates_and_removes_once() {
    let config = Config::default();
    let mut slot = PortSlot::new();
    let mut calls = Vec::new();
    tick(&mut slot, None, &config, &mut calls);
    tick(&mut slot, Some(pad_at(128)), &config, &mut calls);
    tick(&mut slot, None, &config, &mut calls);
    tick(&mut slot, None, &config, &mut calls);
    assert_eq!(calls, vec![Call::Create, Call::Push, Call::Remove]);
    assert!(!slot.has_target && !slot.connected);
}

#[test]
fn arrival_marks_connected_and_resets_center() {
    let mut config = Config::default();
    config.auto_recenter = true;
    let mut slot = PortSlot::new();
    slot.center.stick_x = 99;
    let a = slot.observe(&Some(pad_at(200)), &config);
    assert!(a == PortAction::CreateTarget);
    assert!(slot.connected && !slot.has_target && slot.must_center);
    assert_eq!(slot.center.stick_x, 0);
}

#[test]
fn failed_creation_leaves_port_disconnected() {
    let config = Config::default();
    let mut slot = PortSlot::new();
    let p = pad_at(128);
    assert!(slot.observe(&Some(p), &config) == PortAction::CreateTarget);
    assert!(slot.target_created(false, &p, &config) == PortAction::Idle);
    assert!(!slot.has_target && !slot.connected);
    // the next tick asks again
    assert!(slot.observe(&Some(p), &config) == PortAction::CreateTarget);
}

#[test]
fn auto_recenter_captures_first_position() {
    let mut config = Config::default();
    config.auto_recenter = true;
    config.deadzone = 0;
    let mut slot = PortSlot::new();
    let p = pad_at(150);
    slot.observe(&Some(p), &config);
    match slot.target_created(true, &p, &config) {
        PortAction::Push(r) => assert_eq!(r.left_x, 0),
        _ => panic!("expected a report"),
    }
    assert!(!slot.must_center);
    assert_eq!(slot.center.stick_x, gc_x::transform::transform_axis(150));
    match slot.observe(&Some(pad_at(160)), &config) {
        PortAction::Push(r) => assert_eq!(r.left_x, 257 * 10),
        _ => panic!("expected a report"),
    }
}

#[test]
fn manual_recenter_applies_once() {
    let mut config = Config::default();
    config.deadzone = 0;
    let mut slot = PortSlot::new();
    let p = pad_at(128);
    slot.observe(&Some(p), &config);
    slot.target_created(true, &p, &config);
    slot.request_recenter();
    match slot.observe(&Some(pad_at(180)), &config) {
        PortAction::Push(r) => assert_eq!(r.left_x, 0),
        _ => panic!("expected a report"),
    }
    match slot.observe(&Some(pad_at(128)), &config) {
        PortAction::Push(r) => assert_eq!(r.left_x, -257 * 52),
        _ => panic!("expected a report"),
    }
}

#[test]
fn ports_are_handled_independently() {
    let config = Config::default();
    let mut ports = Ports::new();
    let pads = [None, Some(pad_at(128)), None, None];
    let actions = ports.observe_all(&pads, &config);
    assert!(actions[0] == PortAction::Idle);
    assert!(actions[1] == PortAction::CreateTarget);
    assert!(actions[2] == PortAction::Idle);
    assert_eq!(ports.connected(), [false, true, false, false]);
    let a = ports.target_created(1, true, &pad_at(128), &config);
    assert!(matches!(a, PortAction::Push(_)));
    let actions = ports.observe_all(&[None, None, None, None], &config);
    assert!(actions[1] == PortAction::RemoveTarget);
    assert_eq!(ports.connected(), [false; 4]);
}
