use gc_x::adapter::{
    classify_open_error, compat_transfer_accepted, is_adapter, kernel_driver_step, rumble_payload,
    select_endpoints, wait_step, ConnectOutcome, Endpoint, KernelDriverStep, OpenFailure, PollStep,
    TransportError, WaitStep, WaiterState,
};
use gc_x::pad::FRAME_MARKER;

#[test]
fn device_loss_forces_reconnect_on_next_poll() {
    let mut w = WaiterState::new();
    assert!(w.begin_poll() == PollStep::WaitForAdapter);
    assert!(w.wait_started());
    w.adapter_installed();
    assert!(w.begin_poll() == PollStep::Read);
    let pads = w.read_failed(TransportError::NoDevice);
    assert!(pads.iter().all(|p| p.is_none()));
    assert!(!w.connected);
    assert!(w.begin_poll() == PollStep::WaitForAdapter);
}

#[test]
fn halted_endpoint_is_a_loss() {
    let mut w = WaiterState { connected: true, newly_none: true };
    w.read_failed(TransportError::Pipe);
    assert!(w.begin_poll() == PollStep::WaitForAdapter);
}

#[test]
fn timeout_keeps_the_connection() {
    let mut w = WaiterState { connected: true, newly_none: true };
    let pads = w.read_failed(TransportError::Timeout);
    assert!(pads.iter().all(|p| p.is_none()));
    assert!(w.begin_poll() == PollStep::Read);
}

#[test]
fn hotplug_unplug_is_reported_once() {
    let mut w = WaiterState::new();
    w.wait_started();
    w.adapter_installed();
    w.device_left();
    assert!(w.begin_poll() == PollStep::ReportDisconnect);
    assert!(w.begin_poll() == PollStep::WaitForAdapter);
}

#[test]
fn wait_with_live_connection_does_nothing() {
    let mut w = WaiterState { connected: true, newly_none: false };
    assert!(!w.wait_started());
    assert!(!w.newly_none);
}

#[test]
fn read_decodes_frame() {
    let w = WaiterState { connected: true, newly_none: false };
    let mut f = vec![0u8; 37];
    f[0] = FRAME_MARKER;
    f[1] = 0x10;
    let pads = w.read_done(&f);
    assert!(pads[0].is_some());
    assert!(w.read_done(&f[..36]).iter().all(|p| p.is_none()));
}

#[test]
fn wait_steps() {
    assert!(wait_step(true, ConnectOutcome::Connected, true) == WaitStep::Exit);
    assert!(wait_step(false, ConnectOutcome::Connected, false) == WaitStep::Install);
    assert!(wait_step(false, ConnectOutcome::NotFound, true) == WaitStep::AwaitHotplug);
    assert!(wait_step(false, ConnectOutcome::Failed, false) == WaitStep::Sleep);
}

#[test]
fn adapter_ids() {
    assert!(is_adapter(0x057e, 0x0337));
    assert!(!is_adapter(0x057e, 0x0306));
    assert!(!is_adapter(0x0337, 0x0337));
}

#[test]
fn open_errors() {
    assert!(classify_open_error(TransportError::Access) == OpenFailure::AccessDenied);
    assert!(classify_open_error(TransportError::NotSupported) == OpenFailure::DriverMissing);
    assert!(classify_open_error(TransportError::Busy) == OpenFailure::Failed);
}

#[test]
fn kernel_driver_steps() {
    assert!(kernel_driver_step(Ok(true)) == KernelDriverStep::Detach);
    assert!(kernel_driver_step(Ok(false)) == KernelDriverStep::Proceed);
    assert!(kernel_driver_step(Err(TransportError::NotSupported)) == KernelDriverStep::Proceed);
    assert!(kernel_driver_step(Err(TransportError::Io)) == KernelDriverStep::Abort);
}

#[test]
fn compat_transfer_tolerates_stall() {
    assert!(compat_transfer_accepted(Ok(0)));
    assert!(compat_transfer_accepted(Err(TransportError::Pipe)));
    assert!(!compat_transfer_accepted(Err(TransportError::Timeout)));
}

#[test]
fn endpoints_take_last_of_each_direction() {
    let eps = [
        Endpoint { is_in: true, address: 0x81 },
        Endpoint { is_in: false, address: 0x02 },
        Endpoint { is_in: true, address: 0x83 },
    ];
    assert_eq!(select_endpoints(&eps), (0x83, 0x02));
    assert_eq!(select_endpoints(&[]), (0, 0));
}

#[test]
fn rumble_command_bytes() {
    assert_eq!(rumble_payload([1, 0, 1, 0]), [0x11, 1, 0, 1, 0]);
}
