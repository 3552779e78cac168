//! The adapter connection: the decisions of the opening handshake, and the
//! state machine that polls, reports disconnects, and waits for reconnection.

use vstd::prelude::*;
use crate::pad::{GCPad, decode_frame, decode_spec, empty_pads, no_pads};

verus! {

/// USB vendor ID of the adapter.
pub const ADAPTER_VENDOR_ID: u16 = 0x057e;

/// USB product ID of the adapter.
pub const ADAPTER_PRODUCT_ID: u16 = 0x0337;

/// Request type of the compatibility control transfer sent after opening.
pub const COMPAT_REQUEST_TYPE: u8 = 0x21;

/// Request of the compatibility control transfer.
pub const COMPAT_REQUEST: u8 = 11;

/// Value of the compatibility control transfer.
pub const COMPAT_VALUE: u16 = 0x0001;

/// One-byte command that starts the adapter's input stream.
pub const ACTIVATE_COMMAND: u8 = 0x13;

/// First byte of a rumble command.
pub const RUMBLE_COMMAND: u8 = 0x11;

/// Timeout of a single interrupt read or write, in milliseconds.
pub const IO_TIMEOUT_MS: u64 = 16;

/// Delay between connection attempts when hotplug events are unavailable,
/// in milliseconds.
pub const RETRY_INTERVAL_MS: u64 = 500;

/// The failures a USB transfer or device operation can report.
#[derive(Clone, Copy, Debug, PartialEq, Eq, Structural)]
pub enum TransportError {
    Io,
    InvalidParam,
    Access,
    NoDevice,
    NotFound,
    Busy,
    Timeout,
    Overflow,
    Pipe,
    Interrupted,
    NoMem,
    NotSupported,
    BadDescriptor,
    Other,
}

/// Whether a device reports the adapter's vendor and product IDs.
pub fn is_adapter(vendor_id: u16, product_id: u16) -> (r: bool)
    ensures
        r == (vendor_id == ADAPTER_VENDOR_ID && product_id == ADAPTER_PRODUCT_ID),
{
    vendor_id == ADAPTER_VENDOR_ID && product_id == ADAPTER_PRODUCT_ID
}

/// Why opening the adapter failed, as far as the user is concerned.
#[derive(Clone, Copy, Debug, PartialEq, Eq, Structural)]
pub enum OpenFailure {
    /// Another process probably holds the device; retried later.
    AccessDenied,
    /// The USB driver is not installed; fatal.
    DriverMissing,
    /// Any other failure; retried later.
    Failed,
}

pub fn classify_open_error(e: TransportError) -> (r: OpenFailure)
    ensures
        r == (if e == TransportError::Access {
            OpenFailure::AccessDenied
        } else if e == TransportError::NotSupported {
            OpenFailure::DriverMissing
        } else {
            OpenFailure::Failed
        }),
{
    match e {
        TransportError::Access => OpenFailure::AccessDenied,
        TransportError::NotSupported => OpenFailure::DriverMissing,
        _ => OpenFailure::Failed,
    }
}

/// What to do after asking whether a kernel driver holds interface 0.
#[derive(Clone, Copy, Debug, PartialEq, Eq, Structural)]
pub enum KernelDriverStep {
    Detach,
    Proceed,
    Abort,
}

/// A bound kernel driver is detached; an answer of "none", or a platform
/// without the notion, lets the handshake go on; any other error ends the
/// attempt.
pub fn kernel_driver_step(active: Result<bool, TransportError>) -> (r: KernelDriverStep)
    ensures
        r == (match active {
            Ok(true) => KernelDriverStep::Detach,
            Ok(false) => KernelDriverStep::Proceed,
            Err(TransportError::NotSupported) => KernelDriverStep::Proceed,
            Err(_) => KernelDriverStep::Abort,
        }),
{
    match active {
        Ok(true) => KernelDriverStep::Detach,
        Ok(false) => KernelDriverStep::Proceed,
        Err(TransportError::NotSupported) => KernelDriverStep::Proceed,
        Err(_) => KernelDriverStep::Abort,
    }
}

/// Whether the handshake goes on after the compatibility control transfer:
/// a stall is what some adapters answer and is accepted.
pub fn compat_transfer_accepted(result: Result<usize, TransportError>) -> (r: bool)
    ensures
        r == (result is Ok || result == Err::<usize, TransportError>(TransportError::Pipe)),
{
    match result {
        Ok(_) => true,
        Err(TransportError::Pipe) => true,
        Err(_) => false,
    }
}

/// An endpoint of the claimed interface.
#[derive(Clone, Copy, Debug, PartialEq, Eq, Structural)]
pub struct Endpoint {
    pub is_in: bool,
    pub address: u8,
}

/// The address of the last endpoint of the given direction, or 0.
pub open spec fn last_address(eps: Seq<Endpoint>, is_in: bool) -> u8
    decreases eps.len(),
{
    if eps.len() == 0 {
        0
    } else if eps.last().is_in == is_in {
        eps.last().address
    } else {
        last_address(eps.drop_last(), is_in)
    }
}

/// The IN and OUT endpoint addresses to use: the last of each direction.
pub fn select_endpoints(eps: &[Endpoint]) -> (r: (u8, u8))
    ensures
        r == (last_address(eps@, true), last_address(eps@, false)),
{
    let mut endpoint_in: u8 = 0;
    let mut endpoint_out: u8 = 0;
    let mut i: usize = 0;
    while i < eps.len()
        invariant
            i <= eps@.len(),
            endpoint_in == last_address(eps@.subrange(0, i as int), true),
            endpoint_out == last_address(eps@.subrange(0, i as int), false),
        decreases eps@.len() - i,
    {
        let ep = eps[i];
        assert(eps@.subrange(0, i + 1).drop_last() =~= eps@.subrange(0, i as int));
        if ep.is_in {
            endpoint_in = ep.address;
        } else {
            endpoint_out = ep.address;
        }
        i = i + 1;
    }
    assert(eps@.subrange(0, eps@.len() as int) =~= eps@);
    (endpoint_in, endpoint_out)
}

/// The rumble command for the four ports' motor states.
pub fn rumble_payload(rumble: [u8; 4]) -> (r: [u8; 5])
    ensures
        r@ == seq![RUMBLE_COMMAND, rumble@[0], rumble@[1], rumble@[2], rumble@[3]],
{
    let r: [u8; 5] = [RUMBLE_COMMAND, rumble[0], rumble[1], rumble[2], rumble[3]];
    assert(r@ =~= seq![RUMBLE_COMMAND, rumble@[0], rumble@[1], rumble@[2], rumble@[3]]);
    r
}

/// A failed read that means the adapter is gone: it was unplugged, or its
/// endpoint halted.
pub open spec fn is_device_loss(e: TransportError) -> bool {
    e == TransportError::NoDevice || e == TransportError::Pipe
}

/// What a call to poll the pads does first.
#[derive(Clone, Copy, Debug, PartialEq, Eq, Structural)]
pub enum PollStep {
    /// Read one report from the live connection.
    Read,
    /// Report every port empty once, for a connection that just went away.
    ReportDisconnect,
    /// Block until an adapter is connected, then read.
    WaitForAdapter,
}

/// What a connection attempt while waiting for the adapter came to.
#[derive(Clone, Copy, Debug, PartialEq, Eq, Structural)]
pub enum ConnectOutcome {
    Connected,
    NotFound,
    Failed,
}

/// The next move of the wait for an adapter.
#[derive(Clone, Copy, Debug, PartialEq, Eq, Structural)]
pub enum WaitStep {
    /// Shutdown was asked for: stop waiting.
    Exit,
    /// Keep the new connection and stop waiting.
    Install,
    /// Sleep until a hotplug event, then try again.
    AwaitHotplug,
    /// Sleep for the retry interval, then try again.
    Sleep,
}

/// The decision after one connection attempt.
pub open spec fn wait_step_spec(exit_requested: bool, outcome: ConnectOutcome, hotplug: bool) -> WaitStep {
    if exit_requested {
        WaitStep::Exit
    } else if outcome == ConnectOutcome::Connected {
        WaitStep::Install
    } else if hotplug {
        WaitStep::AwaitHotplug
    } else {
        WaitStep::Sleep
    }
}

pub fn wait_step(exit_requested: bool, outcome: ConnectOutcome, hotplug: bool) -> (r: WaitStep)
    ensures
        r == wait_step_spec(exit_requested, outcome, hotplug),
{
    if exit_requested {
        WaitStep::Exit
    } else if outcome == ConnectOutcome::Connected {
        WaitStep::Install
    } else if hotplug {
        WaitStep::AwaitHotplug
    } else {
        WaitStep::Sleep
    }
}

/// The connection state shared by the poller and the hotplug events.
#[derive(Clone, Copy, Debug, PartialEq, Eq, Structural)]
pub struct WaiterState {
    /// An adapter connection is live.
    pub connected: bool,
    /// A wait began since the last disconnect was reported; a loss seen
    /// now is reported once as empty ports.
    pub newly_none: bool,
}

impl WaiterState {
    pub fn new() -> (r: WaiterState)
        ensures
            !r.connected && !r.newly_none,
    {
        WaiterState { connected: false, newly_none: false }
    }

    pub open spec fn begin_poll_spec(self) -> (WaiterState, PollStep) {
        if self.connected {
            (self, PollStep::Read)
        } else if self.newly_none {
            (WaiterState { newly_none: false, ..self }, PollStep::ReportDisconnect)
        } else {
            (self, PollStep::WaitForAdapter)
        }
    }

    /// Chooses how a poll starts: read from a live connection; else report
    /// a fresh disconnect once; else wait for the adapter.
    pub fn begin_poll(&mut self) -> (r: PollStep)
        ensures
            (*final(self), r) == old(self).begin_poll_spec(),
    {
        if self.connected {
            PollStep::Read
        } else if self.newly_none {
            self.newly_none = false;
            PollStep::ReportDisconnect
        } else {
            PollStep::WaitForAdapter
        }
    }

    /// Marks the start of a wait; returns whether there is anything to wait for.
    pub fn wait_started(&mut self) -> (waiting: bool)
        ensures
            waiting == !old(self).connected,
            *final(self) == (if waiting {
                WaiterState { newly_none: true, ..*old(self) }
            } else {
                *old(self)
            }),
    {
        if self.connected {
            false
        } else {
            self.newly_none = true;
            true
        }
    }

    /// A new connection has been installed.
    pub fn adapter_installed(&mut self)
        ensures
            *final(self) == (WaiterState { connected: true, ..*old(self) }),
    {
        self.connected = true;
    }

    /// A hotplug event says the adapter was unplugged.
    pub fn device_left(&mut self)
        ensures
            *final(self) == (WaiterState { connected: false, ..*old(self) }),
    {
        self.connected = false;
    }

    /// A read returned `frame`.
    pub fn read_done(&self, frame: &[u8]) -> (r: [Option<GCPad>; 4])
        ensures
            r@ == decode_spec(frame@),
    {
        decode_frame(frame)
    }

    pub open spec fn read_failed_spec(self, e: TransportError) -> WaiterState {
        if is_device_loss(e) {
            WaiterState { connected: false, newly_none: false }
        } else {
            self
        }
    }

    /// A read failed with `e`. The tick reports every port empty; if the
    /// adapter is lost the connection is dropped, so the next poll waits
    /// for a new one.
    pub fn read_failed(&mut self, e: TransportError) -> (r: [Option<GCPad>; 4])
        ensures
            r@ == no_pads(),
            *final(self) == old(self).read_failed_spec(e),
    {
        match e {
            TransportError::NoDevice | TransportError::Pipe => {
                self.connected = false;
                self.newly_none = false;
            },
            _ => {},
        }
        empty_pads()
    }
}

/// After a read fails because the adapter was lost, the tick reports no
/// pads and the next poll waits for (and so reconnects) an adapter rather
/// than reading again.
pub proof fn device_loss_forces_reconnect(s: WaiterState, e: TransportError)
    requires
        s.connected,
        is_device_loss(e),
    ensures
        !s.read_failed_spec(e).connected,
        s.read_failed_spec(e).begin_poll_spec().1 == PollStep::WaitForAdapter,
{
}

/// A read error other than a loss keeps the connection: the next poll reads again.
pub proof fn transient_error_keeps_connection(s: WaiterState, e: TransportError)
    requires
        s.connected,
        !is_device_loss(e),
    ensures
        s.read_failed_spec(e).begin_poll_spec().1 == PollStep::Read,
{
}

/// A connection dropped by a hotplug event after a wait is reported as one
/// tick of empty ports, and the poll after that waits for the adapter.
pub proof fn unplug_reported_once(s: WaiterState)
    requires
        s.connected,
        s.newly_none,
    ensures
        ({
            let left = WaiterState { connected: false, ..s };
            let (after, step) = left.begin_poll_spec();
            step == PollStep::ReportDisconnect && after.begin_poll_spec().1 == PollStep::WaitForAdapter
        }),
{
}

} // verus!
