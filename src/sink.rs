//! The virtual controller bus: its status codes, and the bookkeeping of
//! bus connections, virtual pads and their callbacks.

use vstd::prelude::*;

verus! {

/// Status codes returned by the virtual controller bus client library.
pub const VIGEM_ERROR_NONE: u32 = 0x20000000;
pub const VIGEM_ERROR_BUS_NOT_FOUND: u32 = 0xE0000001;
pub const VIGEM_ERROR_NO_FREE_SLOT: u32 = 0xE0000002;
pub const VIGEM_ERROR_INVALID_TARGET: u32 = 0xE0000003;
pub const VIGEM_ERROR_REMOVAL_FAILED: u32 = 0xE0000004;
pub const VIGEM_ERROR_ALREADY_CONNECTED: u32 = 0xE0000005;
pub const VIGEM_ERROR_TARGET_UNINITIALIZED: u32 = 0xE0000006;
pub const VIGEM_ERROR_TARGET_NOT_PLUGGED_IN: u32 = 0xE0000007;
pub const VIGEM_ERROR_BUS_VERSION_MISMATCH: u32 = 0xE0000008;
pub const VIGEM_ERROR_BUS_ACCESS_FAILED: u32 = 0xE0000009;
pub const VIGEM_ERROR_CALLBACK_ALREADY_REGISTERED: u32 = 0xE0000010;
pub const VIGEM_ERROR_CALLBACK_NOT_FOUND: u32 = 0xE0000011;
pub const VIGEM_ERROR_BUS_ALREADY_CONNECTED: u32 = 0xE0000012;
pub const VIGEM_ERROR_BUS_INVALID_HANDLE: u32 = 0xE0000013;
pub const VIGEM_ERROR_XUSB_USERINDEX_OUT_OF_RANGE: u32 = 0xE0000014;
pub const VIGEM_ERROR_INVALID_PARAMETER: u32 = 0xE0000015;
pub const VIGEM_ERROR_NOT_SUPPORTED: u32 = 0xE0000016;

/// A status of the virtual controller bus.
#[derive(Clone, Copy, Debug, PartialEq, Eq, Structural)]
pub enum Error {
    NoError,
    BusNotFound,
    NoFreeSlot,
    InvalidTarget,
    RemovalFailed,
    AlreadyConnected,
    TargetUninitialized,
    TargetNotPluggedIn,
    BusVersionMismatch,
    BusAccessFailed,
    CallbackAlreadyRegistered,
    CallbackNotFound,
    BusAlreadyConnected,
    BusInvalidHandle,
    XusbUserIndexOutOfRange,
    InvalidParameter,
    NotSupported,
}

/// The status code of each status.
pub open spec fn error_code(e: Error) -> u32 {
    match e {
        Error::NoError => VIGEM_ERROR_NONE,
        Error::BusNotFound => VIGEM_ERROR_BUS_NOT_FOUND,
        Error::NoFreeSlot => VIGEM_ERROR_NO_FREE_SLOT,
        Error::InvalidTarget => VIGEM_ERROR_INVALID_TARGET,
        Error::RemovalFailed => VIGEM_ERROR_REMOVAL_FAILED,
        Error::AlreadyConnected => VIGEM_ERROR_ALREADY_CONNECTED,
        Error::TargetUninitialized => VIGEM_ERROR_TARGET_UNINITIALIZED,
        Error::TargetNotPluggedIn => VIGEM_ERROR_TARGET_NOT_PLUGGED_IN,
        Error::BusVersionMismatch => VIGEM_ERROR_BUS_VERSION_MISMATCH,
        Error::BusAccessFailed => VIGEM_ERROR_BUS_ACCESS_FAILED,
        Error::CallbackAlreadyRegistered => VIGEM_ERROR_CALLBACK_ALREADY_REGISTERED,
        Error::CallbackNotFound => VIGEM_ERROR_CALLBACK_NOT_FOUND,
        Error::BusAlreadyConnected => VIGEM_ERROR_BUS_ALREADY_CONNECTED,
        Error::BusInvalidHandle => VIGEM_ERROR_BUS_INVALID_HANDLE,
        Error::XusbUserIndexOutOfRange => VIGEM_ERROR_XUSB_USERINDEX_OUT_OF_RANGE,
        Error::InvalidParameter => VIGEM_ERROR_INVALID_PARAMETER,
        Error::NotSupported => VIGEM_ERROR_NOT_SUPPORTED,
    }
}

/// Whether `code` is one of the status codes the bus can return.
pub open spec fn is_status_code(code: u32) -> bool {
    exists|e: Error| error_code(e) == code
}

/// The result a status stands for.
pub open spec fn status_result(e: Error) -> Result<(), Error> {
    if e == Error::NoError {
        Ok(())
    } else {
        Err(e)
    }
}

/// The result of a bus call that returned the status `code`.
pub open spec fn code_result(code: u32) -> Result<(), Error> {
    status_result(choose|e: Error| error_code(e) == code)
}

/// A short description of each status.
pub open spec fn error_message(e: Error) -> Seq<char> {
    match e {
        Error::NoError => "no error"@,
        Error::BusNotFound => "bus not found"@,
        Error::NoFreeSlot => "no free slot"@,
        Error::InvalidTarget => "invalid target"@,
        Error::RemovalFailed => "removal failed"@,
        Error::AlreadyConnected => "already connected"@,
        Error::TargetUninitialized => "target uninitialized"@,
        Error::TargetNotPluggedIn => "target not plugged in"@,
        Error::BusVersionMismatch => "bus version mismatch"@,
        Error::BusAccessFailed => "bus access failed"@,
        Error::CallbackAlreadyRegistered => "callback already registered"@,
        Error::CallbackNotFound => "callback not found"@,
        Error::BusAlreadyConnected => "bus already connected"@,
        Error::BusInvalidHandle => "bus invalid handle"@,
        Error::XusbUserIndexOutOfRange => "xusb user index out of range"@,
        Error::InvalidParameter => "invalid parameter"@,
        Error::NotSupported => "not supported"@,
    }
}

impl Error {
    pub open spec fn new_spec(code: u32) -> Error {
        if code == VIGEM_ERROR_NONE {
            Error::NoError
        } else if code == VIGEM_ERROR_BUS_NOT_FOUND {
            Error::BusNotFound
        } else if code == VIGEM_ERROR_NO_FREE_SLOT {
            Error::NoFreeSlot
        } else if code == VIGEM_ERROR_INVALID_TARGET {
            Error::InvalidTarget
        } else if code == VIGEM_ERROR_REMOVAL_FAILED {
            Error::RemovalFailed
        } else if code == VIGEM_ERROR_ALREADY_CONNECTED {
            Error::AlreadyConnected
        } else if code == VIGEM_ERROR_TARGET_UNINITIALIZED {
            Error::TargetUninitialized
        } else if code == VIGEM_ERROR_TARGET_NOT_PLUGGED_IN {
            Error::TargetNotPluggedIn
        } else if code == VIGEM_ERROR_BUS_VERSION_MISMATCH {
            Error::BusVersionMismatch
        } else if code == VIGEM_ERROR_BUS_ACCESS_FAILED {
            Error::BusAccessFailed
        } else if code == VIGEM_ERROR_CALLBACK_ALREADY_REGISTERED {
            Error::CallbackAlreadyRegistered
        } else if code == VIGEM_ERROR_CALLBACK_NOT_FOUND {
            Error::CallbackNotFound
        } else if code == VIGEM_ERROR_BUS_ALREADY_CONNECTED {
            Error::BusAlreadyConnected
        } else if code == VIGEM_ERROR_BUS_INVALID_HANDLE {
            Error::BusInvalidHandle
        } else if code == VIGEM_ERROR_XUSB_USERINDEX_OUT_OF_RANGE {
            Error::XusbUserIndexOutOfRange
        } else if code == VIGEM_ERROR_INVALID_PARAMETER {
            Error::InvalidParameter
        } else {
            Error::NotSupported
        }
    }

    /// The status with code `code`.
    pub fn new(code: u32) -> (r: Error)
        requires
            is_status_code(code),
        ensures
            error_code(r) == code,
            r == Error::new_spec(code),
    {
        match code {
            VIGEM_ERROR_NONE => Error::NoError,
            VIGEM_ERROR_BUS_NOT_FOUND => Error::BusNotFound,
            VIGEM_ERROR_NO_FREE_SLOT => Error::NoFreeSlot,
            VIGEM_ERROR_INVALID_TARGET => Error::InvalidTarget,
            VIGEM_ERROR_REMOVAL_FAILED => Error::RemovalFailed,
            VIGEM_ERROR_ALREADY_CONNECTED => Error::AlreadyConnected,
            VIGEM_ERROR_TARGET_UNINITIALIZED => Error::TargetUninitialized,
            VIGEM_ERROR_TARGET_NOT_PLUGGED_IN => Error::TargetNotPluggedIn,
            VIGEM_ERROR_BUS_VERSION_MISMATCH => Error::BusVersionMismatch,
            VIGEM_ERROR_BUS_ACCESS_FAILED => Error::BusAccessFailed,
            VIGEM_ERROR_CALLBACK_ALREADY_REGISTERED => Error::CallbackAlreadyRegistered,
            VIGEM_ERROR_CALLBACK_NOT_FOUND => Error::CallbackNotFound,
            VIGEM_ERROR_BUS_ALREADY_CONNECTED => Error::BusAlreadyConnected,
            VIGEM_ERROR_BUS_INVALID_HANDLE => Error::BusInvalidHandle,
            VIGEM_ERROR_XUSB_USERINDEX_OUT_OF_RANGE => Error::XusbUserIndexOutOfRange,
            VIGEM_ERROR_INVALID_PARAMETER => Error::InvalidParameter,
            _ => Error::NotSupported,
        }
    }

    /// Success for `NoError`, the status itself as the error otherwise.
    pub fn into_result(self) -> (r: Result<(), Error>)
        ensures
            r == status_result(self),
    {
        match self {
            Error::NoError => Ok(()),
            err => Err(err),
        }
    }

    /// A short description of the status.
    pub fn message(&self) -> (r: &'static str)
        ensures
            r@ == error_message(*self),
    {
        match self {
            Error::NoError => "no error",
            Error::BusNotFound => "bus not found",
            Error::NoFreeSlot => "no free slot",
            Error::InvalidTarget => "invalid target",
            Error::RemovalFailed => "removal failed",
            Error::AlreadyConnected => "already connected",
            Error::TargetUninitialized => "target uninitialized",
            Error::TargetNotPluggedIn => "target not plugged in",
            Error::BusVersionMismatch => "bus version mismatch",
            Error::BusAccessFailed => "bus access failed",
            Error::CallbackAlreadyRegistered => "callback already registered",
            Error::CallbackNotFound => "callback not found",
            Error::BusAlreadyConnected => "bus already connected",
            Error::BusInvalidHandle => "bus invalid handle",
            Error::XusbUserIndexOutOfRange => "xusb user index out of range",
            Error::InvalidParameter => "invalid parameter",
            Error::NotSupported => "not supported",
        }
    }
}

/// Whether the bus can return `code`.
pub fn is_status(code: u32) -> (r: bool)
    ensures
        r == is_status_code(code),
{
    // The failure codes form two runs: 0xE0000001..=0xE0000009 and 0xE0000010..=0xE0000016.
    let in_first_run = VIGEM_ERROR_BUS_NOT_FOUND <= code && code <= VIGEM_ERROR_BUS_ACCESS_FAILED;
    let in_second_run = VIGEM_ERROR_CALLBACK_ALREADY_REGISTERED <= code && code <= VIGEM_ERROR_NOT_SUPPORTED;
    let ok = code == VIGEM_ERROR_NONE || in_first_run || in_second_run;
    proof {
        if ok {
            let e = Error::new_spec(code);
            assert(error_code(e) == code);
        }
    }
    ok
}

/// The status behind a code is unique.
proof fn lemma_code_status(code: u32, e: Error)
    requires
        error_code(e) == code,
    ensures
        code_result(code) == status_result(e),
{
    let c = choose|c: Error| error_code(c) == code;
    assert(error_code(c) == code);
    assert(c == e);
}

/// The result of a bus call, from the status code it returned.
pub fn code_to_result(code: u32) -> (r: Result<(), Error>)
    requires
        is_status_code(code),
    ensures
        r == code_result(code),
        r is Ok <==> code == VIGEM_ERROR_NONE,
{
    let e = Error::new(code);
    proof {
        lemma_code_status(code, e);
    }
    e.into_result()
}

/// An input report for a virtual Xbox 360 pad.
#[derive(Clone, Copy, Debug, PartialEq, Eq, Structural)]
pub struct UsbReport {
    pub buttons: u16,
    pub left_trigger: u8,
    pub right_trigger: u8,
    pub left_x: i16,
    pub left_y: i16,
    pub right_x: i16,
    pub right_y: i16,
}

/// A connection to the virtual controller bus, named by an identity the
/// caller assigns.
#[derive(Clone, Copy, Debug, PartialEq, Eq, Structural)]
pub struct Client {
    pub id: u64,
    pub connected: bool,
}

/// A virtual pad. A target owned here is freed (and detached first, if it
/// is attached) when released; a reference only names a target owned
/// elsewhere.
#[derive(Clone, Copy, Debug, PartialEq, Eq, Structural)]
pub struct Target {
    pub index: u32,
    pub is_ref: bool,
    /// The bus connection the target is attached to.
    pub client: Option<u64>,
}

/// A registered force-feedback callback of a target.
#[derive(Clone, Copy, Debug, PartialEq, Eq, Structural)]
pub struct NotificationHandle {
    pub target: u32,
}

impl Client {
    pub fn new(id: u64) -> (r: Client)
        ensures
            r == (Client { id, connected: false }),
    {
        Client { id, connected: false }
    }

    /// Takes the status of a connection attempt to the bus.
    pub fn connect(&mut self, code: u32) -> (r: Result<(), Error>)
        requires
            is_status_code(code),
        ensures
            r == code_result(code),
            final(self).id == old(self).id,
            final(self).connected == (old(self).connected || r is Ok),
    {
        let r = code_to_result(code);
        if r.is_ok() {
            self.connected = true;
        }
        r
    }

    pub fn disconnect(&mut self)
        ensures
            *final(self) == (Client { connected: false, ..*old(self) }),
    {
        self.connected = false;
    }

    /// Takes the status of attaching `target`, which the bus numbered
    /// `index`: on success the target is attached to this client.
    pub fn add_target(&self, target: &mut Target, code: u32, index: u32) -> (r: Result<(), Error>)
        requires
            is_status_code(code),
        ensures
            r == code_result(code),
            r is Ok ==> *final(target) == (Target { index, client: Some(self.id), ..*old(target) }),
            r is Err ==> *final(target) == *old(target),
    {
        let r = code_to_result(code);
        if r.is_ok() {
            target.index = index;
            target.client = Some(self.id);
        }
        r
    }

    /// Takes the status of detaching `target`: on success it is attached
    /// to nothing.
    pub fn remove_target(&self, target: &mut Target, code: u32) -> (r: Result<(), Error>)
        requires
            is_status_code(code),
        ensures
            r == code_result(code),
            r is Ok ==> *final(target) == (Target { client: None, ..*old(target) }),
            r is Err ==> *final(target) == *old(target),
    {
        let r = code_to_result(code);
        if r.is_ok() {
            target.client = None;
        }
        r
    }
}

impl Target {
    /// A fresh target, owned and not attached.
    pub fn new() -> (r: Target)
        ensures
            r == (Target { index: 0, is_ref: false, client: None }),
    {
        Target { index: 0, is_ref: false, client: None }
    }

    /// A reference to the target numbered `index`.
    pub fn new_ref(index: u32) -> (r: Target)
        ensures
            r == (Target { index, is_ref: true, client: None }),
    {
        Target { index, is_ref: true, client: None }
    }

    pub fn index(&self) -> (r: u32)
        ensures
            r == self.index,
    {
        self.index
    }

    /// The client the target is attached to; operations on a target that
    /// is not attached fail as uninitialized.
    pub fn attached_client(&self) -> (r: Result<u64, Error>)
        ensures
            r == (match self.client {
                Some(c) => Ok::<u64, Error>(c),
                None => Err(Error::TargetUninitialized),
            }),
    {
        match self.client {
            Some(c) => Ok(c),
            None => Err(Error::TargetUninitialized),
        }
    }

    /// Takes the status of pushing a report to the target.
    pub fn update(&self, code: u32) -> (r: Result<(), Error>)
        requires
            is_status_code(code),
        ensures
            self.client is None ==> r == Err::<(), Error>(Error::TargetUninitialized),
            self.client is Some ==> r == code_result(code),
    {
        match self.attached_client() {
            Ok(_) => code_to_result(code),
            Err(e) => Err(e),
        }
    }

    /// Takes the status of registering a force-feedback callback.
    pub fn register_notification(&self, code: u32) -> (r: Result<NotificationHandle, Error>)
        requires
            is_status_code(code),
        ensures
            self.client is None ==> r == Err::<NotificationHandle, Error>(Error::TargetUninitialized),
            self.client is Some ==> (r is Ok <==> code == VIGEM_ERROR_NONE),
            self.client is Some && r is Err ==> Err::<(), Error>(r->Err_0) == code_result(code),
            r matches Ok(h) ==> h.target == self.index,
    {
        match self.attached_client() {
            Ok(_) => match code_to_result(code) {
                Ok(()) => Ok(NotificationHandle { target: self.index }),
                Err(e) => Err(e),
            },
            Err(e) => Err(e),
        }
    }

    /// Takes the status and the value of a user-index query.
    pub fn user_index(&self, code: u32, index: u32) -> (r: Result<u8, Error>)
        requires
            is_status_code(code),
        ensures
            self.client is None ==> r == Err::<u8, Error>(Error::TargetUninitialized),
            self.client is Some && code == VIGEM_ERROR_NONE ==> r == Ok::<u8, Error>(index as u8),
            self.client is Some && code != VIGEM_ERROR_NONE ==> r is Err && Err::<(), Error>(r->Err_0)
                == code_result(code),
    {
        match self.attached_client() {
            Ok(_) => match code_to_result(code) {
                Ok(()) => Ok(index as u8),
                Err(e) => Err(e),
            },
            Err(e) => Err(e),
        }
    }

    /// Releasing an owned target: the client it must first be detached
    /// from, if any. It is attached to nothing afterwards.
    pub fn release(&mut self) -> (r: Option<u64>)
        ensures
            r == (if old(self).is_ref {
                None
            } else {
                old(self).client
            }),
            !old(self).is_ref ==> final(self).client is None,
            old(self).is_ref ==> *final(self) == *old(self),
    {
        if self.is_ref {
            None
        } else {
            self.client.take()
        }
    }
}

} // verus!
