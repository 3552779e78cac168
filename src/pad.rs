//! The adapter's input report and the pad states it carries.

use vstd::prelude::*;

verus! {

/// Length in bytes of one input report read from the adapter.
pub const FRAME_LEN: usize = 37;

/// Report-type marker carried by byte 0 of every input report (the HID
/// descriptor type).
pub const FRAME_MARKER: u8 = 0x21;

/// Bytes per port inside an input report.
pub const PORT_CHUNK_LEN: usize = 9;

/// GameCube button flags, as laid out in the adapter's report.
pub const GC_A: u16 = 0x0001;
pub const GC_B: u16 = 0x0002;
pub const GC_X: u16 = 0x0004;
pub const GC_Y: u16 = 0x0008;
pub const GC_DPAD_LEFT: u16 = 0x0010;
pub const GC_DPAD_RIGHT: u16 = 0x0020;
pub const GC_DPAD_DOWN: u16 = 0x0040;
pub const GC_DPAD_UP: u16 = 0x0080;
pub const GC_START: u16 = 0x0100;
pub const GC_Z: u16 = 0x0200;
pub const GC_R: u16 = 0x0400;
pub const GC_L: u16 = 0x0800;

/// Mask of the twelve GameCube button flags.
pub const GBUTTON_ALL: u16 = 0x0fff;

/// The button bitset of a GameCube pad, as the adapter reports it.
#[derive(Clone, Copy, Debug, PartialEq, Eq, Structural)]
pub struct GButton {
    pub bits: u16,
}

impl GButton {

    /// Keeps the known button flags of `bits` and drops the others.
    pub fn from_bits_truncate(bits: u16) -> (r: GButton)
        ensures
            r.bits == bits & GBUTTON_ALL,
    {
        GButton { bits: bits & GBUTTON_ALL }
    }

    pub fn empty() -> (r: GButton)
        ensures
            r.bits == 0,
    {
        GButton { bits: 0 }
    }

    pub fn bits(&self) -> (r: u16)
        ensures
            r == self.bits,
    {
        self.bits
    }

    /// Whether every bit of `flags` is set.
    pub fn contains(&self, flags: u16) -> (r: bool)
        ensures
            r == (self.bits & flags == flags),
    {
        self.bits & flags == flags
    }
}

/// One port's decoded controller state for a single poll.
#[derive(Clone, Copy, Debug, PartialEq, Eq, Structural)]
pub struct GCPad {
    pub buttons: GButton,
    pub stick_x: u8,
    pub stick_y: u8,
    pub cstick_x: u8,
    pub cstick_y: u8,
    pub trigger_left: u8,
    pub trigger_right: u8,
}

/// The little-endian 16-bit value of two bytes.
pub open spec fn le_u16(lo: u8, hi: u8) -> u16 {
    (lo as int + 256 * (hi as int)) as u16
}

proof fn lemma_le_u16(lo: u8, hi: u8)
    ensures
        (lo as u16) | ((hi as u16) << 8u16) == le_u16(lo, hi),
{
    assert((lo as u16) | ((hi as u16) << 8u16) == (lo as u16) + (hi as u16) * 256u16) by (bit_vector);
}

/// Offset of port `i`'s chunk inside an input report.
pub open spec fn chunk_start(i: int) -> int {
    1 + 9 * i
}

/// What the chunk of port `i` says: a pad if the high nibble of its status
/// byte is set, nothing otherwise.
pub open spec fn decode_port(frame: Seq<u8>, i: int) -> Option<GCPad> {
    let b = chunk_start(i);
    if frame[b] >= 0x10 {
        Some(
            GCPad {
                buttons: GButton { bits: le_u16(frame[b + 1], frame[b + 2]) & GBUTTON_ALL },
                stick_x: frame[b + 3],
                stick_y: frame[b + 4],
                cstick_x: frame[b + 5],
                cstick_y: frame[b + 6],
                trigger_left: frame[b + 7],
                trigger_right: frame[b + 8],
            },
        )
    } else {
        None
    }
}

/// A report is well formed when it has the exact length and the marker byte.
pub open spec fn frame_ok(frame: Seq<u8>) -> bool {
    frame.len() == FRAME_LEN && frame[0] == FRAME_MARKER
}

/// The four ports' states carried by a report; a malformed report carries none.
pub open spec fn decode_spec(frame: Seq<u8>) -> Seq<Option<GCPad>> {
    if frame_ok(frame) {
        seq![decode_port(frame, 0), decode_port(frame, 1), decode_port(frame, 2), decode_port(frame, 3)]
    } else {
        seq![None, None, None, None]
    }
}

pub open spec fn no_pads() -> Seq<Option<GCPad>> {
    seq![None, None, None, None]
}

/// All four ports empty.
pub fn empty_pads() -> (r: [Option<GCPad>; 4])
    ensures
        r@ == no_pads(),
{
    let r: [Option<GCPad>; 4] = [None, None, None, None];
    assert(r@ =~= no_pads());
    r
}

fn decode_chunk(frame: &[u8], i: usize) -> (r: Option<GCPad>)
    requires
        frame_ok(frame@),
        i < 4,
    ensures
        r == decode_port(frame@, i as int),
{
    let b = 1 + PORT_CHUNK_LEN * i;
    let status = frame[b];
    assert((status >> 4u8 != 0) == (status >= 0x10)) by (bit_vector);
    if status >> 4u8 != 0 {
        let lo = frame[b + 1];
        let hi = frame[b + 2];
        let raw = (lo as u16) | ((hi as u16) << 8u16);
        proof {
            lemma_le_u16(lo, hi);
        }
        Some(
            GCPad {
                buttons: GButton::from_bits_truncate(raw),
                stick_x: frame[b + 3],
                stick_y: frame[b + 4],
                cstick_x: frame[b + 5],
                cstick_y: frame[b + 6],
                trigger_left: frame[b + 7],
                trigger_right: frame[b + 8],
            },
        )
    } else {
        None
    }
}

/// Splits an input report into the four ports' pad states. A report of the
/// wrong length or with the wrong marker is noise and yields no pads.
pub fn decode_frame(frame: &[u8]) -> (r: [Option<GCPad>; 4])
    ensures
        r@ == decode_spec(frame@),
{
    if frame.len() != FRAME_LEN || frame[0] != FRAME_MARKER {
        return empty_pads();
    }
    let r: [Option<GCPad>; 4] = [
        decode_chunk(frame, 0),
        decode_chunk(frame, 1),
        decode_chunk(frame, 2),
        decode_chunk(frame, 3),
    ];
    assert(r@ =~= decode_spec(frame@));
    r
}

/// A report of the wrong length, or with the wrong marker byte, carries no
/// pads at all.
pub proof fn malformed_frame_has_no_pads(frame: Seq<u8>)
    requires
        frame.len() != FRAME_LEN || frame[0] != FRAME_MARKER,
    ensures
        decode_spec(frame) == no_pads(),
{
}

/// In a well-formed report, a port holds a pad exactly when the high nibble
/// of its status byte is set, and the pad's fields are the chunk's bytes at
/// fixed offsets.
pub proof fn port_decoding(frame: Seq<u8>, i: int)
    requires
        frame_ok(frame),
        0 <= i < 4,
    ensures
        decode_spec(frame)[i] is None <==> frame[chunk_start(i)] / 16 == 0,
        decode_spec(frame)[i] matches Some(p) ==> p.buttons.bits == le_u16(frame[chunk_start(i) + 1], frame[chunk_start(i) + 2])
            & GBUTTON_ALL && p.stick_x == frame[chunk_start(i) + 3] && p.stick_y == frame[chunk_start(i) + 4]
            && p.cstick_x == frame[chunk_start(i) + 5] && p.cstick_y == frame[chunk_start(i) + 6] && p.trigger_left
            == frame[chunk_start(i) + 7] && p.trigger_right == frame[chunk_start(i) + 8],
{
}

} // verus!
