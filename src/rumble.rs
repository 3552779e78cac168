//! Force feedback: the on/off rumble decision and the routing of a
//! request from a virtual target to the port that owns it.

use vstd::prelude::*;

verus! {

/// Weight of the large motor in the rumble decision.
pub const LARGE_MOTOR_WEIGHT: u16 = 0x55;

/// Weight of the small motor in the rumble decision.
pub const SMALL_MOTOR_WEIGHT: u16 = 0x100 - 0x55;

/// Weighted motor strength above which the pad rumbles.
pub const RUMBLE_THRESHOLD: u16 = 0x800;

/// Whether a force-feedback request turns the pad's rumble on.
pub open spec fn rumble_spec(large_motor: u8, small_motor: u8) -> bool {
    LARGE_MOTOR_WEIGHT * (large_motor as int) + SMALL_MOTOR_WEIGHT * (small_motor as int) > RUMBLE_THRESHOLD
}

pub fn rumble_on(large_motor: u8, small_motor: u8) -> (r: bool)
    ensures
        r == rumble_spec(large_motor, small_motor),
{
    (large_motor as u16) * LARGE_MOTOR_WEIGHT + (small_motor as u16) * SMALL_MOTOR_WEIGHT > RUMBLE_THRESHOLD
}

/// The first port whose live target has index `target`, if any.
pub open spec fn port_of_spec(targets: Seq<Option<u32>>, target: u32) -> Option<usize> {
    if exists|i: int| 0 <= i < targets.len() && targets[i] == Some(target) {
        let i = choose|i: int|
            0 <= i < targets.len() && targets[i] == Some(target) && forall|j: int|
                0 <= j < i ==> targets[j] != Some(target);
        Some(i as usize)
    } else {
        None
    }
}

/// Which port owns which virtual target, and the rumble state sent to the
/// adapter for each port.
pub struct RumbleRouter {
    pub targets: [Option<u32>; 4],
    pub rumble: [u8; 4],
}

impl RumbleRouter {
    pub fn new() -> (r: RumbleRouter)
        ensures
            r.targets@ == seq![None::<u32>, None, None, None],
            r.rumble@ == seq![0u8, 0, 0, 0],
    {
        let r = RumbleRouter { targets: [None, None, None, None], rumble: [0, 0, 0, 0] };
        assert(r.targets@ =~= seq![None::<u32>, None, None, None]);
        assert(r.rumble@ =~= seq![0u8, 0, 0, 0]);
        r
    }

    /// Records the target (by index) now live on `port`, or none.
    pub fn set_target(&mut self, port: usize, target: Option<u32>)
        requires
            port < 4,
        ensures
            final(self).targets@ == old(self).targets@.update(port as int, target),
            final(self).rumble@ == old(self).rumble@,
    {
        self.targets[port] = target;
    }

    /// The port that owns the target with index `target`.
    pub fn port_of(&self, target: u32) -> (r: Option<usize>)
        ensures
            r matches Some(i) ==> i < 4 && self.targets@[i as int] == Some(target) && forall|j: int|
                0 <= j < i ==> self.targets@[j] != Some(target),
            r is None <==> forall|j: int| 0 <= j < 4 ==> self.targets@[j] != Some(target),
    {
        let mut i: usize = 0;
        while i < 4
            invariant
                i <= 4,
                forall|j: int| 0 <= j < i ==> self.targets@[j] != Some(target),
            decreases 4 - i,
        {
            if self.targets[i] == Some(target) {
                return Some(i);
            }
            i = i + 1;
        }
        None
    }

    /// Handles a force-feedback request for the target with index `target`:
    /// stores the owning port's rumble state and returns all four to send.
    /// A target owned by no port changes nothing.
    pub fn on_rumble(&mut self, target: u32, large_motor: u8, small_motor: u8) -> (r: Option<[u8; 4]>)
        ensures
            final(self).targets@ == old(self).targets@,
            r is None <==> forall|j: int| 0 <= j < 4 ==> old(self).targets@[j] != Some(target),
            r is None ==> final(self).rumble@ == old(self).rumble@,
            r matches Some(sent) ==> exists|i: int|
                0 <= i < 4 && old(self).targets@[i] == Some(target) && (forall|j: int|
                    0 <= j < i ==> old(self).targets@[j] != Some(target)) && final(self).rumble@
                    == old(self).rumble@.update(i, if rumble_spec(large_motor, small_motor) {
                    1u8
                } else {
                    0u8
                }) && sent@ == final(self).rumble@,
    {
        match self.port_of(target) {
            Some(i) => {
                let on = rumble_on(large_motor, small_motor);
                self.rumble[i] = if on {
                    1
                } else {
                    0
                };
                Some(self.rumble)
            },
            None => None,
        }
    }
}

} // verus!
