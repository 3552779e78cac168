//! Per-port arrival and departure handling: which virtual-target calls a
//! tick needs, and the state kept between ticks.

use vstd::prelude::*;
use crate::config::Config;
use crate::pad::GCPad;
use crate::transform::{Center, PadReport, center_zero, zero_center, center_of, center_of_spec, pad_report, report_spec};

verus! {

/// What the virtual-target sink must do for a port after an event.
#[derive(Clone, Copy, Debug, PartialEq, Eq, Structural)]
pub enum PortAction {
    Idle,
    /// Allocate and attach a virtual target, then report the outcome with
    /// `PortSlot::target_created`.
    CreateTarget,
    /// Detach and free the port's virtual target.
    RemoveTarget,
    /// Push this report to the port's virtual target.
    Push(PadReport),
}

/// A call made on the virtual-target sink.
#[derive(Clone, Copy, Debug, PartialEq, Eq, Structural)]
pub enum SinkCall {
    Create,
    Remove,
    Push,
}

pub open spec fn calls_of(a: PortAction) -> Seq<SinkCall> {
    match a {
        PortAction::Idle => seq![],
        PortAction::CreateTarget => seq![SinkCall::Create],
        PortAction::RemoveTarget => seq![SinkCall::Remove],
        PortAction::Push(_) => seq![SinkCall::Push],
    }
}

/// Per-port state carried from tick to tick.
#[derive(Clone, Copy, Debug, PartialEq, Eq, Structural)]
pub struct PortSlot {
    /// A virtual target is attached for this port.
    pub has_target: bool,
    /// The port is shown as connected.
    pub connected: bool,
    pub center: Center,
    /// The next report recenters the sticks first.
    pub must_center: bool,
}

pub open spec fn empty_slot() -> PortSlot {
    PortSlot { has_target: false, connected: false, center: zero_center(), must_center: false }
}

impl PortSlot {
    pub fn new() -> (r: PortSlot)
        ensures
            r == empty_slot(),
    {
        PortSlot { has_target: false, connected: false, center: center_zero(), must_center: false }
    }

    /// The slot after reporting `pad`, with the report: a pending recenter
    /// first captures the pad's stick positions as the new center.
    pub open spec fn push_spec(self, pad: GCPad, config: Config) -> (PortSlot, PadReport) {
        let s = if self.must_center {
            PortSlot { center: center_of_spec(pad), must_center: false, ..self }
        } else {
            self
        };
        (s, report_spec(pad, s.center, config))
    }

    /// The slot and the sink action after this tick's pad state is seen.
    pub open spec fn observe_spec(self, pad: Option<GCPad>, config: Config) -> (PortSlot, PortAction) {
        match pad {
            Some(p) => if self.has_target {
                let (s, r) = self.push_spec(p, config);
                (s, PortAction::Push(r))
            } else {
                (
                    PortSlot {
                        connected: true,
                        center: zero_center(),
                        must_center: config.auto_recenter,
                        ..self
                    },
                    PortAction::CreateTarget,
                )
            },
            None => if self.has_target {
                (PortSlot { has_target: false, connected: false, ..self }, PortAction::RemoveTarget)
            } else {
                (self, PortAction::Idle)
            },
        }
    }

    /// The slot and the sink action once the sink has tried to create the
    /// target asked for: on success the target is live and gets its first
    /// report; on failure the port is not treated as connected.
    pub open spec fn created_spec(self, ok: bool, pad: GCPad, config: Config) -> (PortSlot, PortAction) {
        if ok {
            let (s, r) = (PortSlot { has_target: true, ..self }).push_spec(pad, config);
            (s, PortAction::Push(r))
        } else {
            (PortSlot { connected: false, ..self }, PortAction::Idle)
        }
    }

    fn push(&mut self, pad: &GCPad, config: &Config) -> (r: PadReport)
        requires
            config.wf(),
        ensures
            (*final(self), r) == old(self).push_spec(*pad, *config),
    {
        if self.must_center {
            self.center = center_of(pad);
            self.must_center = false;
        }
        pad_report(pad, &self.center, config)
    }

    /// Handles this tick's pad state for the port: an arrival asks for a
    /// target, a departure asks for its removal, a present pad with a live
    /// target yields its report.
    pub fn observe(&mut self, pad: &Option<GCPad>, config: &Config) -> (r: PortAction)
        requires
            config.wf(),
        ensures
            (*final(self), r) == old(self).observe_spec(*pad, *config),
    {
        match pad {
            Some(p) => {
                if self.has_target {
                    PortAction::Push(self.push(p, config))
                } else {
                    self.connected = true;
                    self.center = center_zero();
                    self.must_center = config.auto_recenter;
                    PortAction::CreateTarget
                }
            },
            None => {
                if self.has_target {
                    self.has_target = false;
                    self.connected = false;
                    PortAction::RemoveTarget
                } else {
                    PortAction::Idle
                }
            },
        }
    }

    /// Takes the outcome of a target creation asked for by `observe`.
    pub fn target_created(&mut self, ok: bool, pad: &GCPad, config: &Config) -> (r: PortAction)
        requires
            config.wf(),
        ensures
            (*final(self), r) == old(self).created_spec(ok, *pad, *config),
    {
        if ok {
            self.has_target = true;
            PortAction::Push(self.push(pad, config))
        } else {
            self.connected = false;
            PortAction::Idle
        }
    }

    /// Asks for the sticks to be recentered on the next report.
    pub fn request_recenter(&mut self)
        ensures
            *final(self) == (PortSlot { must_center: true, ..*old(self) }),
    {
        self.must_center = true;
    }
}

/// The four ports' slots.
pub struct Ports {
    pub slots: [PortSlot; 4],
}

impl Ports {
    pub fn new() -> (r: Ports)
        ensures
            forall|i: int| 0 <= i < 4 ==> #[trigger] r.slots@[i] == empty_slot(),
    {
        Ports { slots: [PortSlot::new(), PortSlot::new(), PortSlot::new(), PortSlot::new()] }
    }

    /// Handles this tick's pad states, port by port.
    pub fn observe_all(&mut self, pads: &[Option<GCPad>; 4], config: &Config) -> (r: [PortAction; 4])
        requires
            config.wf(),
        ensures
            forall|i: int|
                0 <= i < 4 ==> (#[trigger] final(self).slots@[i], r@[i]) == old(self).slots@[i].observe_spec(
                    pads@[i],
                    *config,
                ),
    {
        let mut r: [PortAction; 4] = [PortAction::Idle, PortAction::Idle, PortAction::Idle, PortAction::Idle];
        let mut i: usize = 0;
        while i < 4
            invariant
                0 <= i <= 4,
                config.wf(),
                forall|j: int|
                    0 <= j < i ==> (#[trigger] self.slots@[j], r@[j]) == old(self).slots@[j].observe_spec(
                        pads@[j],
                        *config,
                    ),
                forall|j: int| i <= j < 4 ==> #[trigger] self.slots@[j] == old(self).slots@[j],
            decreases 4 - i,
        {
            let mut slot = self.slots[i];
            let action = slot.observe(&pads[i], config);
            self.slots[i] = slot;
            r[i] = action;
            i = i + 1;
        }
        r
    }

    /// Takes the outcome of the target creation asked for on `port`.
    pub fn target_created(&mut self, port: usize, ok: bool, pad: &GCPad, config: &Config) -> (r: PortAction)
        requires
            port < 4,
            config.wf(),
        ensures
            (final(self).slots@[port as int], r) == old(self).slots@[port as int].created_spec(ok, *pad, *config),
            forall|j: int| 0 <= j < 4 && j != port ==> #[trigger] final(self).slots@[j] == old(self).slots@[j],
    {
        let mut slot = self.slots[port];
        let action = slot.target_created(ok, pad, config);
        self.slots[port] = slot;
        action
    }

    /// Asks for the sticks of `port` to be recentered on its next report.
    pub fn request_recenter(&mut self, port: usize)
        requires
            port < 4,
        ensures
            final(self).slots@[port as int] == (PortSlot { must_center: true, ..old(self).slots@[port as int] }),
            forall|j: int| 0 <= j < 4 && j != port ==> #[trigger] final(self).slots@[j] == old(self).slots@[j],
    {
        let mut slot = self.slots[port];
        slot.request_recenter();
        self.slots[port] = slot;
    }

    /// Which ports are shown as connected.
    pub fn connected(&self) -> (r: [bool; 4])
        ensures
            forall|i: int| 0 <= i < 4 ==> #[trigger] r@[i] == self.slots@[i].connected,
    {
        [self.slots[0].connected, self.slots[1].connected, self.slots[2].connected, self.slots[3].connected]
    }
}

/// One full tick of a port: the slot afterwards and the sink calls made,
/// where a creation the tick asks for succeeds exactly when `create_ok`.
pub open spec fn tick_spec(slot: PortSlot, pad: Option<GCPad>, config: Config, create_ok: bool) -> (
    PortSlot,
    Seq<SinkCall>,
) {
    let (s1, a) = slot.observe_spec(pad, config);
    if a == PortAction::CreateTarget {
        let (s2, a2) = s1.created_spec(create_ok, pad->0, config);
        (s2, seq![SinkCall::Create] + calls_of(a2))
    } else {
        (s1, calls_of(a))
    }
}

/// A pad that is absent, then present, then absent again makes exactly one
/// create call and one remove call on the sink, create first, with the only
/// update between them; the port is then left without a target, so further
/// ticks without a pad make no call at all.
pub proof fn arrival_then_departure(slot: PortSlot, pad: GCPad, config: Config, later_ok: bool)
    requires
        !slot.has_target,
    ensures
        ({
            let (s1, c1) = tick_spec(slot, None, config, true);
            let (s2, c2) = tick_spec(s1, Some(pad), config, true);
            let (s3, c3) = tick_spec(s2, None, config, true);
            &&& c1 + c2 + c3 == seq![SinkCall::Create, SinkCall::Push, SinkCall::Remove]
            &&& !s3.has_target
            &&& tick_spec(s3, None, config, later_ok).1 == Seq::<SinkCall>::empty()
        }),
{
    let (s1, c1) = tick_spec(slot, None, config, true);
    let (s2, c2) = tick_spec(s1, Some(pad), config, true);
    let (s3, c3) = tick_spec(s2, None, config, true);
    assert(c1 =~= seq![]);
    assert(c2 =~= seq![SinkCall::Create, SinkCall::Push]);
    assert(c3 =~= seq![SinkCall::Remove]);
    assert(c1 + c2 + c3 =~= seq![SinkCall::Create, SinkCall::Push, SinkCall::Remove]);
    assert(tick_spec(s3, None, config, later_ok).1 =~= Seq::<SinkCall>::empty());
}

/// After a tick in which every creation asked for succeeds, a port has a
/// virtual target exactly when it has a pad; when a creation fails it has
/// neither a target nor the connected mark.
pub proof fn target_follows_pad(slot: PortSlot, pad: Option<GCPad>, config: Config)
    ensures
        tick_spec(slot, pad, config, true).0.has_target == pad is Some,
        pad is Some && !slot.has_target ==> !tick_spec(slot, pad, config, false).0.has_target
            && !tick_spec(slot, pad, config, false).0.connected,
{
}

} // verus!
