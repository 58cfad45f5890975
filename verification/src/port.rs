//! Choosing the host port that a container is published on.

use vstd::prelude::*;

verus! {

/// Number of probes after which the allocation is given up.
pub const MAX_ATTEMPTS: u32 = 16;

/// Whether the outcome of a probe is a port that a container can be
/// published on: the probe found one, and it is a real port number.
pub open spec fn usable(probe: Option<u16>) -> bool {
    probe matches Some(port) && port != 0
}

/// What one probe means for the allocation.
#[derive(Clone, Copy, Debug, PartialEq, Eq, Structural)]
pub enum Allocation {
    /// The probe found this port: the allocation is done.
    Selected(u16),
    /// The probe found nothing, and another one may be made.
    Retry,
    /// The probe found nothing, and no other may be made.
    Exhausted,
}

/// Chooses a host port from the outcomes of probes, each of which asks the
/// system for a free port on the loopback address. It keeps nothing between
/// allocations but the count of probes: a port that it selected is free at
/// the moment of the probe and no longer.
#[derive(Clone, Copy, Debug)]
pub struct PortGenerator {
    attempts: u32,
    selected: Option<u16>,
}

/// Mathematical value of a [`PortGenerator`].
pub struct PortGeneratorView {
    /// Probes taken into account so far.
    pub attempts: nat,
    /// The port that the last successful probe found.
    pub selected: Option<u16>,
}

impl PortGeneratorView {
    /// A generator that has seen no probe.
    pub open spec fn fresh() -> PortGeneratorView {
        PortGeneratorView { attempts: 0, selected: None }
    }

    /// The generator after one more probe, and what the probe means. Once
    /// `MAX_ATTEMPTS` probes have been counted, no further one is looked at.
    pub open spec fn generate(self, probe: Option<u16>) -> (PortGeneratorView, Allocation) {
        if self.attempts >= MAX_ATTEMPTS {
            (self, Allocation::Exhausted)
        } else if usable(probe) {
            (
                PortGeneratorView { attempts: self.attempts + 1, selected: probe },
                Allocation::Selected(probe->0),
            )
        } else if self.attempts + 1 >= MAX_ATTEMPTS {
            (
                PortGeneratorView { attempts: self.attempts + 1, selected: self.selected },
                Allocation::Exhausted,
            )
        } else {
            (
                PortGeneratorView { attempts: self.attempts + 1, selected: self.selected },
                Allocation::Retry,
            )
        }
    }
}

impl View for PortGenerator {
    type V = PortGeneratorView;

    closed spec fn view(&self) -> PortGeneratorView {
        PortGeneratorView { attempts: self.attempts as nat, selected: self.selected }
    }
}

impl PortGenerator {
    /// A generator that has seen no probe.
    pub fn new() -> (g: PortGenerator)
        ensures
            g@ == PortGeneratorView::fresh(),
    {
        PortGenerator { attempts: 0, selected: None }
    }

    /// Takes the outcome of one probe into account.
    pub fn generate(&mut self, probe: Option<u16>) -> (step: Allocation)
        ensures
            final(self)@ == old(self)@.generate(probe).0,
            step == old(self)@.generate(probe).1,
    {
        if self.attempts >= MAX_ATTEMPTS {
            return Allocation::Exhausted;
        }
        self.attempts = self.attempts + 1;
        match probe {
            Some(port) => {
                if port != 0 {
                    self.selected = Some(port);
                    return Allocation::Selected(port);
                }
            },
            None => {},
        }
        if self.attempts >= MAX_ATTEMPTS {
            Allocation::Exhausted
        } else {
            Allocation::Retry
        }
    }

    /// The port that the last successful probe found.
    pub fn selected_port(&self) -> (port: Option<u16>)
        ensures
            port == self@.selected,
    {
        self.selected
    }

    /// Probes taken into account so far.
    pub fn attempts(&self) -> (n: u32)
        ensures
            n as nat == self@.attempts,
    {
        self.attempts
    }
}

} // verus!
