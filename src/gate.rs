use vstd::prelude::*;

verus! {

/// A non-blocking "busy" flag: at most one holder at a time.
pub struct BusyGate {
    active: bool,
}

impl View for BusyGate {
    type V = bool;

    closed spec fn view(&self) -> bool {
        self.active
    }
}

impl BusyGate {
    /// A free gate.
    pub fn new() -> (r: Self)
        ensures
            !r@,
    {
        BusyGate { active: false }
    }

    /// Takes this flag if it is free; a taken flag is left as it is and the
    /// call fails at once.
    pub fn try_acquire(&mut self) -> (r: bool)
        ensures
            r == !old(self)@,
            final(self)@,
    {
        if self.active {
            false
        } else {
            self.active = true;
            true
        }
    }

    /// Frees this flag.
    pub fn release(&mut self)
        ensures
            !final(self)@,
    {
        self.active = false;
    }

    /// Whether this flag is held, without changing it.
    pub fn is_active(&self) -> (r: bool)
        ensures
            r == self@,
    {
        self.active
    }
}

/// A cooperative cancellation request, consumed by the loop that observes it.
pub struct CancelSignal {
    raised: bool,
}

impl View for CancelSignal {
    type V = bool;

    closed spec fn view(&self) -> bool {
        self.raised
    }
}

impl CancelSignal {
    /// A signal that is not raised.
    pub fn new() -> (r: Self)
        ensures
            !r@,
    {
        CancelSignal { raised: false }
    }

    /// Requests cancellation.
    pub fn raise(&mut self)
        ensures
            final(self)@,
    {
        self.raised = true;
    }

    /// Observes the signal and clears it in the same step: returns whether
    /// it was raised.
    pub fn take(&mut self) -> (r: bool)
        ensures
            r == old(self)@,
            !final(self)@,
    {
        let r = self.raised;
        self.raised = false;
        r
    }

    /// Whether the signal is raised, without consuming it.
    pub fn is_raised(&self) -> (r: bool)
        ensures
            r == self@,
    {
        self.raised
    }
}

} // verus!
