use vstd::prelude::*;

verus! {

/// Number of counted signals after which a maintenance sweep is triggered.
pub const CAPTURE_THRESHOLD: u64 = 200;

/// Answer of one governor tick: either nothing to do, or the maintenance
/// sweep is due and the scheduled-job runner should be invoked now.
#[derive(Clone, Copy, Debug, PartialEq, Eq, Structural)]
pub enum MaintenanceSignal {
    Idle,
    Run,
}

/// Process-wide count of captures since the last maintenance sweep.
///
/// The counter is reset to zero exactly when a tick makes it reach the
/// threshold; that same tick reports `MaintenanceSignal::Run`.
pub struct CaptureCounter {
    count: u64,
}

impl CaptureCounter {
    /// The current count, for contracts.
    pub closed spec fn count(&self) -> u64 {
        self.count
    }

    /// The counter never stores a value at or past the threshold: the tick
    /// that would reach it resets the count instead.
    pub open spec fn wf(&self) -> bool {
        self.count() < CAPTURE_THRESHOLD
    }

    /// A fresh counter, as installed when the monitor starts.
    pub fn new() -> (c: Self)
        ensures
            c.count() == 0,
            c.wf(),
    {
        CaptureCounter { count: 0 }
    }

    /// The stored count, readable at run time.
    pub fn current(&self) -> (n: u64)
        ensures
            n == self.count(),
    {
        self.count
    }

    /// Count one signal. Ticks 1 up to threshold - 1 leave the incremented
    /// count in place and report `Idle`; the tick that reaches the threshold
    /// resets the count to zero and reports `Run`.
    pub fn tick(&mut self) -> (sig: MaintenanceSignal)
        requires
            old(self).wf(),
        ensures
            final(self).wf(),
            old(self).count() + 1 == CAPTURE_THRESHOLD ==> sig == MaintenanceSignal::Run
                && final(self).count() == 0,
            old(self).count() + 1 < CAPTURE_THRESHOLD ==> sig == MaintenanceSignal::Idle
                && final(self).count() == old(self).count() + 1,
    {
        let next = self.count + 1;
        if next >= CAPTURE_THRESHOLD {
            self.count = 0;
            MaintenanceSignal::Run
        } else {
            self.count = next;
            MaintenanceSignal::Idle
        }
    }
}

} // verus!
