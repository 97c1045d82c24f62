use vstd::prelude::*;

verus! {

/// Every how many resolved collisions one is reported.
pub const REPORT_EVERY: u64 = 10000;

/// The number of collisions resolved so far, a diagnostic owned by the
/// simulation.
#[derive(Clone, Copy, Debug, PartialEq, Eq, Structural)]
pub struct CollisionTally {
    pub count: u64,
}

impl CollisionTally {
    pub fn new() -> (r: CollisionTally)
        ensures
            r.count == 0,
    {
        CollisionTally { count: 0 }
    }

    /// Counts one resolved collision. Returns whether it is one to report:
    /// the first, and then every `REPORT_EVERY`th. The count never wraps; it
    /// stays at its largest value once there.
    pub fn record(&mut self) -> (report: bool)
        ensures
            report == (old(self).count % REPORT_EVERY == 0),
            final(self).count == if old(self).count < u64::MAX {
                (old(self).count + 1) as u64
            } else {
                old(self).count
            },
    {
        let report = self.count % REPORT_EVERY == 0;
        if self.count < u64::MAX {
            self.count = self.count + 1;
        }
        report
    }
}

} // verus!
