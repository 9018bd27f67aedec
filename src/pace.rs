use vstd::prelude::*;

verus! {

/// A time split into hours, minutes and seconds, as shown for a pace per kilometre.
#[derive(Debug, Clone, Copy, PartialEq, Eq)]
pub struct Pace {
    pub hours: u64,
    pub mins: u8,
    pub secs: u8,
}

impl Pace {
    /// The number of whole seconds that this pace stands for.
    pub open spec fn total_secs(self) -> int {
        self.hours * 3600 + self.mins * 60 + self.secs
    }

    /// Minutes and seconds are below 60.
    pub open spec fn wf(self) -> bool {
        self.mins < 60 && self.secs < 60
    }

    /// Splits a number of whole seconds into hours, minutes and seconds.
    pub fn from_duration(total_secs: u64) -> (r: Pace)
        ensures
            r.wf(),
            r.total_secs() == total_secs,
    {
        let hours = total_secs / 3600;
        let rest = total_secs % 3600;
        let mins = rest / 60;
        let secs = rest % 60;
        Pace { hours, mins: mins as u8, secs: secs as u8 }
    }
}

} // verus!
