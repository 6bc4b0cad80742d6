use vstd::prelude::*;

verus! {

/// One shared tally that two hands bump by different step sizes: the small
/// hand by 1, the large hand by 100. Both read and advance the same count.
pub struct Counters {
    pub count: i32,
}

/// A fresh pair of hands over a shared count starting at zero.
pub fn counters() -> (c: Counters)
    ensures
        c.count == 0,
{
    Counters { count: 0 }
}

impl Counters {
    /// Advance the shared count by 1 and return the new value.
    pub fn count_up(&mut self) -> (r: i32)
        requires
            old(self).count <= i32::MAX - 1,
        ensures
            final(self).count == old(self).count + 1,
            r == final(self).count,
    {
        self.count = self.count + 1;
        self.count
    }

    /// Advance the shared count by 100 and return the new value.
    pub fn count_up_hundred(&mut self) -> (r: i32)
        requires
            old(self).count <= i32::MAX - 100,
        ensures
            final(self).count == old(self).count + 100,
            r == final(self).count,
    {
        self.count = self.count + 100;
        self.count
    }
}

} // verus!
