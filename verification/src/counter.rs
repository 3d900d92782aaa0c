use vstd::prelude::*;

verus! {

/// Counts upward, yielding the values 1 through 5 and then nothing.
pub struct Counter {
    count: u32,
}

impl Counter {
    pub closed spec fn spec_count(&self) -> u32 {
        self.count
    }

    pub fn new() -> (r: Counter)
        ensures
            r.spec_count() == 0,
    {
        Counter { count: 0 }
    }

    pub fn next(&mut self) -> (r: Option<u32>)
        requires
            old(self).spec_count() < u32::MAX,
        ensures
            final(self).spec_count() == old(self).spec_count() + 1,
            r == (if old(self).spec_count() + 1 < 6 {
                Some((old(self).spec_count() + 1) as u32)
            } else {
                Option::<u32>::None
            }),
    {
        self.count = self.count + 1;
        if self.count < 6 {
            Some(self.count)
        } else {
            None
        }
    }
}

} // verus!
