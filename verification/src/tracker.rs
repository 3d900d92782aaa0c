use vstd::prelude::*;

verus! {

/// A sink for quota warnings; callers of the library provide the transport.
pub trait Messenger {
    fn send(&self, msg: &str);
}

/// Tracks a value against a maximum and warns through a [`Messenger`] as the
/// value approaches or passes the maximum.
pub struct LimitTracker<'a, T: Messenger> {
    messenger: &'a T,
    value: usize,
    max: usize,
}

impl<'a, T: Messenger> LimitTracker<'a, T> {
    pub closed spec fn spec_value(&self) -> usize {
        self.value
    }

    pub closed spec fn spec_max(&self) -> usize {
        self.max
    }

    pub fn new(messenger: &'a T, max: usize) -> (r: LimitTracker<'a, T>)
        ensures
            r.spec_value() == 0,
            r.spec_max() == max,
    {
        LimitTracker { messenger, value: 0, max }
    }

    /// Stores the new value and sends at most one message: over quota when
    /// the value reaches the maximum, otherwise a warning at nine tenths or
    /// at three quarters of it.
    pub fn set_value(&mut self, value: usize)
        ensures
            final(self).spec_value() == value,
            final(self).spec_max() == old(self).spec_max(),
    {
        self.value = value;

        let v = value as u128;
        let m = self.max as u128;

        if m == 0 {
            if v > 0 {
                self.messenger.send("Error: You are over your quota!");
            }
        } else if v >= m {
            self.messenger.send("Error: You are over your quota!");
        } else if 10 * v >= 9 * m {
            self.messenger.send("Urgent warning: You've used up over 90% of your quota!");
        } else if 4 * v >= 3 * m {
            self.messenger.send("Warning: You've used up over 75% of your quota!");
        }
    }
}

} // verus!
