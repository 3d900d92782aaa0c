use vstd::prelude::*;

verus! {

/// An iteration interface with an associated item type, as a trait of this
/// crate's own.
pub trait Iterator {
    type Item;

    fn next(&mut self) -> Option<Self::Item>;
}

struct Zeroes {
}

impl Iterator for Zeroes {
    type Item = u32;

    fn next(&mut self) -> Option<u32> {
        Some(0)
    }
}

} // verus!
