use vstd::prelude::*;

verus! {

/// The `vec!` macro builds a vector from its elements.
pub fn macros() {
    let v: Vec<u32> = vec![1, 2, 3];
    assert(v@.len() == 3);
}

/// A slice borrows part of an array; its length and elements follow the
/// borrowed range.
pub fn slice() {
    let arr: [u8; 4] = [0, 1, 2, 3];
    let s: &[u8] = &arr[1..3];
    assert(s@.len() == 2);
    assert(s@[0] == 1 && s@[1] == 2);
}

} // verus!
