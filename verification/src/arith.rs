use vstd::prelude::*;

verus! {

/// Adds one to the number given.
pub fn add_one(x: i32) -> (r: i32)
    requires
        x < i32::MAX,
    ensures
        r == x + 1,
{
    x + 1
}

pub fn add(left: usize, right: usize) -> (r: usize)
    requires
        left + right <= usize::MAX,
    ensures
        r == left + right,
{
    left + right
}

pub fn add_two(a: i32) -> (r: i32)
    requires
        a + 2 <= i32::MAX,
    ensures
        r == a + 2,
{
    a + 2
}

/// Integer division that reports an inexact quotient as `None`.
pub fn divide(dividend: i32, divisor: i32) -> (r: Option<i32>)
    requires
        dividend >= 0,
        divisor > 0,
    ensures
        r is Some <==> dividend % divisor == 0,
        r matches Some(q) ==> q == dividend / divisor,
{
    if dividend % divisor != 0 {
        None
    } else {
        Some(dividend / divisor)
    }
}

#[derive(Debug)]
pub enum MyError {
    Error1,
}

/// Integer division that reports an inexact quotient as an error.
pub fn divide_result(dividend: i32, divisor: i32) -> (r: Result<i32, MyError>)
    requires
        dividend >= 0,
        divisor > 0,
    ensures
        r is Ok <==> dividend % divisor == 0,
        r matches Ok(q) ==> q == dividend / divisor,
        r is Err ==> r matches Err(MyError::Error1),
{
    if dividend % divisor != 0 {
        Err(MyError::Error1)
    } else {
        Ok(dividend / divisor)
    }
}

/// The largest element of a non-empty slice.
pub fn largest(list: &[i32]) -> (r: i32)
    requires
        list@.len() > 0,
    ensures
        forall|k: int| 0 <= k < list@.len() ==> list@[k] <= r,
        list@.contains(r),
{
    let mut best: i32 = list[0];
    let mut i: usize = 1;
    while i < list.len()
        invariant
            1 <= i <= list@.len(),
            forall|k: int| 0 <= k < i ==> list@[k] <= best,
            list@.contains(best),
        decreases list@.len() - i,
    {
        if list[i] > best {
            best = list[i];
        }
        i = i + 1;
    }
    best
}

} // verus!
