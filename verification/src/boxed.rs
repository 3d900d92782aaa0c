use vstd::prelude::*;

verus! {

/// A box that keeps its value inline; just enough of a smart pointer to
/// carry a [`core::ops::Deref`] implementation.
pub struct MyBox<T>(pub T);

impl<T> MyBox<T> {
    pub fn new(x: T) -> (r: MyBox<T>)
        ensures
            r.0 == x,
    {
        MyBox(x)
    }
}

pub open spec fn my_box_deref_spec<'a, T>(b: &'a MyBox<T>) -> &'a T {
    &b.0
}

impl<T> core::ops::Deref for MyBox<T> {
    type Target = T;

    #[verifier::when_used_as_spec(my_box_deref_spec)]
    fn deref(&self) -> (r: &T)
        ensures
            r == &self.0,
    {
        &self.0
    }
}

/// Dereferencing behaves alike for plain references, `Box`, and `MyBox`.
pub fn deref() {
    let x: i32 = 5;
    let y = &x;

    assert(5 == x);
    assert(5 == *y);

    let y = Box::new(x);
    assert(5 == *y);

    let y = MyBox::new(x);
    assert(5 == *y);
}

} // verus!
