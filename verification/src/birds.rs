use vstd::prelude::*;

verus! {

pub trait Animal {
    fn can_fly(&self) -> bool;

    fn is_animal(&self) -> bool {
        true
    }
}

pub struct Bird {
    pub name: String,
    pub age: u64,
}

impl Animal for Bird {
    fn can_fly(&self) -> bool {
        true
    }

    fn is_animal(&self) -> bool {
        false
    }
}

} // verus!
