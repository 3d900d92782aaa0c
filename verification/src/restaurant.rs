use vstd::prelude::*;

verus! {

pub fn add_to_waitlist() {
}

pub fn eat_at_restaurant() {
    add_to_waitlist();
    add_to_waitlist();
    add_to_waitlist();
}

fn deliver_order() {
}

pub fn fix_incorrect_order() {
    cook_order();
    deliver_order();
}

pub fn cook_order() {
}

} // verus!
