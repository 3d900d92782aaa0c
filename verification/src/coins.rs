use vstd::prelude::*;

verus! {

#[derive(Debug)]
pub enum Coin {
    Penny,
    Nickel,
    Dime,
    Quarter,
}

pub fn value_in_cents(coin: Coin) -> (r: u8)
    ensures
        r == (match coin {
            Coin::Penny => 1u8,
            Coin::Nickel => 5u8,
            Coin::Dime => 10u8,
            Coin::Quarter => 25u8,
        }),
{
    match coin {
        Coin::Penny => 1,
        Coin::Nickel => 5,
        Coin::Dime => 10,
        _ => 25,
    }
}

} // verus!
