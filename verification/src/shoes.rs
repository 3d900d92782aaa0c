use vstd::prelude::*;

verus! {

#[derive(PartialEq, Debug)]
pub struct Shoe {
    pub size: u32,
    pub style: String,
}

/// The shoes of the given size, in the order they appear.
pub open spec fn shoes_of_size(s: Seq<Shoe>, shoe_size: u32) -> Seq<Shoe>
    decreases s.len(),
{
    if s.len() == 0 {
        Seq::empty()
    } else if s[0].size == shoe_size {
        seq![s[0]] + shoes_of_size(s.skip(1), shoe_size)
    } else {
        shoes_of_size(s.skip(1), shoe_size)
    }
}

/// Keeps exactly the shoes whose size matches, in order.
pub fn shoes_in_my_size(shoes: Vec<Shoe>, shoe_size: u32) -> (r: Vec<Shoe>)
    ensures
        r@ == shoes_of_size(shoes@, shoe_size),
{
    let ghost orig = shoes@;
    let mut rest = shoes;
    let mut result: Vec<Shoe> = Vec::new();
    while rest.len() > 0
        invariant
            result@ + shoes_of_size(rest@, shoe_size) == shoes_of_size(orig, shoe_size),
        decreases rest@.len(),
    {
        proof {
            assert(rest@.remove(0) =~= rest@.skip(1));
        }
        let ghost prev = rest@;
        let s = rest.remove(0);
        if s.size == shoe_size {
            proof {
                assert(shoes_of_size(prev, shoe_size) == seq![s] + shoes_of_size(
                    prev.skip(1), shoe_size));
                assert(result@.push(s) + shoes_of_size(rest@, shoe_size) =~= result@ + (
                seq![s] + shoes_of_size(rest@, shoe_size)));
            }
            result.push(s);
        } else {
            proof {
                assert(shoes_of_size(prev, shoe_size) == shoes_of_size(prev.skip(1),
                    shoe_size));
            }
        }
    }
    proof {
        assert(shoes_of_size(rest@, shoe_size) =~= Seq::<Shoe>::empty());
        assert(result@ =~= result@ + Seq::<Shoe>::empty());
    }
    result
}

} // verus!
