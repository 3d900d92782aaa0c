use vstd::prelude::*;
use crate::text::concat;

verus! {

/// The decimal digit for `d`.
pub open spec fn dec_digit(d: nat) -> char {
    if d == 0 {
        '0'
    } else if d == 1 {
        '1'
    } else if d == 2 {
        '2'
    } else if d == 3 {
        '3'
    } else if d == 4 {
        '4'
    } else if d == 5 {
        '5'
    } else if d == 6 {
        '6'
    } else if d == 7 {
        '7'
    } else if d == 8 {
        '8'
    } else {
        '9'
    }
}

/// The decimal digits of `n`, most significant first.
pub open spec fn dec_str(n: nat) -> Seq<char>
    decreases n,
{
    if n < 10 {
        seq![dec_digit(n)]
    } else {
        dec_str(n / 10).push(dec_digit(n % 10))
    }
}

/// Relies on `u32`'s standard formatting: the plain decimal digits of the
/// number, most significant first, with no sign and no padding.
#[verifier::external_body]
pub(crate) fn u32_string(n: u32) -> (r: String)
    ensures
        r@ == dec_str(n as nat),
{
    format!("{}", n)
}

/// Something that can describe itself for display.
pub trait Draw {
    /// The characters of the description that `draw` produces.
    spec fn spec_draw(&self) -> Seq<char>;

    fn draw(&self) -> (r: String)
        ensures
            r@ == self.spec_draw(),
    ;
}

pub struct Button {
    pub width: u32,
    pub height: u32,
    pub label: String,
}

impl Draw for Button {
    open spec fn spec_draw(&self) -> Seq<char> {
        "Drawing a button with width: "@ + dec_str(self.width as nat) + ", height: "@
            + dec_str(self.height as nat) + ", label: "@ + self.label@
    }

    fn draw(&self) -> (r: String) {
        let s = concat("Drawing a button with width: ", u32_string(self.width).as_str());
        let s = concat(s.as_str(), ", height: ");
        let s = concat(s.as_str(), u32_string(self.height).as_str());
        let s = concat(s.as_str(), ", label: ");
        let r = concat(s.as_str(), self.label.as_str());
        proof {
            assert(r@ =~= self.spec_draw());
        }
        r
    }
}

/// A collection of components, each drawn in turn.
pub struct Screen<T: Draw> {
    pub components: Vec<T>,
}

impl<T: Draw> Screen<T> {
    /// Draws every component, front to back, and returns the descriptions.
    pub fn run(&self) -> (r: Vec<String>)
        ensures
            r@.len() == self.components@.len(),
            forall|i: int|
                0 <= i < r@.len() ==> (#[trigger] r@[i])@ == self.components@[i].spec_draw(),
    {
        let mut out: Vec<String> = Vec::new();
        let mut i: usize = 0;
        while i < self.components.len()
            invariant
                i <= self.components@.len(),
                out@.len() == i,
                forall|k: int|
                    0 <= k < i ==> (#[trigger] out@[k])@ == self.components@[k].spec_draw(),
            decreases self.components@.len() - i,
        {
            out.push(self.components[i].draw());
            i = i + 1;
        }
        out
    }
}

/// Builds a screen of components and draws them all.
pub fn trait_objects() -> (r: Vec<String>)
    ensures
        r@.len() == 2,
        r@[0]@ == "Drawing a button with width: "@ + dec_str(75) + ", height: "@ + dec_str(10)
            + ", label: "@ + "Cancel"@,
        r@[1]@ == "Drawing a button with width: "@ + dec_str(50) + ", height: "@ + dec_str(10)
            + ", label: "@ + "OK"@,
{
    let mut components: Vec<Button> = Vec::new();
    components.push(Button { width: 75, height: 10, label: "Cancel".to_owned() });
    components.push(Button { width: 50, height: 10, label: "OK".to_owned() });
    let screen = Screen { components };
    let r = screen.run();
    r
}

} // verus!
