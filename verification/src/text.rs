use vstd::prelude::*;
use vstd::string::StringSliceAdditionalSpecFns;

verus! {

/// Relies on std's `format!`: the result is the two pieces joined in order,
/// nothing added and nothing dropped.
#[verifier::external_body]
pub(crate) fn concat(a: &str, b: &str) -> (r: String)
    ensures
        r@ == a@ + b@,
{
    format!("{}{}", a, b)
}

#[allow(unused_variables)]
pub fn greeting(name: &str) -> (r: String)
    ensures
        r@ == "Hello!"@,
{
    "Hello!".to_owned()
}

pub fn longest<'a>(x: &'a str, y: &'a str) -> (r: &'a str)
    ensures
        r@ == (if x.spec_bytes().len() > y.spec_bytes().len() {
            x@
        } else {
            y@
        }),
{
    if x.as_bytes().len() > y.as_bytes().len() {
        x
    } else {
        y
    }
}

} // verus!
