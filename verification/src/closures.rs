use vstd::prelude::*;
use std::collections::HashMap;
use crate::screen::{dec_str, u32_string};
use crate::text::concat;

verus! {

broadcast use vstd::std_specs::hash::group_hash_axioms;

/// Memoizes a function from `u32` to `u32`: each argument is computed at
/// most once, and every value handed out is one the function itself
/// guarantees for that argument.
pub struct Cacher<T> where T: Fn(u32) -> u32 {
    calculation: T,
    value: HashMap<u32, u32>,
}

impl<T> Cacher<T> where T: Fn(u32) -> u32 {
    /// The function whose results are being cached.
    pub closed spec fn spec_calculation(&self) -> T {
        self.calculation
    }

    /// Every cached result is a possible result of the function on its key.
    pub closed spec fn wf(&self) -> bool {
        forall|k: u32, v: u32|
            self.value@.contains_key(k) && self.value@[k] == v
                ==> #[trigger] self.calculation.ensures((k,), v)
    }

    pub fn new(calculation: T) -> (r: Cacher<T>)
        ensures
            r.wf(),
            r.spec_calculation() == calculation,
    {
        Cacher { calculation, value: HashMap::new() }
    }

    /// The memoized result: whatever comes back, the underlying function
    /// guarantees it for `arg`.
    pub fn value(&mut self, arg: u32) -> (r: u32)
        requires
            old(self).wf(),
            old(self).spec_calculation().requires((arg,)),
        ensures
            final(self).wf(),
            final(self).spec_calculation() == old(self).spec_calculation(),
            old(self).spec_calculation().ensures((arg,), r),
    {
        match self.value.get(&arg) {
            Some(v) => *v,
            None => {
                let v = (self.calculation)(arg);
                self.value.insert(arg, v);
                v
            },
        }
    }
}

/// Applies `f` to `arg` twice and adds the results.  The bound on `f`'s
/// results keeps the sum inside `i32`.
pub fn do_twice<T>(f: T, arg: i32) -> (r: i32) where T: Fn(i32) -> i32
    requires
        f.requires((arg,)),
        forall|v: i32| f.ensures((arg,), v) ==> -1073741824 < v < 1073741824,
    ensures
        exists|a: i32, b: i32|
            f.ensures((arg,), a) && f.ensures((arg,), b) && r == a + b,
{
    f(arg) + f(arg)
}

/// The workout advice for the given intensity and random number: two lines
/// of exercise below intensity 25, otherwise a rest day on a roll of 3 and a
/// run on anything else.  The expensive intensity computation runs through a
/// [`Cacher`], so it is performed at most once.
pub fn generate_workout(intensity: u32, random_number: u32) -> (r: Vec<String>)
    ensures
        intensity < 25 ==> {
            &&& r@.len() == 2
            &&& r@[0]@ == "Today, do "@ + dec_str(intensity as nat) + " pushups!"@
            &&& r@[1]@ == "Next, do "@ + dec_str(intensity as nat) + " situps!"@
        },
        intensity >= 25 && random_number == 3 ==> r@.len() == 1 && r@[0]@
            == "Take a break today! Remember to stay hydrated!"@,
        intensity >= 25 && random_number != 3 ==> r@.len() == 1 && r@[0]@ == "Today, run for "@
            + dec_str(intensity as nat) + " minutes!"@,
{
    let calculation = |num: u32| -> (v: u32)
        ensures
            v == num,
        { num };
    let mut expensive_result = Cacher::new(calculation);

    let mut lines: Vec<String> = Vec::new();
    if intensity < 25 {
        let s = concat("Today, do ", u32_string(expensive_result.value(intensity)).as_str());
        lines.push(concat(s.as_str(), " pushups!"));
        let s = concat("Next, do ", u32_string(expensive_result.value(intensity)).as_str());
        lines.push(concat(s.as_str(), " situps!"));
    } else {
        if random_number == 3 {
            lines.push("Take a break today! Remember to stay hydrated!".to_owned());
        } else {
            let s = concat(
                "Today, run for ",
                u32_string(expensive_result.value(intensity)).as_str(),
            );
            lines.push(concat(s.as_str(), " minutes!"));
        }
    }
    lines
}

/// A closure captures its environment: `equal_to_x` carries `x` along.
pub fn closures() {
    let x: i32 = 4;
    let equal_to_x = |z: i32| -> (b: bool)
        ensures
            b == (z == x),
        { z == x };
    let y: i32 = 4;
    let eq = equal_to_x(y);
    assert(eq);
}

} // verus!
