//! Boxing a list of values, as the bar does to build its list of components.
use vstd::prelude::*;

verus! {

/// Each item of `items` in a box of its own, order kept.
pub fn boxed<T>(items: Vec<T>) -> (r: Vec<Box<T>>)
    ensures
        r@.len() == items@.len(),
        forall|i: int| 0 <= i < items@.len() ==> *r@[i] == items@[i],
{
    let ghost all = items@;
    let mut out: Vec<Box<T>> = Vec::new();
    for x in it: items
        invariant
            it.seq() == all,
            out@.len() == it.index(),
            forall|i: int| 0 <= i < out@.len() ==> *out@[i] == all[i],
    {
        out.push(Box::new(x));
    }
    out
}

} // verus!
