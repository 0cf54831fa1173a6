//! Bubble Pop's chain reaction: which touched bubble carries an explosion on.

use vstd::prelude::*;

verus! {

/// Of the bubbles an explosion touches (`touched[i]` for the `i`-th bubble,
/// in the world's order), the last one becomes the next explosion; every
/// touched bubble pops. `None` when the explosion touches nothing, and then
/// the chain stops.
pub fn next_explosion(touched: &Vec<bool>) -> (r: Option<usize>)
    ensures
        match r {
            Some(i) => i < touched@.len() && touched@[i as int] && forall|j: int|
                i < j < touched@.len() ==> !touched@[j],
            None => forall|j: int| 0 <= j < touched@.len() ==> !touched@[j],
        },
{
    let mut next: Option<usize> = None;
    let mut i: usize = 0;
    while i < touched.len()
        invariant
            i <= touched@.len(),
            match next {
                Some(k) => k < i && touched@[k as int] && forall|j: int| k < j < i ==> !touched@[j],
                None => forall|j: int| 0 <= j < i ==> !touched@[j],
            },
        decreases touched@.len() - i,
    {
        if touched[i] {
            next = Some(i);
        }
        i = i + 1;
    }
    next
}

} // verus!
