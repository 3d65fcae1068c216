//! Which enemy a player bullet hits.
//!
//! The engine tests each bullet against each enemy with fractional circles
//! and hands the results here as one row of booleans per bullet, in the
//! order it walks the enemies.
use vstd::prelude::*;

verus! {

/// Whether some enemy before position `i` is touched.
pub open spec fn touched_before(touches: Seq<bool>, i: int) -> bool {
    exists|j: int| 0 <= j < i && touches[j]
}

/// The enemy a bullet hits: the first one, in walk order, that it touches,
/// or `None` when it touches none. A bullet hits at most one enemy and is
/// consumed by that hit.
pub fn first_touched(touches: &Vec<bool>) -> (r: Option<usize>)
    ensures
        match r {
            Some(i) => i < touches@.len() && touches@[i as int] && !touched_before(touches@, i as int),
            None => !touched_before(touches@, touches@.len() as int),
        },
{
    let mut i: usize = 0;
    while i < touches.len()
        invariant
            i <= touches@.len(),
            !touched_before(touches@, i as int),
        decreases touches@.len() - i,
    {
        if touches[i] {
            return Some(i);
        }
        i = i + 1;
    }
    None
}

} // verus!
