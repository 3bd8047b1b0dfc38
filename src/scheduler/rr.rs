//! Round-robin tier: a persistent cursor over the current candidates.
use vstd::prelude::*;

verus! {

/// The slot the cursor selects among `len` candidates: out of range means 0.
pub open spec fn rr_slot(len: int, cursor: int) -> int {
    if cursor >= len {
        0
    } else {
        cursor
    }
}

/// Picks the candidate at the cursor (reset to 0 if the candidates shrank
/// below it) and moves the cursor one place on, modulo the count.
pub fn pick_round_robin(rr_ready: &Vec<usize>, cursor: &mut usize) -> (r: Option<usize>)
    ensures
        rr_ready@.len() == 0 ==> r is None && *final(cursor) == *old(cursor),
        rr_ready@.len() > 0 ==> {
            let slot = rr_slot(rr_ready@.len() as int, *old(cursor) as int);
            &&& r == Some(rr_ready@[slot])
            &&& *final(cursor) as int == (slot + 1) % (rr_ready@.len() as int)
        },
{
    if rr_ready.len() == 0 {
        return None;
    }
    if *cursor >= rr_ready.len() {
        *cursor = 0;
    }
    let chosen: usize = rr_ready[*cursor];
    *cursor = (*cursor + 1) % rr_ready.len();
    Some(chosen)
}

} // verus!
