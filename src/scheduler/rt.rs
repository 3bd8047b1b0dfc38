//! Real-time tier: the candidate with the earliest deadline.
use vstd::prelude::*;

verus! {

/// Position `k` holds the minimum deadline of `c`, and no earlier position holds it.
pub open spec fn is_earliest(c: Seq<(usize, u64)>, k: int) -> bool {
    &&& 0 <= k < c.len()
    &&& forall|j: int| 0 <= j < c.len() ==> c[k].1 <= #[trigger] c[j].1
    &&& forall|j: int| 0 <= j < k ==> c[k].1 < #[trigger] c[j].1
}

/// Picks, among `(id, deadline)` candidates, the id with the smallest deadline;
/// on equal deadlines the one listed first.
pub fn pick_realtime(rt_ready: &Vec<(usize, u64)>) -> (r: Option<usize>)
    ensures
        rt_ready@.len() == 0 <==> r is None,
        r is Some ==> exists|k: int| is_earliest(rt_ready@, k) && r == Some(rt_ready@[k].0),
{
    if rt_ready.len() == 0 {
        return None;
    }
    let mut best: usize = 0;
    let mut i: usize = 1;
    while i < rt_ready.len()
        invariant
            1 <= i <= rt_ready@.len(),
            is_earliest(rt_ready@.take(i as int), best as int),
        decreases rt_ready@.len() - i,
    {
        if rt_ready[i].1 < rt_ready[best].1 {
            best = i;
        }
        i = i + 1;
    }
    assert(rt_ready@.take(i as int) =~= rt_ready@);
    Some(rt_ready[best].0)
}

} // verus!
