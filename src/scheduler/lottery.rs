//! Lottery tier: weighted selection by tickets, given a draw.
use vstd::prelude::*;

verus! {

/// Sum of the weights of the first `n` candidates.
pub open spec fn weight_sum(c: Seq<(usize, u32)>, n: int) -> int
    decreases n,
{
    if n <= 0 {
        0
    } else {
        weight_sum(c, n - 1) + c[n - 1].1
    }
}

/// Sum of all the candidates' weights.
pub open spec fn total_weight_of(c: Seq<(usize, u32)>) -> int {
    weight_sum(c, c.len() as int)
}

/// What a lottery over `c` yields for `draw`: the candidate whose cumulative
/// weight interval `[weight_sum(k), weight_sum(k + 1))` holds the draw, or
/// nothing when the draw reaches the total.
pub open spec fn lottery_outcome(c: Seq<(usize, u32)>, draw: int, r: Option<usize>) -> bool {
    if draw < total_weight_of(c) {
        exists|k: int|
            0 <= k < c.len() && weight_sum(c, k) <= draw < weight_sum(c, k + 1) && r == Some(
                #[trigger] c[k].0,
            )
    } else {
        r is None
    }
}

/// Cumulative weights never decrease.
pub proof fn lemma_weight_sum_monotone(c: Seq<(usize, u32)>, a: int, b: int)
    requires
        0 <= a <= b <= c.len(),
    ensures
        weight_sum(c, a) <= weight_sum(c, b),
    decreases b - a,
{
    if a < b {
        lemma_weight_sum_monotone(c, a, b - 1);
    }
}

/// Each candidate wins on a block of draws exactly as wide as its weight:
/// every draw in `[weight_sum(c, k), weight_sum(c, k + 1))`, a block of
/// `c[k].1` draws inside `[0, total)`, selects candidate `k`. A uniform draw
/// therefore selects each candidate in proportion to its tickets.
pub proof fn lemma_lottery_share(c: Seq<(usize, u32)>, k: int, draw: int)
    requires
        0 <= k < c.len(),
        weight_sum(c, k) <= draw < weight_sum(c, k + 1),
    ensures
        weight_sum(c, k + 1) - weight_sum(c, k) == c[k].1,
        0 <= draw < total_weight_of(c),
        lottery_outcome(c, draw, Some(c[k].0)),
{
    lemma_weight_sum_monotone(c, 0, k);
    lemma_weight_sum_monotone(c, k + 1, c.len() as int);
}

/// Cumulative weights of `n` candidates fit in `n` times the largest ticket count.
proof fn lemma_weight_sum_bound(c: Seq<(usize, u32)>, n: int)
    requires
        0 <= n <= c.len(),
    ensures
        0 <= weight_sum(c, n) <= n * 0xffff_ffff,
    decreases n,
{
    if n > 0 {
        lemma_weight_sum_bound(c, n - 1);
    }
}

/// Sum of the candidates' weights.
pub fn total_weight(lot_ready: &Vec<(usize, u32)>) -> (r: u128)
    ensures
        r == total_weight_of(lot_ready@),
{
    let mut acc: u128 = 0;
    let mut i: usize = 0;
    while i < lot_ready.len()
        invariant
            i <= lot_ready@.len(),
            acc == weight_sum(lot_ready@, i as int),
        decreases lot_ready@.len() - i,
    {
        proof {
            lemma_weight_sum_bound(lot_ready@, i as int);
        }
        acc = acc + lot_ready[i].1 as u128;
        i = i + 1;
    }
    acc
}

/// Scans the candidates in order, accumulating weights, and returns the id of
/// the first whose cumulative weight exceeds `draw`.
pub fn pick_lottery(lot_ready: &Vec<(usize, u32)>, draw: u128) -> (r: Option<usize>)
    ensures
        lottery_outcome(lot_ready@, draw as int, r),
{
    let mut acc: u128 = 0;
    let mut i: usize = 0;
    while i < lot_ready.len()
        invariant
            i <= lot_ready@.len(),
            acc == weight_sum(lot_ready@, i as int),
            acc <= draw,
        decreases lot_ready@.len() - i,
    {
        proof {
            lemma_weight_sum_bound(lot_ready@, i as int);
        }
        acc = acc + lot_ready[i].1 as u128;
        if draw < acc {
            proof {
                lemma_weight_sum_monotone(lot_ready@, i as int + 1, lot_ready@.len() as int);
                assert(0 <= i < lot_ready@.len() && weight_sum(lot_ready@, i as int) <= draw < weight_sum(lot_ready@, i as int + 1));
            }
            return Some(lot_ready[i].0);
        }
        i = i + 1;
    }
    None
}

} // verus!
