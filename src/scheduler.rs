//! Tiered selection of the next thread: real-time first, then lottery, then
//! round-robin; and the deadline monitor that runs before each selection.
use vstd::prelude::*;

mod lottery;
mod rr;
mod rt;
mod util;

pub use lottery::{
    lemma_lottery_share, lemma_weight_sum_monotone, lottery_outcome, pick_lottery, total_weight, total_weight_of,
    weight_sum,
};
pub use rr::{pick_round_robin, rr_slot};
pub use rt::{is_earliest, pick_realtime};
pub use util::{new_scheduler_state, seeded_scheduler_state, SchedulerState};

use crate::mypthreads::thread::{
    MyThreadId, SchedulerType, ThreadControlBlock, ThreadState, ThreadTable,
};
use util::elapsed_ms;

verus! {

/// A Ready real-time thread with a deadline.
pub open spec fn is_rt_candidate<B>(t: ThreadControlBlock<B>) -> bool {
    t.state == ThreadState::Ready && t.scheduler_type == SchedulerType::RealTime
        && t.deadline_ms is Some
}

/// A Ready lottery thread.
pub open spec fn is_lottery_candidate<B>(t: ThreadControlBlock<B>) -> bool {
    t.state == ThreadState::Ready && t.scheduler_type == SchedulerType::Lottery
}

/// A Ready round-robin thread, or a Ready real-time thread without a deadline.
pub open spec fn is_rr_candidate<B>(t: ThreadControlBlock<B>) -> bool {
    t.state == ThreadState::Ready && (t.scheduler_type == SchedulerType::RoundRobin || (
    t.scheduler_type == SchedulerType::RealTime && t.deadline_ms is None))
}

/// Ticket weight used when scheduling: a stored 0 counts as 1.
pub open spec fn effective_tickets(tickets: u32) -> u32 {
    if tickets == 0 {
        1
    } else {
        tickets
    }
}

/// `(index, deadline)` of the real-time candidates, in table order.
pub open spec fn rt_candidates<B>(s: Seq<ThreadControlBlock<B>>) -> Seq<(usize, u64)>
    decreases s.len(),
{
    if s.len() == 0 {
        seq![]
    } else {
        let p = rt_candidates(s.drop_last());
        if is_rt_candidate(s.last()) {
            p.push(((s.len() - 1) as usize, s.last().deadline_ms.unwrap()))
        } else {
            p
        }
    }
}

/// `(index, effective tickets)` of the lottery candidates, in table order.
pub open spec fn lottery_candidates<B>(s: Seq<ThreadControlBlock<B>>) -> Seq<(usize, u32)>
    decreases s.len(),
{
    if s.len() == 0 {
        seq![]
    } else {
        let p = lottery_candidates(s.drop_last());
        if is_lottery_candidate(s.last()) {
            p.push(((s.len() - 1) as usize, effective_tickets(s.last().tickets)))
        } else {
            p
        }
    }
}

/// Indices of the round-robin candidates, in table order.
pub open spec fn rr_candidates<B>(s: Seq<ThreadControlBlock<B>>) -> Seq<usize>
    decreases s.len(),
{
    if s.len() == 0 {
        seq![]
    } else {
        let p = rr_candidates(s.drop_last());
        if is_rr_candidate(s.last()) {
            p.push((s.len() - 1) as usize)
        } else {
            p
        }
    }
}

/// What one selection over the records `s` may yield, with the round-robin
/// cursor moving from `cursor` to `cursor_after`. Only the lottery tier leaves
/// a choice open, to the draw.
pub open spec fn tier_choice<B>(
    s: Seq<ThreadControlBlock<B>>,
    cursor: usize,
    choice: Option<MyThreadId>,
    cursor_after: usize,
) -> bool {
    let rt = rt_candidates(s);
    let lot = lottery_candidates(s);
    let rr = rr_candidates(s);
    if rt.len() > 0 {
        &&& cursor_after == cursor
        &&& exists|k: int| is_earliest(rt, k) && choice == Some(#[trigger] rt[k].0)
    } else if lot.len() > 0 {
        &&& cursor_after == cursor
        &&& exists|d: int| 0 <= d < total_weight_of(lot) && #[trigger] lottery_outcome(lot, d, choice)
    } else if rr.len() > 0 {
        let slot = rr_slot(rr.len() as int, cursor as int);
        &&& choice == Some(rr[slot])
        &&& cursor_after as int == (slot + 1) % (rr.len() as int)
    } else {
        &&& choice is None
        &&& cursor_after == cursor
    }
}

/// Some non-finished real-time thread has a deadline at or before `now`.
pub open spec fn deadline_missed<B>(s: Seq<ThreadControlBlock<B>>, now: int) -> bool {
    exists|i: int|
        0 <= i < s.len() && #[trigger] s[i].state != ThreadState::Finished && s[i].scheduler_type
            == SchedulerType::RealTime && s[i].deadline_ms is Some && s[i].deadline_ms.unwrap()
            <= now
}

/// The violation flag went from `before` to `after` by a deadline check at time `now`.
pub open spec fn latched_at<B>(s: Seq<ThreadControlBlock<B>>, before: bool, after: bool, now: u64) -> bool {
    after == (before || deadline_missed(s, now as int))
}

/// What one call of `scheduler_next` does to the scheduler state when it
/// returns `choice` for the records `s`.
pub open spec fn next_outcome<B>(
    s: Seq<ThreadControlBlock<B>>,
    before: SchedulerState,
    after: SchedulerState,
    choice: Option<MyThreadId>,
) -> bool {
    &&& tier_choice(s, before.rr_cursor, choice, after.rr_cursor)
    &&& exists|now: u64| #[trigger] latched_at(s, before.deadline_violated, after.deadline_violated, now)
    &&& after.start == before.start
    &&& after.rng is Some == before.rng is Some
}

/// Every candidate list names Ready records of `s`, by index; lottery weights are at least 1.
pub proof fn lemma_candidates_ready<B>(s: Seq<ThreadControlBlock<B>>)
    requires
        s.len() <= usize::MAX,
    ensures
        forall|i: int|
            0 <= i < rt_candidates(s).len() ==> {
                let e = #[trigger] rt_candidates(s)[i];
                &&& e.0 < s.len()
                &&& is_rt_candidate(s[e.0 as int])
            },
        forall|i: int|
            0 <= i < lottery_candidates(s).len() ==> {
                let e = #[trigger] lottery_candidates(s)[i];
                &&& e.0 < s.len()
                &&& is_lottery_candidate(s[e.0 as int])
                &&& e.1 >= 1
            },
        forall|i: int|
            0 <= i < rr_candidates(s).len() ==> {
                let e = #[trigger] rr_candidates(s)[i];
                &&& e < s.len()
                &&& is_rr_candidate(s[e as int])
            },
    decreases s.len(),
{
    if s.len() > 0 {
        let q = s.drop_last();
        lemma_candidates_ready(q);
        assert forall|j: int| 0 <= j < s.len() - 1 implies #[trigger] q[j] == s[j] by {}
        assert(s.last() == s[s.len() - 1]);
        let rt = rt_candidates(s);
        let lot = lottery_candidates(s);
        let rr = rr_candidates(s);
        assert forall|i: int| 0 <= i < rt.len() implies (#[trigger] rt[i]).0 < s.len()
            && is_rt_candidate(s[rt[i].0 as int]) by {
            if i < rt_candidates(q).len() {
                assert(rt[i] == rt_candidates(q)[i]);
            } else {
                assert(rt[i].0 == s.len() - 1);
            }
        }
        assert forall|i: int| 0 <= i < lot.len() implies (#[trigger] lot[i]).0 < s.len()
            && is_lottery_candidate(s[lot[i].0 as int]) && lot[i].1 >= 1 by {
            if i < lottery_candidates(q).len() {
                assert(lot[i] == lottery_candidates(q)[i]);
            } else {
                assert(lot[i].0 == s.len() - 1);
            }
        }
        assert forall|i: int| 0 <= i < rr.len() implies (#[trigger] rr[i]) < s.len()
            && is_rr_candidate(s[rr[i] as int]) by {
            if i < rr_candidates(q).len() {
                assert(rr[i] == rr_candidates(q)[i]);
            }
        }
    }
}

/// The total weight of lottery candidates is at least their count.
proof fn lemma_lottery_total_positive<B>(s: Seq<ThreadControlBlock<B>>, n: int)
    requires
        s.len() <= usize::MAX,
        0 <= n <= lottery_candidates(s).len(),
    ensures
        weight_sum(lottery_candidates(s), n) >= n,
    decreases n,
{
    if n > 0 {
        lemma_lottery_total_positive(s, n - 1);
        lemma_candidates_ready(s);
        assert(lottery_candidates(s)[n - 1].1 >= 1);
    }
}

/// A selection only ever names a record that is Ready.
pub proof fn lemma_choice_is_ready<B>(
    s: Seq<ThreadControlBlock<B>>,
    cursor: usize,
    choice: Option<MyThreadId>,
    cursor_after: usize,
)
    requires
        s.len() <= usize::MAX,
        tier_choice(s, cursor, choice, cursor_after),
    ensures
        choice is Some ==> choice.unwrap() < s.len() && s[choice.unwrap() as int].state
            == ThreadState::Ready,
{
    lemma_candidates_ready(s);
    let rt = rt_candidates(s);
    let lot = lottery_candidates(s);
    if rt.len() == 0 && lot.len() > 0 && choice is Some {
        let d = choose|d: int| 0 <= d < total_weight_of(lot) && #[trigger] lottery_outcome(lot, d, choice);
        assert(lottery_outcome(lot, d, choice));
        let k = choose|k: int|
            0 <= k < lot.len() && weight_sum(lot, k) <= d < weight_sum(lot, k + 1) && choice == Some(
                #[trigger] lot[k].0,
            );
        assert(lot[k].0 == choice.unwrap());
    }
}

/// Round-robin rotation: when only round-robin candidates are Ready and the
/// records do not change between two selections, the second selection names
/// the candidate right after the first one, wrapping around after the last.
pub proof fn lemma_round_robin_rotates<B>(
    s: Seq<ThreadControlBlock<B>>,
    c0: usize,
    first: Option<MyThreadId>,
    c1: usize,
    second: Option<MyThreadId>,
    c2: usize,
)
    requires
        rt_candidates(s).len() == 0,
        lottery_candidates(s).len() == 0,
        rr_candidates(s).len() > 0,
        tier_choice(s, c0, first, c1),
        tier_choice(s, c1, second, c2),
    ensures
        exists|i: int|
            0 <= i < rr_candidates(s).len() && first == Some(#[trigger] rr_candidates(s)[i]) && second
                == Some(rr_candidates(s)[(i + 1) % (rr_candidates(s).len() as int)]),
{
    let rr = rr_candidates(s);
    let n = rr.len() as int;
    let i = rr_slot(n, c0 as int);
    assert(0 <= (i + 1) % n < n) by (nonlinear_arith)
        requires
            n > 0,
            0 <= i,
    ;
    assert(rr_slot(n, c1 as int) == (i + 1) % n);
    assert(first == Some(rr[i]));
}

/// The three candidate lists of a snapshot of `threads`, in table order.
pub fn collect_candidates<B>(threads: &Vec<ThreadControlBlock<B>>) -> (r: (
    Vec<(usize, u64)>,
    Vec<(usize, u32)>,
    Vec<usize>,
))
    ensures
        r.0@ == rt_candidates(threads@),
        r.1@ == lottery_candidates(threads@),
        r.2@ == rr_candidates(threads@),
{
    let mut rt: Vec<(usize, u64)> = Vec::new();
    let mut lot: Vec<(usize, u32)> = Vec::new();
    let mut rr: Vec<usize> = Vec::new();
    let mut idx: usize = 0;
    while idx < threads.len()
        invariant
            idx <= threads@.len(),
            rt@ == rt_candidates(threads@.take(idx as int)),
            lot@ == lottery_candidates(threads@.take(idx as int)),
            rr@ == rr_candidates(threads@.take(idx as int)),
        decreases threads@.len() - idx,
    {
        let t = &threads[idx];
        assert(threads@.take(idx + 1).drop_last() =~= threads@.take(idx as int));
        if t.state == ThreadState::Ready {
            match t.scheduler_type {
                SchedulerType::RealTime => {
                    match t.deadline_ms {
                        Some(d) => rt.push((idx, d)),
                        None => rr.push(idx),
                    }
                },
                SchedulerType::Lottery => {
                    let tickets: u32 = if t.tickets == 0 {
                        1
                    } else {
                        t.tickets
                    };
                    lot.push((idx, tickets));
                },
                SchedulerType::RoundRobin => {
                    rr.push(idx);
                },
            }
        }
        idx = idx + 1;
    }
    assert(threads@.take(idx as int) =~= threads@);
    (rt, lot, rr)
}

/// Whether some non-finished real-time thread's deadline is at or before `now`.
pub fn any_deadline_missed<B>(threads: &Vec<ThreadControlBlock<B>>, now: u64) -> (r: bool)
    ensures
        r == deadline_missed(threads@, now as int),
{
    let mut i: usize = 0;
    while i < threads.len()
        invariant
            i <= threads@.len(),
            forall|j: int|
                0 <= j < i ==> !(#[trigger] threads@[j].state != ThreadState::Finished
                    && threads@[j].scheduler_type == SchedulerType::RealTime
                    && threads@[j].deadline_ms is Some && threads@[j].deadline_ms.unwrap() <= now),
        decreases threads@.len() - i,
    {
        let t = &threads[i];
        if t.state != ThreadState::Finished && t.scheduler_type == SchedulerType::RealTime {
            if let Some(d) = t.deadline_ms {
                if d <= now {
                    return true;
                }
            }
        }
        i = i + 1;
    }
    false
}

/// Deadline monitor at time `now`: latches the violation flag if some
/// non-finished real-time deadline has passed. Nothing else changes.
pub fn sweep_deadlines_and_flag<B>(table: &mut ThreadTable<B>, now: u64)
    ensures
        final(table).sched.deadline_violated == (old(table).sched.deadline_violated
            || deadline_missed(old(table).threads@, now as int)),
        final(table).threads == old(table).threads,
        final(table).current == old(table).current,
        final(table).run_queue == old(table).run_queue,
        final(table).sched.rr_cursor == old(table).sched.rr_cursor,
        final(table).sched.start == old(table).sched.start,
        final(table).sched.rng == old(table).sched.rng,
{
    if any_deadline_missed(&table.threads, now) {
        table.sched.deadline_violated = true;
    }
}

/// Selects the next thread to run among the Ready ones: the real-time thread
/// with the earliest deadline; else a lottery among lottery threads, weighted
/// by tickets; else the round-robin candidate at the cursor. Thread records
/// are left unchanged; the deadline monitor runs first.
pub fn scheduler_next<B>(table: &mut ThreadTable<B>) -> (r: Option<MyThreadId>)
    ensures
        r is Some ==> r.unwrap() < old(table).threads@.len() && old(table).threads@[r.unwrap() as int].state
            == ThreadState::Ready,
        next_outcome(old(table).threads@, old(table).sched, final(table).sched, r),
        final(table).threads == old(table).threads,
        final(table).current == old(table).current,
        final(table).run_queue == old(table).run_queue,
{
    let now: u64 = elapsed_ms(&table.sched.start);
    sweep_deadlines_and_flag(table, now);
    let ghost s = table.threads@;
    let n: usize = table.threads.len();
    assert(s.len() == n);
    let (rt_ready, lot_ready, rr_ready) = collect_candidates(&table.threads);
    proof {
        lemma_candidates_ready(s);
    }
    let r = if let Some(tid) = pick_realtime(&rt_ready) {
        Some(tid)
    } else {
        let total: u128 = total_weight(&lot_ready);
        if total > 0 {
            let draw: u128 = table.sched.draw_below(total);
            let r = pick_lottery(&lot_ready, draw);
            assert(0 <= draw < total_weight_of(lot_ready@) && lottery_outcome(
                lot_ready@,
                draw as int,
                r,
            ));
            r
        } else {
            proof {
                lemma_lottery_total_positive(s, lot_ready@.len() as int);
            }
            pick_round_robin(&rr_ready, &mut table.sched.rr_cursor)
        }
    };
    assert(tier_choice(s, old(table).sched.rr_cursor, r, table.sched.rr_cursor));
    assert(latched_at(s, old(table).sched.deadline_violated, table.sched.deadline_violated, now));
    proof {
        lemma_choice_is_ready(s, old(table).sched.rr_cursor, r, table.sched.rr_cursor);
    }
    r
}

/// Registers `tid` in the table's run queue.
pub fn scheduler_add<B>(table: &mut ThreadTable<B>, tid: MyThreadId)
    ensures
        final(table).run_queue@ == old(table).run_queue@.push(tid),
        final(table).threads == old(table).threads,
        final(table).current == old(table).current,
        final(table).sched == old(table).sched,
{
    table.run_queue.push(tid);
}

/// Whether the deadline monitor has ever seen a missed real-time deadline.
pub fn plant_exploded<B>(table: &ThreadTable<B>) -> (r: bool)
    ensures
        r == table.sched.deadline_violated,
{
    table.sched.deadline_violated
}

/// Clears the deadline-violation latch; meant for tests, which need a fresh flag.
pub fn reset_deadline_flag<B>(table: &mut ThreadTable<B>)
    ensures
        !final(table).sched.deadline_violated,
        final(table).threads == old(table).threads,
        final(table).current == old(table).current,
        final(table).run_queue == old(table).run_queue,
        final(table).sched.rr_cursor == old(table).sched.rr_cursor,
        final(table).sched.start == old(table).sched.start,
        final(table).sched.rng == old(table).sched.rng,
{
    table.sched.deadline_violated = false;
}

} // verus!
