//! The thread table: control records, the current-thread slot and the
//! lifecycle operations (create, end, yield, join, detach and metadata setters).
use vstd::prelude::*;

use crate::scheduler::{
    lemma_choice_is_ready, new_scheduler_state, next_outcome, scheduler_add, scheduler_next, seeded_scheduler_state,
    SchedulerState,
};

verus! {

/// Logical thread id: the thread's index in the table.
pub type MyThreadId = usize;

/// Capacity of a thread table.
pub const MAX_THREADS: usize = 64;

/// Lifecycle state of a thread. `Finished` is terminal.
#[derive(Debug, Clone, Copy, PartialEq, Eq, Structural)]
pub enum ThreadState {
    Ready,
    Running,
    Blocked,
    Finished,
}

/// Scheduling policy of a thread.
#[derive(Debug, Clone, Copy, PartialEq, Eq, Structural)]
pub enum SchedulerType {
    RoundRobin,
    Lottery,
    RealTime,
}

/// Errors of the lifecycle operations.
#[derive(Debug, Clone, Copy, PartialEq, Eq, Structural)]
pub enum ThreadError {
    MaxThreadsReached,
    ThreadNotFound,
    NoCurrentThread,
    InvalidTicketCount,
}

impl ThreadError {
    /// A short human-readable description of the error.
    pub fn message(&self) -> (r: &'static str) {
        match self {
            ThreadError::MaxThreadsReached => "max threads reached",
            ThreadError::ThreadNotFound => "thread does not exist",
            ThreadError::NoCurrentThread => "no current thread",
            ThreadError::InvalidTicketCount => "tickets must be >= 1",
        }
    }
}

/// Control record of one thread. `B` is the type of the thread's body.
pub struct ThreadControlBlock<B> {
    /// Index of the record in the table.
    pub id: MyThreadId,
    pub state: ThreadState,
    /// The one thread, if any, blocked in `join` on this thread.
    pub waiting_thread_id: Option<MyThreadId>,
    pub scheduler_type: SchedulerType,
    /// Set when the thread's completion need not be awaited.
    pub detached: bool,
    /// The body run when the thread is dispatched.
    pub start_routine: Option<B>,
    /// Lottery weight; a stored 0 counts as 1 when scheduling.
    pub tickets: u32,
    /// Absolute deadline in milliseconds, used under `RealTime`.
    pub deadline_ms: Option<u64>,
}

/// Outcome of a `join` request that was accepted.
#[derive(Debug, Clone, Copy, PartialEq, Eq, Structural)]
pub enum JoinStatus {
    /// The target had already finished: nothing to wait for.
    Finished,
    /// The caller is registered as the target's waiter and is now blocked.
    Waiting,
}

/// A registry of threads: the records, the current-thread slot, the queue of
/// registered ids and the scheduler's own state.
pub struct ThreadTable<B> {
    pub threads: Vec<ThreadControlBlock<B>>,
    pub current: Option<MyThreadId>,
    pub run_queue: Vec<MyThreadId>,
    pub sched: SchedulerState,
}

/// The record that `create` appends.
pub open spec fn fresh_record<B>(id: MyThreadId, body: B, policy: SchedulerType) -> ThreadControlBlock<B> {
    ThreadControlBlock {
        id,
        state: ThreadState::Ready,
        waiting_thread_id: None,
        scheduler_type: policy,
        detached: false,
        start_routine: Some(body),
        tickets: 1,
        deadline_ms: None,
    }
}

/// `s` with the state of record `i` replaced, if there is such a record.
pub open spec fn with_state<B>(s: Seq<ThreadControlBlock<B>>, i: int, st: ThreadState) -> Seq<ThreadControlBlock<B>> {
    if 0 <= i < s.len() {
        s.update(i, ThreadControlBlock { state: st, ..s[i] })
    } else {
        s
    }
}

impl<B> ThreadTable<B> {
    /// Ids are indices and the table stays within its capacity.
    pub open spec fn wf(&self) -> bool {
        &&& self.threads@.len() <= MAX_THREADS
        &&& forall|i: int| 0 <= i < self.threads@.len() ==> (#[trigger] self.threads@[i]).id == i
    }

    /// An empty table whose lottery draws come from the thread-local generator.
    pub fn new() -> (r: Self)
        ensures
            r.wf(),
            r.threads@.len() == 0,
            r.current is None,
            r.run_queue@.len() == 0,
            r.sched.rr_cursor == 0,
            !r.sched.deadline_violated,
            r.sched.rng is None,
    {
        ThreadTable {
            threads: Vec::new(),
            current: None,
            run_queue: Vec::new(),
            sched: new_scheduler_state(),
        }
    }

    /// An empty table whose lottery draws come from a generator seeded with `seed`.
    pub fn with_seed(seed: u64) -> (r: Self)
        ensures
            r.wf(),
            r.threads@.len() == 0,
            r.current is None,
            r.run_queue@.len() == 0,
            r.sched.rr_cursor == 0,
            !r.sched.deadline_violated,
            r.sched.rng is Some,
    {
        ThreadTable {
            threads: Vec::new(),
            current: None,
            run_queue: Vec::new(),
            sched: seeded_scheduler_state(seed),
        }
    }
}

/// `s` after the record at `c` finishes: it becomes `Finished` with no
/// waiter, and its waiter, if any, becomes `Ready`.
pub open spec fn finish_current<B>(s: Seq<ThreadControlBlock<B>>, c: int) -> Seq<ThreadControlBlock<B>> {
    if 0 <= c < s.len() {
        let f = s.update(
            c,
            ThreadControlBlock { state: ThreadState::Finished, waiting_thread_id: None, ..s[c] },
        );
        match s[c].waiting_thread_id {
            Some(w) => with_state(f, w as int, ThreadState::Ready),
            None => f,
        }
    } else {
        s
    }
}

/// `s` with the chosen thread, if any, marked `Running`.
pub open spec fn dispatched<B>(s: Seq<ThreadControlBlock<B>>, choice: Option<MyThreadId>) -> Seq<ThreadControlBlock<B>> {
    match choice {
        Some(n) => with_state(s, n as int, ThreadState::Running),
        None => s,
    }
}

/// One `end` of the current thread, from `before` to `after`.
pub open spec fn ended<B>(before: ThreadTable<B>, after: ThreadTable<B>) -> bool {
    match before.current {
        None => after == before,
        Some(c) => {
            let mid = finish_current(before.threads@, c as int);
            &&& next_outcome(mid, before.sched, after.sched, after.current)
            &&& after.threads@ == dispatched(mid, after.current)
            &&& after.run_queue == before.run_queue
        },
    }
}

/// What a `yield` whose selection returned `choice` leaves behind.
pub open spec fn yield_effect<B>(before: ThreadTable<B>, after: ThreadTable<B>, c: MyThreadId, choice: Option<MyThreadId>) -> bool {
    if choice is None || choice == Some(c) {
        &&& after.threads@ == before.threads@
        &&& after.current == before.current
    } else {
        &&& after.threads@ == with_state(
            with_state(before.threads@, c as int, ThreadState::Ready),
            choice.unwrap() as int,
            ThreadState::Running,
        )
        &&& after.current == choice
    }
}

/// One `yield` of the current thread, from `before` to `after`.
pub open spec fn yielded<B>(before: ThreadTable<B>, after: ThreadTable<B>) -> bool {
    match before.current {
        None => after == before,
        Some(c) => exists|choice: Option<MyThreadId>|
            {
                &&& #[trigger] next_outcome(before.threads@, before.sched, after.sched, choice)
                &&& yield_effect(before, after, c, choice)
                &&& after.run_queue == before.run_queue
            },
    }
}

/// One `create` of a thread with `body` under `policy`, from `before` to
/// `after`, returning `r`.
pub open spec fn created<B>(
    before: ThreadTable<B>,
    after: ThreadTable<B>,
    body: B,
    policy: SchedulerType,
    r: Result<MyThreadId, ThreadError>,
) -> bool {
    if before.threads@.len() >= MAX_THREADS {
        &&& r == Err::<MyThreadId, ThreadError>(ThreadError::MaxThreadsReached)
        &&& after == before
    } else {
        let id = before.threads@.len() as MyThreadId;
        &&& r == Ok::<MyThreadId, ThreadError>(id)
        &&& after.threads@ == before.threads@.push(fresh_record(id, body, policy))
        &&& after.run_queue@ == before.run_queue@.push(id)
        &&& after.current == before.current
        &&& after.sched == before.sched
    }
}

/// Creates a thread with body `start_routine` under `scheduler_type`: a `Ready`
/// record with one ticket and no deadline, whose id is the next index.
/// Fails with `MaxThreadsReached` once the table holds `MAX_THREADS` records.
pub fn my_thread_create<B>(
    table: &mut ThreadTable<B>,
    start_routine: B,
    scheduler_type: SchedulerType,
) -> (r: Result<MyThreadId, ThreadError>)
    ensures
        created(*old(table), *final(table), start_routine, scheduler_type, r),
        old(table).wf() ==> final(table).wf(),
{
    if table.threads.len() >= MAX_THREADS {
        return Err(ThreadError::MaxThreadsReached);
    }
    let id: MyThreadId = table.threads.len();
    let tcb = ThreadControlBlock {
        id,
        state: ThreadState::Ready,
        waiting_thread_id: None,
        scheduler_type,
        detached: false,
        start_routine: Some(start_routine),
        tickets: 1,
        deadline_ms: None,
    };
    table.threads.push(tcb);
    scheduler_add(table, id);
    Ok(id)
}

/// Ends the current thread, if there is one: it becomes `Finished`, its waiter
/// becomes `Ready`, and the scheduler's pick becomes the running, current
/// thread (no thread is current when nothing is runnable).
pub fn my_thread_end<B>(table: &mut ThreadTable<B>)
    ensures
        ended(*old(table), *final(table)),
        old(table).wf() ==> final(table).wf(),
{
    let current_id: MyThreadId = match table.current {
        Some(c) => c,
        None => {
            return ;
        },
    };
    let ghost s0 = table.threads@;
    if current_id < table.threads.len() {
        let waiter: Option<MyThreadId> = table.threads[current_id].waiting_thread_id;
        table.threads[current_id].state = ThreadState::Finished;
        table.threads[current_id].waiting_thread_id = None;
        assert(table.threads@ =~= s0.update(
            current_id as int,
            ThreadControlBlock {
                state: ThreadState::Finished,
                waiting_thread_id: None,
                ..s0[current_id as int]
            },
        ));
        if let Some(w) = waiter {
            if w < table.threads.len() {
                let ghost s1 = table.threads@;
                table.threads[w].state = ThreadState::Ready;
                assert(table.threads@ =~= with_state(s1, w as int, ThreadState::Ready));
            }
        }
    }
    assert(table.threads@ =~= finish_current(s0, current_id as int));
    let ghost mid = table.threads@;
    let next = scheduler_next(table);
    match next {
        Some(n) => {
            table.threads[n].state = ThreadState::Running;
            table.current = Some(n);
            assert(table.threads@ =~= with_state(mid, n as int, ThreadState::Running));
        },
        None => {
            table.current = None;
        },
    }
}

/// Yields the processor: if the scheduler picks another thread, the current
/// thread becomes `Ready`, the chosen one `Running` and current. Nothing
/// changes when no thread is current; only the scheduler's own state when
/// it picks nothing or the current thread itself.
pub fn my_thread_yield_<B>(table: &mut ThreadTable<B>)
    ensures
        yielded(*old(table), *final(table)),
        old(table).wf() ==> final(table).wf(),
{
    let current_id: MyThreadId = match table.current {
        Some(c) => c,
        None => {
            return ;
        },
    };
    let ghost s0 = table.threads@;
    let next = scheduler_next(table);
    let next_id: MyThreadId = match next {
        Some(n) => n,
        None => {
            assert(yield_effect(*old(table), *table, current_id, next));
            return ;
        },
    };
    if next_id == current_id {
        assert(yield_effect(*old(table), *table, current_id, next));
        return ;
    }
    if current_id < table.threads.len() {
        table.threads[current_id].state = ThreadState::Ready;
    }
    assert(table.threads@ =~= with_state(s0, current_id as int, ThreadState::Ready));
    let ghost s1 = table.threads@;
    table.threads[next_id].state = ThreadState::Running;
    assert(table.threads@ =~= with_state(s1, next_id as int, ThreadState::Running));
    table.current = Some(next_id);
    assert(yield_effect(*old(table), *table, current_id, next));
}

/// Joins `target_id` from the current thread. A finished target is joined at
/// once. Otherwise the current thread is recorded as the target's single
/// waiter (replacing any earlier one) and becomes `Blocked`; the caller then
/// waits with `join_wait_step` until the target finishes.
pub fn my_thread_join<B>(table: &mut ThreadTable<B>, target_id: MyThreadId) -> (r: Result<
    JoinStatus,
    ThreadError,
>)
    ensures
        target_id >= old(table).threads@.len() ==> r == Err::<JoinStatus, ThreadError>(
            ThreadError::ThreadNotFound,
        ) && *final(table) == *old(table),
        target_id < old(table).threads@.len() && old(table).threads@[target_id as int].state
            == ThreadState::Finished ==> r == Ok::<JoinStatus, ThreadError>(JoinStatus::Finished)
            && *final(table) == *old(table),
        target_id < old(table).threads@.len() && old(table).threads@[target_id as int].state
            != ThreadState::Finished && old(table).current is None ==> r == Err::<
            JoinStatus,
            ThreadError,
        >(ThreadError::NoCurrentThread) && *final(table) == *old(table),
        target_id < old(table).threads@.len() && old(table).threads@[target_id as int].state
            != ThreadState::Finished && old(table).current is Some ==> {
            let s = old(table).threads@;
            let c = old(table).current.unwrap();
            &&& r == Ok::<JoinStatus, ThreadError>(JoinStatus::Waiting)
            &&& final(table).threads@ == with_state(
                s.update(
                    target_id as int,
                    ThreadControlBlock { waiting_thread_id: Some(c), ..s[target_id as int] },
                ),
                c as int,
                ThreadState::Blocked,
            )
            &&& final(table).current == old(table).current
            &&& final(table).run_queue == old(table).run_queue
            &&& final(table).sched == old(table).sched
        },
        old(table).wf() ==> final(table).wf(),
{
    if target_id >= table.threads.len() {
        return Err(ThreadError::ThreadNotFound);
    }
    if table.threads[target_id].state == ThreadState::Finished {
        return Ok(JoinStatus::Finished);
    }
    let current_id: MyThreadId = match table.current {
        Some(c) => c,
        None => {
            return Err(ThreadError::NoCurrentThread);
        },
    };
    let ghost s = table.threads@;
    table.threads[target_id].waiting_thread_id = Some(current_id);
    let ghost s1 = table.threads@;
    assert(s1 =~= s.update(
        target_id as int,
        ThreadControlBlock { waiting_thread_id: Some(current_id), ..s[target_id as int] },
    ));
    if current_id < table.threads.len() {
        table.threads[current_id].state = ThreadState::Blocked;
    }
    assert(table.threads@ =~= with_state(s1, current_id as int, ThreadState::Blocked));
    Ok(JoinStatus::Waiting)
}

/// One round of waiting for `target_id`: `true` once it has finished (nothing
/// changes then); otherwise the current thread yields and `false` comes back.
pub fn join_wait_step<B>(table: &mut ThreadTable<B>, target_id: MyThreadId) -> (done: bool)
    requires
        target_id < old(table).threads@.len(),
    ensures
        done == (old(table).threads@[target_id as int].state == ThreadState::Finished),
        done ==> *final(table) == *old(table),
        !done ==> yielded(*old(table), *final(table)),
        old(table).wf() ==> final(table).wf(),
{
    if table.threads[target_id].state == ThreadState::Finished {
        return true;
    }
    my_thread_yield_(table);
    false
}

/// Marks `tid` as detached: its completion need not be awaited.
pub fn my_thread_detach<B>(table: &mut ThreadTable<B>, tid: MyThreadId) -> (r: Result<(), ThreadError>)
    ensures
        tid >= old(table).threads@.len() ==> r == Err::<(), ThreadError>(
            ThreadError::ThreadNotFound,
        ) && *final(table) == *old(table),
        tid < old(table).threads@.len() ==> {
            let s = old(table).threads@;
            &&& r == Ok::<(), ThreadError>(())
            &&& final(table).threads@ == s.update(
                tid as int,
                ThreadControlBlock { detached: true, ..s[tid as int] },
            )
            &&& final(table).current == old(table).current
            &&& final(table).run_queue == old(table).run_queue
            &&& final(table).sched == old(table).sched
        },
        old(table).wf() ==> final(table).wf(),
{
    if tid >= table.threads.len() {
        return Err(ThreadError::ThreadNotFound);
    }
    let ghost s = table.threads@;
    table.threads[tid].detached = true;
    assert(table.threads@ =~= s.update(tid as int, ThreadControlBlock { detached: true, ..s[tid as int] }));
    Ok(())
}

/// Moves `tid` to scheduling policy `new_sched`, from the next selection on.
pub fn my_thread_chsched<B>(
    table: &mut ThreadTable<B>,
    tid: MyThreadId,
    new_sched: SchedulerType,
) -> (r: Result<(), ThreadError>)
    ensures
        tid >= old(table).threads@.len() ==> r == Err::<(), ThreadError>(
            ThreadError::ThreadNotFound,
        ) && *final(table) == *old(table),
        tid < old(table).threads@.len() ==> {
            let s = old(table).threads@;
            &&& r == Ok::<(), ThreadError>(())
            &&& final(table).threads@ == s.update(
                tid as int,
                ThreadControlBlock { scheduler_type: new_sched, ..s[tid as int] },
            )
            &&& final(table).current == old(table).current
            &&& final(table).run_queue == old(table).run_queue
            &&& final(table).sched == old(table).sched
        },
        old(table).wf() ==> final(table).wf(),
{
    if tid >= table.threads.len() {
        return Err(ThreadError::ThreadNotFound);
    }
    let ghost s = table.threads@;
    table.threads[tid].scheduler_type = new_sched;
    assert(table.threads@ =~= s.update(
        tid as int,
        ThreadControlBlock { scheduler_type: new_sched, ..s[tid as int] },
    ));
    Ok(())
}

/// Sets the lottery tickets of `tid`. A count of 0 is refused with
/// `InvalidTicketCount`, before the id is looked at.
pub fn my_thread_set_tickets<B>(table: &mut ThreadTable<B>, tid: MyThreadId, tickets: u32) -> (r:
    Result<(), ThreadError>)
    ensures
        tickets == 0 ==> r == Err::<(), ThreadError>(ThreadError::InvalidTicketCount)
            && *final(table) == *old(table),
        tickets != 0 && tid >= old(table).threads@.len() ==> r == Err::<(), ThreadError>(
            ThreadError::ThreadNotFound,
        ) && *final(table) == *old(table),
        tickets != 0 && tid < old(table).threads@.len() ==> {
            let s = old(table).threads@;
            &&& r == Ok::<(), ThreadError>(())
            &&& final(table).threads@ == s.update(
                tid as int,
                ThreadControlBlock { tickets, ..s[tid as int] },
            )
            &&& final(table).current == old(table).current
            &&& final(table).run_queue == old(table).run_queue
            &&& final(table).sched == old(table).sched
        },
        old(table).wf() ==> final(table).wf(),
{
    if tickets == 0 {
        return Err(ThreadError::InvalidTicketCount);
    }
    if tid >= table.threads.len() {
        return Err(ThreadError::ThreadNotFound);
    }
    let ghost s = table.threads@;
    table.threads[tid].tickets = tickets;
    assert(table.threads@ =~= s.update(tid as int, ThreadControlBlock { tickets, ..s[tid as int] }));
    Ok(())
}

/// Sets (or, with `None`, clears) the real-time deadline of `tid`.
pub fn my_thread_set_deadline_ms<B>(
    table: &mut ThreadTable<B>,
    tid: MyThreadId,
    deadline_ms: Option<u64>,
) -> (r: Result<(), ThreadError>)
    ensures
        tid >= old(table).threads@.len() ==> r == Err::<(), ThreadError>(
            ThreadError::ThreadNotFound,
        ) && *final(table) == *old(table),
        tid < old(table).threads@.len() ==> {
            let s = old(table).threads@;
            &&& r == Ok::<(), ThreadError>(())
            &&& final(table).threads@ == s.update(
                tid as int,
                ThreadControlBlock { deadline_ms, ..s[tid as int] },
            )
            &&& final(table).current == old(table).current
            &&& final(table).run_queue == old(table).run_queue
            &&& final(table).sched == old(table).sched
        },
        old(table).wf() ==> final(table).wf(),
{
    if tid >= table.threads.len() {
        return Err(ThreadError::ThreadNotFound);
    }
    let ghost s = table.threads@;
    table.threads[tid].deadline_ms = deadline_ms;
    assert(table.threads@ =~= s.update(tid as int, ThreadControlBlock { deadline_ms, ..s[tid as int] }));
    Ok(())
}

/// Runs `f` on a read-only view of the records and returns its result.
pub fn with_threads<B, R, F: FnOnce(&Vec<ThreadControlBlock<B>>) -> R>(
    table: &ThreadTable<B>,
    f: F,
) -> (r: R)
    requires
        f.requires((&table.threads,)),
    ensures
        f.ensures((&table.threads,), r),
{
    f(&table.threads)
}

/// Runs `f` with mutable access to the records and returns its result; the
/// current-thread slot, run queue and scheduler state are untouched.
pub fn with_threads_mut<B, R, F: FnOnce(&mut Vec<ThreadControlBlock<B>>) -> R>(
    table: &mut ThreadTable<B>,
    f: F,
) -> (r: R)
    requires
        forall|v: &mut Vec<ThreadControlBlock<B>>| #[trigger] f.requires((v,)),
    ensures
        exists|v: &mut Vec<ThreadControlBlock<B>>|
            *v == old(table).threads && *final(v) == final(table).threads && #[trigger] f.ensures((v,), r),
        final(table).current == old(table).current,
        final(table).run_queue == old(table).run_queue,
        final(table).sched == old(table).sched,
{
    f(&mut table.threads)
}

/// The id of the current thread. There must be one.
pub fn my_thread_id<B>(table: &ThreadTable<B>) -> (r: MyThreadId)
    requires
        table.current is Some,
    ensures
        r == table.current.unwrap(),
{
    match table.current {
        Some(c) => c,
        None => 0,
    }
}

/// Makes `tid` the current thread; the driver calls it when it dispatches.
pub fn set_current_thread_id<B>(table: &mut ThreadTable<B>, tid: MyThreadId)
    ensures
        final(table).current == Some(tid),
        final(table).threads == old(table).threads,
        final(table).run_queue == old(table).run_queue,
        final(table).sched == old(table).sched,
{
    table.current = Some(tid);
}

/// The body of thread `tid`, if it exists and has one.
pub fn thread_body<B>(table: &ThreadTable<B>, tid: MyThreadId) -> (r: Option<&B>)
    ensures
        tid >= table.threads@.len() ==> r is None,
        tid < table.threads@.len() ==> (r is Some <==> table.threads@[tid as int].start_routine is Some),
        r is Some ==> *r.unwrap() == table.threads@[tid as int].start_routine.unwrap(),
{
    if tid < table.threads.len() {
        table.threads[tid].start_routine.as_ref()
    } else {
        None
    }
}

/// Ids from `create` count up from 0 in creation order and are never reused:
/// on a well-formed table a create that succeeds returns the number of
/// records so far, above every id already given out; two creates in a row
/// that both succeed return consecutive ids; a table holding `MAX_THREADS`
/// records refuses the next create with `MaxThreadsReached`, and so does
/// every create after a refused one.
pub proof fn lemma_create_ids_sequential<B>(
    t0: ThreadTable<B>,
    t1: ThreadTable<B>,
    t2: ThreadTable<B>,
    b1: B,
    b2: B,
    policy1: SchedulerType,
    policy2: SchedulerType,
    r1: Result<MyThreadId, ThreadError>,
    r2: Result<MyThreadId, ThreadError>,
)
    requires
        t0.wf(),
        created(t0, t1, b1, policy1, r1),
        created(t1, t2, b2, policy2, r2),
    ensures
        t0.threads@.len() < MAX_THREADS ==> r1 == Ok::<MyThreadId, ThreadError>(
            t0.threads@.len() as MyThreadId,
        ),
        t0.threads@.len() == MAX_THREADS ==> r1 == Err::<MyThreadId, ThreadError>(
            ThreadError::MaxThreadsReached,
        ),
        r1 is Ok ==> forall|i: int|
            0 <= i < t0.threads@.len() ==> (#[trigger] t0.threads@[i]).id < r1.unwrap(),
        r1 is Ok && r2 is Ok ==> r2.unwrap() == r1.unwrap() + 1,
        r1 is Err ==> r2 == Err::<MyThreadId, ThreadError>(ThreadError::MaxThreadsReached),
{
}

/// Ending a thread releases its joiner: when the current thread `b` ends
/// while thread `a` waits on it, `b` is `Finished` afterwards (so a later
/// `join` on it returns at once), and `a` is no longer `Blocked`: it is
/// `Ready`, or `Running` as the new current thread if the scheduler picked it.
pub proof fn lemma_end_releases_waiter<B>(
    before: ThreadTable<B>,
    after: ThreadTable<B>,
    a: MyThreadId,
    b: MyThreadId,
)
    requires
        before.wf(),
        before.current == Some(b),
        b < before.threads@.len(),
        a < before.threads@.len(),
        a != b,
        before.threads@[b as int].waiting_thread_id == Some(a),
        ended(before, after),
    ensures
        after.threads@[b as int].state == ThreadState::Finished,
        after.threads@[a as int].state == ThreadState::Ready || (after.threads@[a as int].state
            == ThreadState::Running && after.current == Some(a)),
{
    let mid = finish_current(before.threads@, b as int);
    assert(mid[b as int].state == ThreadState::Finished);
    assert(mid[a as int].state == ThreadState::Ready);
    lemma_choice_is_ready(mid, before.sched.rr_cursor, after.current, after.sched.rr_cursor);
}

} // verus!
