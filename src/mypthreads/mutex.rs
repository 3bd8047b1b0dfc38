//! A cooperative mutex: `Unlocked` or `Locked(owner)`, where only the owner
//! may release it. Acquisition by `lock` polls, yielding between attempts.
use vstd::prelude::*;

use crate::mypthreads::thread::{my_thread_yield_, yielded, MyThreadId, ThreadTable};

verus! {

/// Errors of the mutex operations.
#[derive(Debug, Clone, Copy, PartialEq, Eq, Structural)]
pub enum MutexError {
    /// The acting thread does not hold the mutex.
    NotOwner,
}

impl MutexError {
    /// A short human-readable description of the error.
    pub fn message(&self) -> (r: &'static str) {
        match self {
            MutexError::NotOwner => "current thread is not the owner of this mutex",
        }
    }
}

/// The mutex: a locked flag and the owning thread, if any.
#[derive(Debug)]
pub struct MyMutex {
    locked: bool,
    owner: Option<MyThreadId>,
}

impl View for MyMutex {
    /// The owner; `None` when unlocked.
    type V = Option<MyThreadId>;

    closed spec fn view(&self) -> Option<MyThreadId> {
        self.owner
    }
}

impl MyMutex {
    /// The flag is set exactly when there is an owner.
    pub closed spec fn wf(&self) -> bool {
        self.locked == self.owner is Some
    }

    /// An unlocked mutex with no owner.
    pub fn new() -> (r: Self)
        ensures
            r.wf(),
            r@ is None,
    {
        MyMutex { locked: false, owner: None }
    }

    /// One attempt of a blocking acquire by `current_tid`: takes the mutex if
    /// it is free and returns `true`; otherwise yields the current thread of
    /// `table` once and returns `false`, to be called again.
    pub fn lock<B>(&mut self, current_tid: MyThreadId, table: &mut ThreadTable<B>) -> (acquired: bool)
        requires
            old(self).wf(),
        ensures
            final(self).wf(),
            acquired == (old(self)@ is None),
            acquired ==> final(self)@ == Some(current_tid) && *final(table) == *old(table),
            !acquired ==> final(self)@ == old(self)@ && yielded(*old(table), *final(table)),
            old(table).wf() ==> final(table).wf(),
    {
        if self.try_lock(current_tid) {
            true
        } else {
            my_thread_yield_(table);
            false
        }
    }

    /// Releases the mutex if `current_tid` owns it; otherwise leaves it as it
    /// is and returns `NotOwner`.
    pub fn unlock(&mut self, current_tid: MyThreadId) -> (r: Result<(), MutexError>)
        requires
            old(self).wf(),
        ensures
            final(self).wf(),
            old(self)@ == Some(current_tid) ==> r == Ok::<(), MutexError>(()) && final(self)@ is None,
            old(self)@ != Some(current_tid) ==> r == Err::<(), MutexError>(MutexError::NotOwner)
                && *final(self) == *old(self),
    {
        let is_owner = match self.owner {
            Some(owner_id) => owner_id == current_tid,
            None => false,
        };
        if is_owner {
            self.owner = None;
            self.locked = false;
            Ok(())
        } else {
            Err(MutexError::NotOwner)
        }
    }

    /// Takes the mutex for `current_tid` if it is free and returns `true`;
    /// otherwise returns `false` and changes nothing.
    pub fn try_lock(&mut self, current_tid: MyThreadId) -> (r: bool)
        requires
            old(self).wf(),
        ensures
            final(self).wf(),
            r == (old(self)@ is None),
            r ==> final(self)@ == Some(current_tid),
            !r ==> *final(self) == *old(self),
    {
        if !self.locked {
            self.locked = true;
            self.owner = Some(current_tid);
            true
        } else {
            false
        }
    }

    /// Forces the mutex back to unlocked with no owner, whoever held it.
    pub fn destroy(&mut self)
        ensures
            final(self).wf(),
            final(self)@ is None,
    {
        self.locked = false;
        self.owner = None;
    }

    /// Whether the mutex is held.
    pub fn is_locked(&self) -> (r: bool)
        requires
            self.wf(),
        ensures
            r == (self@ is Some),
    {
        self.locked
    }

    /// The thread holding the mutex, if any.
    pub fn owner(&self) -> (r: Option<MyThreadId>)
        ensures
            r == self@,
    {
        self.owner
    }
}

/// A new unlocked mutex.
pub fn my_mutex_init() -> (r: MyMutex)
    ensures
        r.wf(),
        r@ is None,
{
    MyMutex::new()
}

/// Forces `mutex` back to unlocked with no owner.
pub fn my_mutex_destroy(mutex: &mut MyMutex)
    ensures
        final(mutex).wf(),
        final(mutex)@ is None,
{
    mutex.destroy();
}

/// One attempt of a blocking acquire; see `MyMutex::lock`.
pub fn my_mutex_lock<B>(mutex: &mut MyMutex, current_tid: MyThreadId, table: &mut ThreadTable<B>) -> (acquired: bool)
    requires
        old(mutex).wf(),
    ensures
        final(mutex).wf(),
        acquired == (old(mutex)@ is None),
        acquired ==> final(mutex)@ == Some(current_tid) && *final(table) == *old(table),
        !acquired ==> final(mutex)@ == old(mutex)@ && yielded(*old(table), *final(table)),
        old(table).wf() ==> final(table).wf(),
{
    mutex.lock(current_tid, table)
}

/// Releases `mutex` if `current_tid` owns it; see `MyMutex::unlock`.
pub fn my_mutex_unlock(mutex: &mut MyMutex, current_tid: MyThreadId) -> (r: Result<(), MutexError>)
    requires
        old(mutex).wf(),
    ensures
        final(mutex).wf(),
        old(mutex)@ == Some(current_tid) ==> r == Ok::<(), MutexError>(()) && final(mutex)@ is None,
        old(mutex)@ != Some(current_tid) ==> r == Err::<(), MutexError>(MutexError::NotOwner)
            && *final(mutex) == *old(mutex),
{
    mutex.unlock(current_tid)
}

/// Takes `mutex` for `current_tid` if it is free; see `MyMutex::try_lock`.
pub fn my_mutex_trylock(mutex: &mut MyMutex, current_tid: MyThreadId) -> (r: bool)
    requires
        old(mutex).wf(),
    ensures
        final(mutex).wf(),
        r == (old(mutex)@ is None),
        r ==> final(mutex)@ == Some(current_tid),
        !r ==> *final(mutex) == *old(mutex),
{
    mutex.try_lock(current_tid)
}

/// Destroying a mutex twice in a row is harmless: after each call it is
/// unlocked with no owner, and the second call leaves it as the first did.
pub proof fn lemma_destroy_twice(m1: MyMutex, m2: MyMutex)
    requires
        m1.wf() && m1@ is None,
        m2.wf() && m2@ is None,
    ensures
        m1@ is None,
        m2@ is None,
        m2 == m1,
{
}

} // verus!
