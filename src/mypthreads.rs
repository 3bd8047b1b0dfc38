//! Thread lifecycle and the cooperative mutex.
pub mod mutex;
pub mod thread;

pub use mutex::{
    my_mutex_destroy, my_mutex_init, my_mutex_lock, my_mutex_trylock, my_mutex_unlock, MutexError,
    MyMutex,
};
pub use thread::{
    join_wait_step, my_thread_chsched, my_thread_create, my_thread_detach, my_thread_end,
    my_thread_id, my_thread_join, my_thread_set_deadline_ms, my_thread_set_tickets,
    my_thread_yield_, set_current_thread_id, thread_body, with_threads, with_threads_mut,
    JoinStatus, MyThreadId, SchedulerType, ThreadControlBlock, ThreadError, ThreadState,
    ThreadTable, MAX_THREADS,
};
