use proyecto1::mypthreads::{
    my_mutex_destroy, my_mutex_init, my_mutex_lock, my_mutex_trylock, my_mutex_unlock,
    my_thread_create, set_current_thread_id, MutexError, MyMutex, SchedulerType, ThreadState,
    ThreadTable,
};

#[test]
fn try_lock_on_free_mutex_takes_it() {
    let mut m = MyMutex::new();
    assert!(!m.is_locked());
    assert!(m.try_lock(3));
    assert!(m.is_locked());
    assert_eq!(m.owner(), Some(3));
}

#[test]
fn try_lock_on_locked_mutex_fails() {
    let mut m = my_mutex_init();
    assert!(my_mutex_trylock(&mut m, 1));
    assert!(!my_mutex_trylock(&mut m, 2));
    assert_eq!(m.owner(), Some(1));
    assert!(m.is_locked());
}

#[test]
fn unlock_by_non_owner_is_refused() {
    let mut m = MyMutex::new();
    assert!(m.try_lock(1));
    assert_eq!(m.unlock(2), Err(MutexError::NotOwner));
    assert!(m.is_locked());
    assert_eq!(m.owner(), Some(1));
    assert_eq!(my_mutex_unlock(&mut m, 1), Ok(()));
    assert!(!m.is_locked());
    assert_eq!(m.owner(), None);
}

#[test]
fn unlock_of_free_mutex_is_refused() {
    let mut m = MyMutex::new();
    assert_eq!(m.unlock(0), Err(MutexError::NotOwner));
    assert!(!m.is_locked());
    assert_eq!(MutexError::NotOwner.message(), "current thread is not the owner of this mutex");
}

#[test]
fn destroy_twice_leaves_mutex_free() {
    let mut m = MyMutex::new();
    assert!(m.try_lock(4));
    m.destroy();
    assert!(!m.is_locked());
    assert_eq!(m.owner(), None);
    my_mutex_destroy(&mut m);
    assert!(!m.is_locked());
    assert_eq!(m.owner(), None);
    assert!(m.try_lock(5));
    assert_eq!(m.owner(), Some(5));
}

#[test]
fn lock_acquires_free_mutex_without_yielding() {
    let mut t: ThreadTable<u32> = ThreadTable::new();
    let a = my_thread_create(&mut t, 1, SchedulerType::RoundRobin).unwrap();
    my_thread_create(&mut t, 2, SchedulerType::RoundRobin).unwrap();
    set_current_thread_id(&mut t, a);
    let mut m = MyMutex::new();
    assert!(m.lock(a, &mut t));
    assert_eq!(m.owner(), Some(a));
    assert_eq!(t.current, Some(a));
}

#[test]
fn lock_on_held_mutex_yields() {
    let mut t: ThreadTable<u32> = ThreadTable::new();
    let a = my_thread_create(&mut t, 1, SchedulerType::RoundRobin).unwrap();
    let b = my_thread_create(&mut t, 2, SchedulerType::RoundRobin).unwrap();
    t.threads[a].state = ThreadState::Running;
    set_current_thread_id(&mut t, a);
    let mut m = MyMutex::new();
    assert!(m.try_lock(b));
    assert!(!my_mutex_lock(&mut m, a, &mut t));
    assert_eq!(m.owner(), Some(b));
    assert_eq!(t.current, Some(b));
    assert_eq!(t.threads[a].state, ThreadState::Ready);
    assert_eq!(m.unlock(b), Ok(()));
    assert!(my_mutex_lock(&mut m, a, &mut t));
    assert_eq!(m.owner(), Some(a));
}
