use proyecto1::mypthreads::{
    my_thread_create, my_thread_set_deadline_ms, my_thread_set_tickets, with_threads_mut,
    SchedulerType, ThreadState, ThreadTable,
};
use proyecto1::scheduler::{
    any_deadline_missed, collect_candidates, pick_lottery, pick_realtime, pick_round_robin,
    plant_exploded, reset_deadline_flag, scheduler_add, scheduler_next, sweep_deadlines_and_flag,
    total_weight,
};

#[test]
fn realtime_earliest_deadline_wins() {
    let mut t: ThreadTable<u32> = ThreadTable::new();
    let late = my_thread_create(&mut t, 1, SchedulerType::RealTime).unwrap();
    let early = my_thread_create(&mut t, 2, SchedulerType::RealTime).unwrap();
    my_thread_set_deadline_ms(&mut t, late, Some(200)).unwrap();
    my_thread_set_deadline_ms(&mut t, early, Some(100)).unwrap();
    assert_eq!(scheduler_next(&mut t), Some(early));
}

#[test]
fn realtime_equal_deadlines_prefer_first_created() {
    let mut t: ThreadTable<u32> = ThreadTable::new();
    let t_a = my_thread_create(&mut t, 1, SchedulerType::RealTime).unwrap();
    let t_b = my_thread_create(&mut t, 2, SchedulerType::RealTime).unwrap();
    my_thread_set_deadline_ms(&mut t, t_a, Some(5000)).unwrap();
    my_thread_set_deadline_ms(&mut t, t_b, Some(5000)).unwrap();
    assert_eq!(scheduler_next(&mut t), Some(t_a));
}

#[test]
fn lottery_follows_ticket_weights() {
    let mut t: ThreadTable<u32> = ThreadTable::with_seed(7);
    let light = my_thread_create(&mut t, 1, SchedulerType::Lottery).unwrap();
    let heavy = my_thread_create(&mut t, 2, SchedulerType::Lottery).unwrap();
    my_thread_set_tickets(&mut t, light, 1).unwrap();
    my_thread_set_tickets(&mut t, heavy, 5).unwrap();
    let mut heavy_count = 0;
    let mut light_count = 0;
    for _ in 0..1000 {
        match scheduler_next(&mut t) {
            Some(id) if id == heavy => heavy_count += 1,
            Some(id) if id == light => light_count += 1,
            other => panic!("unexpected pick {:?}", other),
        }
    }
    assert_eq!(heavy_count + light_count, 1000);
    assert!((700..=950).contains(&heavy_count), "heavy picked {} times", heavy_count);
}

#[test]
fn lottery_beats_round_robin() {
    let mut t: ThreadTable<u32> = ThreadTable::with_seed(1);
    my_thread_create(&mut t, 1, SchedulerType::RoundRobin).unwrap();
    let lot = my_thread_create(&mut t, 2, SchedulerType::Lottery).unwrap();
    for _ in 0..20 {
        assert_eq!(scheduler_next(&mut t), Some(lot));
    }
}

#[test]
fn lottery_zero_tickets_count_as_one() {
    let mut t: ThreadTable<u32> = ThreadTable::with_seed(3);
    let lot = my_thread_create(&mut t, 1, SchedulerType::Lottery).unwrap();
    with_threads_mut(&mut t, |v| v[lot].tickets = 0);
    let (_, cands, _) = collect_candidates(&t.threads);
    assert_eq!(cands, vec![(lot, 1)]);
    assert_eq!(scheduler_next(&mut t), Some(lot));
}

#[test]
fn round_robin_rotates() {
    let mut t: ThreadTable<u32> = ThreadTable::new();
    let t1 = my_thread_create(&mut t, 1, SchedulerType::RoundRobin).unwrap();
    let t2 = my_thread_create(&mut t, 2, SchedulerType::RoundRobin).unwrap();
    let t3 = my_thread_create(&mut t, 3, SchedulerType::RoundRobin).unwrap();
    assert_eq!(scheduler_next(&mut t), Some(t1));
    assert_eq!(scheduler_next(&mut t), Some(t2));
    assert_eq!(scheduler_next(&mut t), Some(t3));
    assert_eq!(scheduler_next(&mut t), Some(t1));
}

#[test]
fn realtime_without_deadline_joins_round_robin() {
    let mut t: ThreadTable<u32> = ThreadTable::new();
    let rr = my_thread_create(&mut t, 1, SchedulerType::RoundRobin).unwrap();
    let rt = my_thread_create(&mut t, 2, SchedulerType::RealTime).unwrap();
    let (rts, lots, rrs) = collect_candidates(&t.threads);
    assert!(rts.is_empty());
    assert!(lots.is_empty());
    assert_eq!(rrs, vec![rr, rt]);
    assert_eq!(scheduler_next(&mut t), Some(rr));
    assert_eq!(scheduler_next(&mut t), Some(rt));
}

#[test]
fn scheduler_skips_threads_that_are_not_ready() {
    let mut t: ThreadTable<u32> = ThreadTable::with_seed(11);
    let a = my_thread_create(&mut t, 1, SchedulerType::RealTime).unwrap();
    let b = my_thread_create(&mut t, 2, SchedulerType::Lottery).unwrap();
    let c = my_thread_create(&mut t, 3, SchedulerType::RoundRobin).unwrap();
    let d = my_thread_create(&mut t, 4, SchedulerType::RoundRobin).unwrap();
    my_thread_set_deadline_ms(&mut t, a, Some(u64::MAX)).unwrap();
    with_threads_mut(&mut t, |v| {
        v[a].state = ThreadState::Blocked;
        v[b].state = ThreadState::Finished;
        v[c].state = ThreadState::Running;
    });
    for _ in 0..5 {
        assert_eq!(scheduler_next(&mut t), Some(d));
    }
    with_threads_mut(&mut t, |v| v[d].state = ThreadState::Blocked);
    assert_eq!(scheduler_next(&mut t), None);
}

#[test]
fn empty_table_has_no_next() {
    let mut t: ThreadTable<u32> = ThreadTable::new();
    assert_eq!(scheduler_next(&mut t), None);
}

#[test]
fn pick_realtime_values() {
    assert_eq!(pick_realtime(&vec![]), None);
    assert_eq!(pick_realtime(&vec![(4, 30), (2, 10), (9, 10), (1, 20)]), Some(2));
    assert_eq!(pick_realtime(&vec![(7, 5)]), Some(7));
}

#[test]
fn pick_lottery_values() {
    let c = vec![(10, 1), (20, 5), (30, 2)];
    assert_eq!(total_weight(&c), 8);
    assert_eq!(pick_lottery(&c, 0), Some(10));
    assert_eq!(pick_lottery(&c, 1), Some(20));
    assert_eq!(pick_lottery(&c, 5), Some(20));
    assert_eq!(pick_lottery(&c, 6), Some(30));
    assert_eq!(pick_lottery(&c, 7), Some(30));
    assert_eq!(pick_lottery(&c, 8), None);
    assert_eq!(pick_lottery(&vec![], 0), None);
    assert_eq!(total_weight(&vec![]), 0);
    assert_eq!(total_weight(&vec![(0, u32::MAX), (1, u32::MAX)]), 2 * (u32::MAX as u128));
}

#[test]
fn pick_round_robin_values() {
    let mut cursor: usize = 0;
    assert_eq!(pick_round_robin(&vec![], &mut cursor), None);
    assert_eq!(cursor, 0);
    let c = vec![3, 5, 8];
    assert_eq!(pick_round_robin(&c, &mut cursor), Some(3));
    assert_eq!(cursor, 1);
    cursor = 2;
    assert_eq!(pick_round_robin(&c, &mut cursor), Some(8));
    assert_eq!(cursor, 0);
    cursor = 10;
    assert_eq!(pick_round_robin(&c, &mut cursor), Some(3));
    assert_eq!(cursor, 1);
}

#[test]
fn deadline_monitor_latches() {
    let mut t: ThreadTable<u32> = ThreadTable::new();
    let a = my_thread_create(&mut t, 1, SchedulerType::RealTime).unwrap();
    my_thread_set_deadline_ms(&mut t, a, Some(100)).unwrap();
    assert!(!any_deadline_missed(&t.threads, 99));
    assert!(any_deadline_missed(&t.threads, 100));
    sweep_deadlines_and_flag(&mut t, 50);
    assert!(!plant_exploded(&t));
    sweep_deadlines_and_flag(&mut t, 150);
    assert!(plant_exploded(&t));
    // the flag stays set even when no deadline is missed any more
    my_thread_set_deadline_ms(&mut t, a, None).unwrap();
    sweep_deadlines_and_flag(&mut t, 150);
    assert!(plant_exploded(&t));
    reset_deadline_flag(&mut t);
    assert!(!plant_exploded(&t));
}

#[test]
fn deadline_monitor_ignores_finished_and_other_policies() {
    let mut t: ThreadTable<u32> = ThreadTable::new();
    let a = my_thread_create(&mut t, 1, SchedulerType::RealTime).unwrap();
    let b = my_thread_create(&mut t, 2, SchedulerType::Lottery).unwrap();
    my_thread_set_deadline_ms(&mut t, a, Some(0)).unwrap();
    my_thread_set_deadline_ms(&mut t, b, Some(0)).unwrap();
    with_threads_mut(&mut t, |v| v[a].state = ThreadState::Finished);
    assert!(!any_deadline_missed(&t.threads, 1000));
    // a Blocked real-time thread still counts
    with_threads_mut(&mut t, |v| v[a].state = ThreadState::Blocked);
    assert!(any_deadline_missed(&t.threads, 1000));
}

#[test]
fn scheduler_next_runs_deadline_monitor() {
    let mut t: ThreadTable<u32> = ThreadTable::new();
    let a = my_thread_create(&mut t, 1, SchedulerType::RealTime).unwrap();
    my_thread_set_deadline_ms(&mut t, a, Some(0)).unwrap();
    assert!(!plant_exploded(&t));
    assert_eq!(scheduler_next(&mut t), Some(a));
    assert!(plant_exploded(&t));
}

#[test]
fn seeded_draws_stay_below_bound() {
    let mut t: ThreadTable<u32> = ThreadTable::with_seed(5);
    let mut seen_nonzero = false;
    for _ in 0..200 {
        let d = t.sched.draw_below(3);
        assert!(d < 3);
        if d != 0 {
            seen_nonzero = true;
        }
    }
    assert!(seen_nonzero);
    let mut u: ThreadTable<u32> = ThreadTable::new();
    for _ in 0..200 {
        assert!(u.sched.draw_below(2) < 2);
    }
}

#[test]
fn scheduler_add_appends_to_run_queue() {
    let mut t: ThreadTable<u32> = ThreadTable::new();
    scheduler_add(&mut t, 4);
    scheduler_add(&mut t, 2);
    assert_eq!(t.run_queue, vec![4, 2]);
}
