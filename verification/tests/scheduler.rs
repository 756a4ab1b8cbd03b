use img_optimizer::scheduler::{Dispatch, Scheduler, DEFAULT_CONCURRENCY};

#[test]
fn default_cap_is_ten() {
    assert_eq!(DEFAULT_CONCURRENCY, 10);
}

#[test]
fn no_scheduler_for_a_cap_of_zero() {
    assert!(Scheduler::new(5, 0).is_none());
    assert!(Scheduler::new(0, 0).is_none());
    assert!(Scheduler::new(0, 1).is_some());
}

#[test]
fn empty_batch_is_complete_at_once() {
    let mut scheduler = Scheduler::new(0, 3).expect("a scheduler");
    assert!(scheduler.is_complete());
    assert_eq!(scheduler.next(), Dispatch::Complete);
    assert!(!scheduler.record_finished());
}

#[test]
fn records_start_in_order_up_to_the_cap() {
    let mut scheduler = Scheduler::new(5, 2).expect("a scheduler");
    assert_eq!(scheduler.capacity(), 2);
    assert_eq!(scheduler.next(), Dispatch::Start(0));
    assert_eq!(scheduler.next(), Dispatch::Start(1));
    assert_eq!(scheduler.in_flight(), 2);
    assert_eq!(scheduler.next(), Dispatch::Wait);
    assert_eq!(scheduler.next(), Dispatch::Wait);
    assert_eq!(scheduler.in_flight(), 2);
    assert!(scheduler.record_finished());
    assert_eq!(scheduler.in_flight(), 1);
    assert_eq!(scheduler.next(), Dispatch::Start(2));
    assert_eq!(scheduler.next(), Dispatch::Wait);
}

#[test]
fn batch_is_complete_only_when_every_record_has_finished() {
    let mut scheduler = Scheduler::new(2, 5).expect("a scheduler");
    assert_eq!(scheduler.next(), Dispatch::Start(0));
    assert_eq!(scheduler.next(), Dispatch::Start(1));
    assert_eq!(scheduler.next(), Dispatch::Wait);
    assert!(scheduler.record_finished());
    assert!(!scheduler.is_complete());
    assert_eq!(scheduler.next(), Dispatch::Wait);
    assert!(scheduler.record_finished());
    assert!(scheduler.is_complete());
    assert_eq!(scheduler.finished(), 2);
    assert_eq!(scheduler.next(), Dispatch::Complete);
    assert_eq!(scheduler.next(), Dispatch::Complete);
}

#[test]
fn finish_without_a_record_in_flight_changes_nothing() {
    let mut scheduler = Scheduler::new(3, 2).expect("a scheduler");
    assert!(!scheduler.record_finished());
    assert_eq!(scheduler.finished(), 0);
    assert_eq!(scheduler.next(), Dispatch::Start(0));
    assert!(scheduler.record_finished());
    assert!(!scheduler.record_finished());
    assert_eq!(scheduler.finished(), 1);
}

#[test]
fn ten_slow_fetches_under_a_cap_of_three() {
    let mut scheduler = Scheduler::new(10, 3).expect("a scheduler");
    let mut started = Vec::new();
    let mut most = 0;
    let mut waits = 0;
    loop {
        match scheduler.next() {
            Dispatch::Start(index) => started.push(index),
            Dispatch::Wait => {
                // A slow fetch: nothing finishes before the scheduler has to wait.
                assert_eq!(scheduler.in_flight(), 3.min(10 - scheduler.finished()));
                assert!(scheduler.record_finished());
                waits += 1;
            }
            Dispatch::Complete => break,
        }
        assert!(scheduler.in_flight() <= 3);
        most = most.max(scheduler.in_flight());
    }
    assert_eq!(most, 3);
    assert_eq!(waits, 10);
    assert_eq!(started, (0..10).collect::<Vec<usize>>());
    assert!(scheduler.is_complete());
    assert_eq!(scheduler.in_flight(), 0);
}

#[test]
fn batch_in_rounds_takes_the_size_over_the_cap_rounded_up() {
    for (total, capacity, expected) in [(10, 3, 4), (9, 3, 3), (1, 10, 1), (0, 4, 0), (25, 10, 3)] {
        let mut scheduler = Scheduler::new(total, capacity).expect("a scheduler");
        let mut rounds = 0;
        loop {
            let mut any = false;
            while let Dispatch::Start(_) = scheduler.next() {
                any = true;
            }
            if !any {
                break;
            }
            rounds += 1;
            while scheduler.record_finished() {}
        }
        assert!(scheduler.is_complete());
        assert_eq!(rounds, expected, "{} records, cap {}", total, capacity);
    }
}
