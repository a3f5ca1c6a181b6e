use ngx::timer::{TimerEntry, TimerSet, TIMER_LAZY_DELAY};

#[test]
fn expired_timers_come_out_in_deadline_order() {
    let mut t = TimerSet::new();
    t.add_timer(1, 0, 5000);
    t.add_timer(2, 0, 1000);
    t.add_timer(3, 0, 3000);
    t.add_timer(4, 0, 9000);
    assert_eq!(t.pop_expired(5000), vec![2, 3, 1]);
    assert_eq!(t.len(), 1);
    assert_eq!(t.peek_earliest(), Some(TimerEntry { handle: 4, deadline: 9000 }));
}

#[test]
fn equal_deadlines_fire_in_arming_order() {
    let mut t = TimerSet::new();
    t.add_timer(7, 100, 50);
    t.add_timer(3, 120, 30);
    t.add_timer(5, 0, 150);
    assert_eq!(t.pop_expired(150), vec![7, 3, 5]);
}

#[test]
fn rearm_within_lazy_delay_keeps_deadline() {
    let mut t = TimerSet::new();
    t.add_timer(1, 1000, 500);
    t.add_timer(1, 1000, 500 + TIMER_LAZY_DELAY - 1);
    assert_eq!(t.peek_earliest(), Some(TimerEntry { handle: 1, deadline: 1500 }));
    t.add_timer(1, 1000, 300);
    assert_eq!(t.peek_earliest(), Some(TimerEntry { handle: 1, deadline: 1500 }));
    assert_eq!(t.len(), 1);
}

#[test]
fn rearm_outside_lazy_delay_moves_timer() {
    let mut t = TimerSet::new();
    t.add_timer(1, 1000, 500);
    t.add_timer(2, 1000, 700);
    t.add_timer(1, 1000, 500 + TIMER_LAZY_DELAY);
    assert_eq!(t.deadline(1), Some(1800));
    assert_eq!(t.peek_earliest(), Some(TimerEntry { handle: 2, deadline: 1700 }));
    assert_eq!(t.len(), 2);
}

#[test]
fn cancelled_timer_never_fires() {
    let mut t = TimerSet::new();
    t.add_timer(1, 0, 10);
    t.add_timer(2, 0, 20);
    t.del_timer(1);
    t.del_timer(9);
    assert_eq!(t.deadline(1), None);
    let fired = t.pop_expired(u64::MAX);
    assert!(!fired.contains(&1));
    assert_eq!(fired, vec![2]);
}

#[test]
fn empty_timer_set_pops_nothing() {
    let mut t = TimerSet::new();
    assert!(t.is_empty());
    assert_eq!(t.peek_earliest(), None);
    assert_eq!(t.pop_expired(u64::MAX), Vec::<usize>::new());
    assert!(t.is_empty());
}

#[test]
fn pop_expired_leaves_later_timers() {
    let mut t = TimerSet::new();
    t.add_timer(1, 0, 100);
    t.add_timer(2, 0, 200);
    assert_eq!(t.pop_expired(99), Vec::<usize>::new());
    assert_eq!(t.pop_expired(100), vec![1]);
    assert_eq!(t.pop_expired(1000), vec![2]);
}

#[test]
fn deadline_past_the_largest_time_saturates() {
    let mut t = TimerSet::new();
    t.add_timer(1, u64::MAX - 5, 100);
    assert_eq!(t.deadline(1), Some(u64::MAX));
    assert_eq!(t.pop_expired(u64::MAX), vec![1]);
}

#[test]
fn zero_delay_fires_on_next_pass() {
    let mut t = TimerSet::new();
    t.add_timer(4, 500, 0);
    assert_eq!(t.pop_expired(500), vec![4]);
}
