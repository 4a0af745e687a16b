use systemd_fail_notifications::scheduler::continue_loop;
use systemd_fail_notifications::scheduler::sleep_before_next_ms;

#[test]
fn sleep_fills_the_interval_exactly() {
    assert_eq!(sleep_before_next_ms(2000, 500), 1500);
    assert_eq!(500 + sleep_before_next_ms(2000, 500), 2000);
    assert_eq!(sleep_before_next_ms(2000, 1999), 1);
    assert_eq!(sleep_before_next_ms(2000, 0), 2000);
}

#[test]
fn overrunning_iteration_sleeps_not_at_all() {
    assert_eq!(sleep_before_next_ms(2000, 2000), 0);
    assert_eq!(sleep_before_next_ms(2000, 3000), 0);
    assert_eq!(sleep_before_next_ms(0, 0), 0);
}

#[test]
fn loop_continues_until_termination_requested() {
    assert!(continue_loop(false));
    assert!(!continue_loop(true));
}
