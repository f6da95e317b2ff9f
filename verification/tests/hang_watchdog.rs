use arcrelay_desktop::hang_watchdog::{hang_sample_file_name, HangWatchdog, CAPTURE_COOLDOWN_MS, HANG_THRESHOLD_MS};

#[test]
fn a_responsive_main_thread_is_never_sampled() {
    let mut watchdog = HangWatchdog::new();
    assert_eq!(watchdog.check(100_000, 99_000), None);
    assert_eq!(watchdog.check(100_000, 100_000 - HANG_THRESHOLD_MS + 1), None);
    assert_eq!(watchdog.last_capture_ms, 0);
}

#[test]
fn a_hung_main_thread_is_sampled_once_per_cooldown() {
    let mut watchdog = HangWatchdog::new();
    assert_eq!(watchdog.check(100_000, 94_000), Some(6_000));
    assert_eq!(watchdog.last_capture_ms, 100_000);
    assert_eq!(watchdog.check(101_000, 94_000), None);
    assert_eq!(watchdog.check(100_000 + CAPTURE_COOLDOWN_MS - 1, 94_000), None);
    assert_eq!(watchdog.check(100_000 + CAPTURE_COOLDOWN_MS, 94_000), Some(66_000));
}

#[test]
fn a_heartbeat_after_the_check_does_not_underflow() {
    let mut watchdog = HangWatchdog::new();
    assert_eq!(watchdog.check(70_000, 80_000), None);
}

#[test]
fn sample_files_are_named_by_process_and_time() {
    assert_eq!(hang_sample_file_name(4242, 1_700_000_000_123), "main-thread-hang-4242-1700000000123.sample.txt");
}
