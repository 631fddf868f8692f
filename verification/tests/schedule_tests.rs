use influx_export::schedule::next_trigger_secs;

// 12:00:05 -> 12:01:30.
#[test]
fn trigger_mid_minute() {
    let now: u64 = 12 * 3600 + 5;
    assert_eq!(next_trigger_secs(now), 12 * 3600 + 60 + 30);
}

// Exactly on a trigger instant, 12:01:30 -> 12:02:30.
#[test]
fn trigger_on_trigger_instant() {
    let now: u64 = 12 * 3600 + 60 + 30;
    assert_eq!(next_trigger_secs(now), 12 * 3600 + 120 + 30);
}

// The trigger is always strictly in the future, at second thirty.
#[test]
fn trigger_strictly_future() {
    for now in [0u64, 1, 29, 30, 31, 59, 60, 89, 90, 91, 3599, 86_399] {
        let next = next_trigger_secs(now);
        assert!(next > now);
        assert_eq!(next % 60, 30);
        assert!(next <= now + 120);
    }
}

// Start of a minute, 00:00:00 -> 00:01:30.
#[test]
fn trigger_from_midnight() {
    assert_eq!(next_trigger_secs(0), 90);
}
