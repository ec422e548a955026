use nos_autoclicker::engine::scheduler::tick_duration;
use std::time::Duration;

#[test]
fn test_tick_duration_without_jitter() {
    assert_eq!(tick_duration(10, 0), Duration::from_millis(100));
    assert_eq!(tick_duration(3, 0), Duration::from_millis(333));
}

#[test]
fn test_tick_duration_with_jitter_bounds() {
    for _ in 0..200 {
        let d = tick_duration(10, 30);
        assert!(d >= Duration::from_millis(70) && d <= Duration::from_millis(130));
    }
}
