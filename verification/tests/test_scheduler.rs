use nos_autoclicker::engine::scheduler::{apply_jitter, cps_to_interval_ms};

#[test]
fn test_cps_1_gives_1000ms() {
    assert_eq!(cps_to_interval_ms(1), 1000);
}

#[test]
fn test_cps_10_gives_100ms() {
    assert_eq!(cps_to_interval_ms(10), 100);
}

#[test]
fn test_cps_50_gives_20ms() {
    assert_eq!(cps_to_interval_ms(50), 20);
}

#[test]
fn test_cps_25_gives_40ms() {
    assert_eq!(cps_to_interval_ms(25), 40);
}

#[test]
fn test_cps_2_gives_500ms() {
    assert_eq!(cps_to_interval_ms(2), 500);
}

#[test]
fn test_jitter_zero_returns_exact_interval() {
    let interval = 100;
    let result = apply_jitter(interval, 0);
    assert_eq!(result, interval, "Zero jitter must return exact interval");
}

#[test]
fn test_scheduler_test_jitter_within_bounds() {
    let interval = 100u64;
    let jitter_percent = 10u32;
    // Run many iterations to probabilistically verify bounds
    for _ in 0..1000 {
        let result = apply_jitter(interval, jitter_percent);
        let min = interval - (interval * jitter_percent as u64 / 100);
        let max = interval + (interval * jitter_percent as u64 / 100);
        assert!(
            result >= min && result <= max,
            "Jitter result {result} outside [{min}, {max}]"
        );
    }
}

#[test]
fn test_jitter_max_30_percent() {
    let interval = 100u64;
    for _ in 0..1000 {
        let result = apply_jitter(interval, 30);
        assert!(result >= 70 && result <= 130, "30% jitter on 100ms: got {result}");
    }
}
