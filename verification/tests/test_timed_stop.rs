use nos_autoclicker::domain::profile::ClickProfile;
use nos_autoclicker::domain::settings::{TIMER_MAX_SECONDS, TIMER_MIN_SECONDS};

#[test]
fn test_stop_after_bounds_min() {
    let mut profile = ClickProfile::new("Bounds Min".into());
    profile.stop_after_enabled = true;
    profile.stop_after_seconds = Some(TIMER_MIN_SECONDS);
    assert!(profile.validate().is_ok());
}

#[test]
fn test_stop_after_bounds_max() {
    let mut profile = ClickProfile::new("Bounds Max".into());
    profile.stop_after_enabled = true;
    profile.stop_after_seconds = Some(TIMER_MAX_SECONDS);
    assert!(profile.validate().is_ok());
}

#[test]
fn test_stop_after_below_min_rejected() {
    let mut profile = ClickProfile::new("Below Min".into());
    profile.stop_after_enabled = true;
    profile.stop_after_seconds = Some(0);
    assert!(profile.validate().is_err());
}

#[test]
fn test_stop_after_above_max_rejected() {
    let mut profile = ClickProfile::new("Above Max".into());
    profile.stop_after_enabled = true;
    profile.stop_after_seconds = Some(TIMER_MAX_SECONDS + 1);
    assert!(profile.validate().is_err());
}
use nos_autoclicker::domain::settings::{RunState, StopReason};
use nos_autoclicker::engine::click_engine::{ClickEngine, ClickLoopStep};
use nos_autoclicker::engine::scheduler::cps_to_interval_ms;

/// Runs the click loop against a simulated clock for at most `wait_ms`
/// milliseconds; returns the simulated time at which it left the loop (or
/// the time reached) and the number of clicks performed.
fn drive_loop(engine: &mut ClickEngine, profile: &ClickProfile, wait_ms: u64) -> (u64, u64) {
    let tick = cps_to_interval_ms(profile.cps);
    let mut t = 0u64;
    let mut clicks = 0u64;
    while t < wait_ms {
        let step = engine.poll_click_loop(t / 1000);
        if step == ClickLoopStep::Exit {
            break;
        }
        clicks += 1;
        engine.record_click_result(true);
        t += tick;
    }
    (t, clicks)
}

#[test]
fn test_timed_stop_triggers_at_duration() {
    let mut engine = ClickEngine::new();

    let mut profile = ClickProfile::new("Timed Stop Test".into());
    profile.cps = 10;
    profile.stop_after_enabled = true;
    profile.stop_after_seconds = Some(1); // Stop after 1 second

    engine.start(&profile).unwrap();

    // Run the loop until the timed stop triggers
    let (_, clicks) = drive_loop(&mut engine, &profile, 1500);
    assert!(clicks > 0);

    assert!(
        !engine.is_running(),
        "Engine should have auto-stopped after timed duration"
    );

    // Verify stop reason is timed_stop
    let session = engine.session.as_ref().expect("Session should exist");
    assert_eq!(session.state, RunState::Stopped);
    assert_eq!(session.stop_reason, Some(StopReason::TimedStop));
    assert_eq!(session.total_clicks, clicks);
}

#[test]
fn test_timed_stop_reason_is_timed_stop() {
    let mut engine = ClickEngine::new();

    let mut profile = ClickProfile::new("Reason Test".into());
    profile.cps = 5;
    profile.stop_after_enabled = true;
    profile.stop_after_seconds = Some(1);

    engine.start(&profile).unwrap();
    drive_loop(&mut engine, &profile, 1500);

    let events = engine.recent_events(100);
    let has_timed_stop_event = events.iter().any(|e| e.event_type == "timed_stop");
    assert!(
        has_timed_stop_event,
        "Should have emitted a timed_stop event"
    );
}

#[test]
fn test_no_stop_when_timer_disabled() {
    let mut engine = ClickEngine::new();

    let mut profile = ClickProfile::new("No Timer".into());
    profile.cps = 10;
    profile.stop_after_enabled = false;
    profile.stop_after_seconds = None;

    engine.start(&profile).unwrap();
    drive_loop(&mut engine, &profile, 500);

    assert!(
        engine.is_running(),
        "Engine should still be running when timed stop is disabled"
    );

    engine.stop().unwrap();
}

#[test]
fn test_timed_stop_duration_approximately_correct() {
    let mut engine = ClickEngine::new();

    let mut profile = ClickProfile::new("Duration Accuracy".into());
    profile.cps = 20;
    profile.stop_after_enabled = true;
    profile.stop_after_seconds = Some(2);

    engine.start(&profile).unwrap();

    // Run until the timed stop
    let (elapsed_ms, _) = drive_loop(&mut engine, &profile, 2500);

    assert!(
        !engine.is_running(),
        "Engine should have stopped"
    );
    assert!(
        elapsed_ms >= 2000,
        "Should have run for at least 2 seconds"
    );
    assert!(
        elapsed_ms < 3000,
        "Should not run much longer than configured duration"
    );
}
