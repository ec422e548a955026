use nos_autoclicker::domain::errors::EngineError;
use nos_autoclicker::domain::profile::ClickProfile;
use nos_autoclicker::domain::settings::{RunState, StopReason};
use nos_autoclicker::engine::click_engine::{ClickEngine, ClickLoopStep, EVENT_LOG_CAPACITY};
use nos_autoclicker::domain::events::EventRecord;

#[test]
fn test_engine_starts_idle() {
    let engine = ClickEngine::new();
    assert!(!engine.is_running());
    assert_eq!(engine.current_state(), RunState::Idle);
    assert!(engine.session.is_none());
    assert!(engine.events.is_empty());
}

#[test]
fn test_engine_start_creates_running_session() {
    let mut engine = ClickEngine::new();
    let mut profile = ClickProfile::new("Engine".to_string());
    profile.cps = 20;
    engine.start(&profile).unwrap();
    assert!(engine.is_running());
    assert_eq!(engine.current_state(), RunState::Running);
    let session = engine.session.as_ref().unwrap();
    assert_eq!(session.effective_cps, 20);
    assert_eq!(session.profile_id, profile.id);
    assert_eq!(session.total_clicks, 0);
    let last = engine.events.last().unwrap();
    assert_eq!(last.event_type, "run_started");
    assert_eq!(last.message, "Run started with CPS=20");
    assert_eq!(
        last.metadata,
        vec![
            ("profile_id".to_string(), profile.id.clone()),
            ("cps".to_string(), "20".to_string())
        ]
    );
}

#[test]
fn test_engine_start_rejects_invalid_profile() {
    let mut engine = ClickEngine::new();
    let mut profile = ClickProfile::new("Bad".to_string());
    profile.cps = 0;
    match engine.start(&profile) {
        Err(EngineError::Validation(e)) => {
            assert_eq!(e.message(), "Field 'cps' value 0 is out of range [1, 50]");
        }
        other => panic!("unexpected {:?}", other),
    }
    assert!(!engine.is_running());
    assert!(engine.session.is_none());
    assert!(engine.events.is_empty());
}

#[test]
fn test_engine_start_twice_is_already_running() {
    let mut engine = ClickEngine::new();
    let profile = ClickProfile::new("Twice".to_string());
    engine.start(&profile).unwrap();
    let err = engine.start(&profile).unwrap_err();
    assert!(matches!(err, EngineError::AlreadyRunning));
    assert_eq!(err.message(), "Engine is already running");
    assert_eq!(engine.events.len(), 1);
}

#[test]
fn test_engine_stop_when_idle_is_not_running() {
    let mut engine = ClickEngine::new();
    let err = engine.stop().unwrap_err();
    assert!(matches!(err, EngineError::NotRunning));
    assert_eq!(err.message(), "Engine is not running");
}

#[test]
fn test_engine_manual_stop() {
    let mut engine = ClickEngine::new();
    let profile = ClickProfile::new("Manual".to_string());
    engine.start(&profile).unwrap();
    engine.stop().unwrap();
    assert!(!engine.is_running());
    let session = engine.session.as_ref().unwrap();
    assert_eq!(session.state, RunState::Stopped);
    assert_eq!(session.stop_reason, Some(StopReason::ManualStop));
    assert!(session.ended_at.is_some());
    let last = engine.events.last().unwrap();
    assert_eq!(last.event_type, "run_stopped");
    assert_eq!(last.message, "Run stopped: manual_stop");
}

#[test]
fn test_engine_loop_clicks_and_counts() {
    let mut engine = ClickEngine::new();
    let profile = ClickProfile::new("Loop".to_string());
    engine.start(&profile).unwrap();
    for _ in 0..3 {
        assert_eq!(engine.poll_click_loop(0), ClickLoopStep::Click);
        engine.record_click_result(true);
    }
    engine.record_click_result(false);
    assert_eq!(engine.session.as_ref().unwrap().total_clicks, 3);
}

#[test]
fn test_engine_loop_timed_stop() {
    let mut engine = ClickEngine::new();
    let mut profile = ClickProfile::new("Timed".to_string());
    profile.stop_after_enabled = true;
    profile.stop_after_seconds = Some(2);
    engine.start(&profile).unwrap();
    assert_eq!(engine.poll_click_loop(1), ClickLoopStep::Click);
    assert_eq!(engine.poll_click_loop(2), ClickLoopStep::Exit);
    assert!(!engine.is_running());
    let session = engine.session.as_ref().unwrap();
    assert_eq!(session.state, RunState::Stopped);
    assert_eq!(session.stop_reason, Some(StopReason::TimedStop));
    let last = engine.events.last().unwrap();
    assert_eq!(last.event_type, "timed_stop");
    assert_eq!(last.message, "Auto-stopped after 2s");
    assert_eq!(engine.poll_click_loop(5), ClickLoopStep::Exit);
}

#[test]
fn test_engine_panic_overrides_timed_stop() {
    let mut engine = ClickEngine::new();
    let profile = ClickProfile::new("Panic".to_string());
    engine.start(&profile).unwrap();
    engine.panic_stop().unwrap();
    assert_eq!(engine.poll_click_loop(60), ClickLoopStep::Exit);
    assert!(!engine.is_running());
    let session = engine.session.as_ref().unwrap();
    assert_eq!(session.state, RunState::Stopped);
    assert_eq!(session.stop_reason, Some(StopReason::PanicStop));
    assert_eq!(engine.current_state(), RunState::Stopped);
    let events = engine.recent_events(100);
    assert!(events.iter().any(|e| e.event_type == "panic_stop"));
}

#[test]
fn test_engine_timer_disabled_keeps_running() {
    let mut engine = ClickEngine::new();
    let profile = ClickProfile::new("No Timer".to_string());
    engine.start(&profile).unwrap();
    assert_eq!(engine.poll_click_loop(10_000), ClickLoopStep::Click);
    assert!(engine.is_running());
}

#[test]
fn test_engine_restart_after_panic_clears_flag() {
    let mut engine = ClickEngine::new();
    let profile = ClickProfile::new("Restart".to_string());
    engine.panic_stop().unwrap();
    engine.start(&profile).unwrap();
    assert_eq!(engine.poll_click_loop(0), ClickLoopStep::Click);
}

#[test]
fn test_event_log_capped() {
    let mut engine = ClickEngine::new();
    for i in 0..(EVENT_LOG_CAPACITY + 5) {
        engine.push_event(EventRecord::engine_error(&format!("e{i}")));
    }
    assert_eq!(engine.events.len(), EVENT_LOG_CAPACITY);
    assert_eq!(engine.events[0].message, "e5");
    assert_eq!(engine.events.last().unwrap().message, format!("e{}", EVENT_LOG_CAPACITY + 4));
}

#[test]
fn test_recent_events_takes_newest() {
    let mut engine = ClickEngine::new();
    for i in 0..5 {
        engine.push_event(EventRecord::engine_error(&format!("e{i}")));
    }
    let recent = engine.recent_events(2);
    assert_eq!(recent.len(), 2);
    assert_eq!(recent[0].message, "e3");
    assert_eq!(recent[1].message, "e4");
    assert_eq!(engine.recent_events(50).len(), 5);
    assert!(engine.recent_events(0).is_empty());
}
