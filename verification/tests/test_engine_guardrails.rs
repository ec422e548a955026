use nos_autoclicker::domain::errors::EngineError;
use nos_autoclicker::domain::profile::ClickProfile;
use nos_autoclicker::domain::session::RunSession;
use nos_autoclicker::domain::settings::{PositionMode, RunState, ScopeMode, StopReason};
use nos_autoclicker::engine::click_engine::{ClickEngine, ClickLoopStep};
use nos_autoclicker::engine::conditions::{ActivationCondition, PositionSample};
use nos_autoclicker::engine::scheduler::{apply_jitter, jitter_offset_bound};
use nos_autoclicker::infra::input_driver::{plan_click, ClickPlan};

#[test]
fn test_start_refused_during_cooldown() {
    let mut engine = ClickEngine::new();
    let mut profile = ClickProfile::new("Cooldown".to_string());
    profile.cooldown_enabled = true;
    profile.cooldown_seconds = Some(60);
    engine.start(&profile).unwrap();
    engine.stop().unwrap();
    assert!(engine.last_run_end.is_some());
    let before = engine.session.as_ref().unwrap().session_id.clone();
    match engine.start(&profile) {
        Err(EngineError::CooldownActive { remaining_secs }) => {
            assert!(remaining_secs > 0 && remaining_secs <= 60);
        }
        other => panic!("expected a cooldown refusal, got {:?}", other),
    }
    assert!(!engine.is_running());
    assert_eq!(engine.session.as_ref().unwrap().session_id, before);
    assert_eq!(engine.events.last().unwrap().event_type, "cooldown_blocked");
}

#[test]
fn test_start_after_exact_cooldown_values() {
    let mut engine = ClickEngine::new();
    let mut profile = ClickProfile::new("Cooldown".to_string());
    profile.cooldown_enabled = true;
    profile.cooldown_seconds = Some(30);
    let r = engine.start_after(&profile, Some(12));
    assert_eq!(
        r.unwrap_err().message(),
        "Cooldown active, 18s remaining".to_string()
    );
    assert_eq!(engine.events.last().unwrap().message, "Cooldown active, 18s remaining");
    assert!(engine.start_after(&profile, Some(30)).is_ok());
    engine.stop().unwrap();
    // No run has ended before: nothing blocks.
    let mut fresh = ClickEngine::new();
    assert!(fresh.start_after(&profile, None).is_ok());
    // Cooldown disabled: nothing blocks.
    let mut other = ClickEngine::new();
    profile.cooldown_enabled = false;
    assert!(other.start_after(&profile, Some(0)).is_ok());
}

#[test]
fn test_stationary_start_waits_for_condition() {
    let mut engine = ClickEngine::new();
    let mut profile = ClickProfile::new("Stationary".to_string());
    profile.stationary_start_enabled = true;
    profile.stationary_seconds = Some(2);
    engine.start(&profile).unwrap();
    assert_eq!(engine.current_state(), RunState::WaitingCondition);
    let n = engine.events.len();
    assert_eq!(engine.events[n - 2].event_type, "run_started");
    assert_eq!(engine.events[n - 1].message, "Waiting for condition: mouse stationary");
    assert_eq!(engine.poll_click_loop(0), ClickLoopStep::Wait);

    // Movement restarts the wait.
    let a = PositionSample { x: 1, y: 1 };
    let b = PositionSample { x: 2, y: 2 };
    assert!(!engine.feed_stationary(a, 100));
    for _ in 0..15 {
        assert!(!engine.feed_stationary(a, 100));
    }
    assert!(!engine.feed_stationary(b, 100));
    for _ in 0..19 {
        assert!(!engine.feed_stationary(b, 100));
    }
    assert_eq!(engine.poll_click_loop(0), ClickLoopStep::Wait);
    assert_eq!(engine.session.as_ref().unwrap().total_clicks, 0);
    // Two continuous seconds at one position start the clicking.
    assert!(engine.feed_stationary(b, 100));
    assert_eq!(engine.current_state(), RunState::Running);
    assert!(engine.condition.is_none());
    assert_eq!(engine.events.last().unwrap().message, "Condition satisfied: mouse stationary");
    assert_eq!(engine.poll_click_loop(0), ClickLoopStep::Click);
    assert!(!engine.feed_stationary(b, 100));
}

#[test]
fn test_stop_while_waiting() {
    let mut engine = ClickEngine::new();
    let mut profile = ClickProfile::new("Stationary".to_string());
    profile.stationary_start_enabled = true;
    profile.stationary_seconds = Some(5);
    engine.start(&profile).unwrap();
    engine.stop().unwrap();
    let session = engine.session.as_ref().unwrap();
    assert_eq!(session.state, RunState::Stopped);
    assert_eq!(session.stop_reason, Some(StopReason::ManualStop));
}

#[test]
fn test_panic_while_waiting() {
    let mut engine = ClickEngine::new();
    let mut profile = ClickProfile::new("Stationary".to_string());
    profile.stationary_start_enabled = true;
    profile.stationary_seconds = Some(5);
    engine.start(&profile).unwrap();
    engine.panic_stop().unwrap();
    assert_eq!(engine.poll_click_loop(0), ClickLoopStep::Exit);
    assert_eq!(engine.session.as_ref().unwrap().stop_reason, Some(StopReason::PanicStop));
}

#[test]
fn test_max_session_stops_run() {
    let mut engine = ClickEngine::new();
    let mut profile = ClickProfile::new("Max".to_string());
    profile.max_session_enabled = true;
    profile.max_session_seconds = Some(5);
    engine.start(&profile).unwrap();
    assert_eq!(engine.poll_click_loop(4), ClickLoopStep::Click);
    assert_eq!(engine.poll_click_loop(5), ClickLoopStep::Exit);
    assert!(!engine.is_running());
    let session = engine.session.as_ref().unwrap();
    assert_eq!(session.state, RunState::Stopped);
    assert_eq!(session.stop_reason, Some(StopReason::MaxSessionReached));
    let last = engine.events.last().unwrap();
    assert_eq!(last.event_type, "max_session_reached");
    assert_eq!(last.message, "Max session duration reached: 5s");
}

#[test]
fn test_stop_after_checked_before_max_session() {
    let mut engine = ClickEngine::new();
    let mut profile = ClickProfile::new("Both".to_string());
    profile.max_session_enabled = true;
    profile.max_session_seconds = Some(5);
    profile.stop_after_enabled = true;
    profile.stop_after_seconds = Some(5);
    engine.start(&profile).unwrap();
    assert_eq!(engine.poll_click_loop(5), ClickLoopStep::Exit);
    assert_eq!(engine.session.as_ref().unwrap().stop_reason, Some(StopReason::TimedStop));
}

#[test]
fn test_focus_loss_pauses_and_resumes() {
    let mut engine = ClickEngine::new();
    let profile = ClickProfile::new("Focus".to_string());
    engine.start(&profile).unwrap();
    engine.observe_focus(false);
    assert_eq!(engine.current_state(), RunState::WaitingCondition);
    assert_eq!(engine.events.last().unwrap().event_type, "focus_lost");
    assert_eq!(engine.poll_click_loop(0), ClickLoopStep::Wait);
    engine.observe_focus(false);
    assert_eq!(engine.events.last().unwrap().event_type, "focus_lost");
    engine.observe_focus(true);
    assert_eq!(engine.current_state(), RunState::Running);
    assert_eq!(engine.events.last().unwrap().event_type, "focus_regained");
    assert_eq!(engine.poll_click_loop(0), ClickLoopStep::Click);
}

#[test]
fn test_global_scope_ignores_focus() {
    let mut engine = ClickEngine::new();
    let mut profile = ClickProfile::new("Global".to_string());
    profile.scope_mode = ScopeMode::Global;
    engine.start(&profile).unwrap();
    let n = engine.events.len();
    engine.observe_focus(false);
    assert_eq!(engine.current_state(), RunState::Running);
    assert_eq!(engine.events.len(), n);
}

#[test]
fn test_set_error_records_interruption() {
    let mut s = RunSession::new("p1".to_string(), 10, ScopeMode::FocusedOnly);
    s.transition_to(RunState::Running).unwrap();
    assert!(s.set_error("unexpected_crash".to_string()).is_ok());
    assert_eq!(s.state, RunState::Error);
    assert_eq!(s.stop_reason, Some(StopReason::Interruption));

    let mut t = RunSession::new("p1".to_string(), 10, ScopeMode::FocusedOnly);
    t.transition_to(RunState::Running).unwrap();
    t.stop(StopReason::TimedStop).unwrap();
    t.set_error("late".to_string()).unwrap();
    assert_eq!(t.stop_reason, Some(StopReason::TimedStop));
}

#[test]
fn test_click_plan() {
    assert_eq!(
        plan_click(ScopeMode::FocusedOnly, false, PositionMode::Fixed, Some(1), Some(2)),
        ClickPlan::Skip
    );
    assert_eq!(
        plan_click(ScopeMode::Global, false, PositionMode::Fixed, Some(1), Some(2)),
        ClickPlan::MoveThenClick { x: 1, y: 2 }
    );
    assert_eq!(
        plan_click(ScopeMode::FocusedOnly, true, PositionMode::Fixed, None, Some(2)),
        ClickPlan::ClickAtCursor
    );
    assert_eq!(
        plan_click(ScopeMode::FocusedOnly, true, PositionMode::Cursor, Some(1), Some(2)),
        ClickPlan::ClickAtCursor
    );
}

#[test]
fn test_jitter_offset_bound_and_range() {
    assert_eq!(jitter_offset_bound(100, 10), 1000);
    assert_eq!(jitter_offset_bound(100, 0), 0);
    for _ in 0..200 {
        let r = apply_jitter(100, 10);
        assert!((90..=110).contains(&r));
    }
}

#[test]
fn test_eligible_exactly_at_threshold() {
    let mut c = ActivationCondition::new(1);
    let p = PositionSample { x: 3, y: 4 };
    c.feed_position(p, 0);
    c.feed_position(p, 999);
    assert!(!c.is_eligible());
    assert_eq!(c.observed_stationary_ms(), 999);
    c.feed_position(p, 1);
    assert!(c.is_eligible());
    assert_eq!(c.observed_stationary_ms(), 1000);
}

#[test]
fn test_waiting_to_stopped_refused_on_session() {
    let mut s = RunSession::new("p1".to_string(), 10, ScopeMode::FocusedOnly);
    s.transition_to(RunState::WaitingCondition).unwrap();
    assert_eq!(
        s.transition_to(RunState::Stopped),
        Err("Invalid state transition: WaitingCondition -> Stopped".to_string())
    );
    assert_eq!(s.state, RunState::WaitingCondition);
    assert!(s.stop(StopReason::ManualStop).is_err());
    assert_eq!(s.state, RunState::WaitingCondition);
}

#[test]
fn test_run_counts_only_performed_clicks() {
    let mut engine = ClickEngine::new();
    let profile = ClickProfile::new("Count".to_string());
    engine.start(&profile).unwrap();
    let outcomes = [true, false, true, true, false, true];
    for (i, clicked) in outcomes.iter().enumerate() {
        assert_eq!(engine.poll_click_loop(i as u64), ClickLoopStep::Click);
        engine.observe_focus(true);
        engine.record_click_result(*clicked);
    }
    engine.stop().unwrap();
    assert_eq!(engine.session.as_ref().unwrap().total_clicks, 4);
}
