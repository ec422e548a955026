use nos_autoclicker::domain::events::{EventLevel, EventRecord};

#[test]
fn test_event_constructors_text() {
    let e = EventRecord::run_stopped("manual_stop");
    assert_eq!(e.level, EventLevel::Info);
    assert_eq!(e.message, "Run stopped: manual_stop");
    assert_eq!(e.metadata, vec![("stop_reason".to_string(), "manual_stop".to_string())]);

    let e = EventRecord::timed_stop(300);
    assert_eq!(e.message, "Auto-stopped after 300s");
    assert_eq!(e.metadata, vec![("duration_seconds".to_string(), "300".to_string())]);

    let e = EventRecord::cooldown_blocked(7);
    assert_eq!(e.level, EventLevel::Warn);
    assert_eq!(e.event_type, "cooldown_blocked");
    assert_eq!(e.message, "Cooldown active, 7s remaining");

    let e = EventRecord::max_session_reached(120);
    assert_eq!(e.message, "Max session duration reached: 120s");

    let e = EventRecord::condition_waiting("stationary");
    assert_eq!(e.message, "Waiting for condition: stationary");
    let e = EventRecord::condition_met("stationary");
    assert_eq!(e.message, "Condition satisfied: stationary");
    let e = EventRecord::profile_created("A");
    assert_eq!(e.message, "Profile created: A");
    let e = EventRecord::profile_switched("B");
    assert_eq!(e.message, "Switched to profile: B");
    let e = EventRecord::profile_deleted("C");
    assert_eq!(e.message, "Profile deleted: C");
    let e = EventRecord::focus_lost();
    assert_eq!(e.message, "Target window lost focus — pausing clicks");
    let e = EventRecord::focus_regained();
    assert_eq!(e.message, "Target window regained focus — resuming clicks");
    let e = EventRecord::validation_error("bad");
    assert_eq!((e.level, e.event_type.as_str(), e.message.as_str()), (EventLevel::Error, "validation_error", "bad"));
    let e = EventRecord::engine_error("boom");
    assert_eq!((e.level, e.event_type.as_str()), (EventLevel::Error, "engine_error"));
    let e = EventRecord::panic_stop();
    assert_eq!((e.level, e.message.as_str()), (EventLevel::Warn, "Panic stop triggered"));
    assert!(e.metadata.is_empty());
}

#[test]
fn test_with_metadata_replaces_existing_key() {
    let e = EventRecord::new(EventLevel::Debug, "t".to_string(), "m".to_string())
        .with_metadata("a".to_string(), "1".to_string())
        .with_metadata("b".to_string(), "2".to_string())
        .with_metadata("a".to_string(), "3".to_string());
    assert_eq!(
        e.metadata,
        vec![("a".to_string(), "3".to_string()), ("b".to_string(), "2".to_string())]
    );
}

#[test]
fn test_copy_record_matches() {
    let e = EventRecord::run_started("p", 5);
    let c = e.copy_record();
    assert_eq!(c.timestamp, e.timestamp);
    assert_eq!(c.message, e.message);
    assert_eq!(c.metadata, e.metadata);
}

#[test]
fn test_level_text() {
    assert_eq!(EventLevel::Debug.display_text(), "DEBUG");
    assert_eq!(EventLevel::Warn.display_text(), "WARN");
}
