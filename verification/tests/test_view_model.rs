use nos_autoclicker::app::view_model::{auto_stop_remaining_secs, ViewModel};
use nos_autoclicker::domain::profile::ClickProfile;
use nos_autoclicker::domain::settings::{RunState, StopReason};

#[test]
fn test_view_model_starts_with_default_profile() {
    let vm = ViewModel::new();
    assert_eq!(vm.profiles.len(), 1);
    assert_eq!(vm.active_profile.name, "Default");
    assert_eq!(vm.cps_text, "10");
    assert_eq!(vm.status_text, "Idle");
    assert_eq!(vm.selected_profile_idx, 0);
}

#[test]
fn test_switch_profile_sets_safety_limits() {
    let mut vm = ViewModel::new();
    let mut p = ClickProfile::new("Safe".to_string());
    p.cps = 33;
    p.max_session_enabled = true;
    p.max_session_seconds = Some(30);
    p.cooldown_enabled = false;
    p.cooldown_seconds = Some(9);
    vm.profiles.push(p);
    assert!(vm.switch_profile(1));
    assert_eq!(vm.selected_profile_idx, 1);
    assert_eq!(vm.active_profile.name, "Safe");
    assert_eq!(vm.cps_text, "33");
    assert_eq!(vm.safety.max_session_seconds(), Some(30));
    assert_eq!(vm.safety.cooldown_seconds(), None);
    assert!(!vm.switch_profile(5));
    assert_eq!(vm.selected_profile_idx, 1);
}

#[test]
fn test_delete_profile_rules() {
    let mut vm = ViewModel::new();
    assert!(vm.delete_profile(0).is_none(), "last profile cannot be deleted");
    vm.create_profile("Second".to_string());
    vm.create_profile("Third".to_string());
    assert!(vm.switch_profile(2));
    assert!(vm.delete_profile(7).is_none());
    let removed = vm.delete_profile(2).unwrap();
    assert_eq!(removed.name, "Third");
    assert_eq!(vm.profiles.len(), 2);
    assert_eq!(vm.selected_profile_idx, 1);
    assert_eq!(vm.active_profile.name, "Second");
}

#[test]
fn test_duplicate_profile_appends_copy() {
    let mut vm = ViewModel::new();
    vm.active_profile.cps = 42;
    vm.duplicate_profile();
    let dup = vm.profiles.last().unwrap();
    assert_eq!(dup.name, "Default (Copy)");
    assert_eq!(dup.cps, 42);
    assert_ne!(dup.id, vm.active_profile.id);
}

#[test]
fn test_save_active_profile_updates_list() {
    let mut vm = ViewModel::new();
    vm.active_profile.jitter_percent = 12;
    vm.save_active_profile();
    assert_eq!(vm.profiles[0].jitter_percent, 12);
    assert_eq!(vm.profiles[0].id, vm.active_profile.id);
}

#[test]
fn test_validate_and_update_messages() {
    let mut vm = ViewModel::new();
    vm.cps_text = "abc".to_string();
    assert!(!vm.validate_and_update());
    assert_eq!(vm.validation_error.as_deref(), Some("CPS must be a number between 1 and 50"));
    vm.cps_text = "51".to_string();
    assert!(!vm.validate_and_update());
    assert_eq!(vm.active_profile.cps, 51);
    assert_eq!(
        vm.validation_error.as_deref(),
        Some("Field 'cps' value 51 is out of range [1, 50]")
    );
    vm.cps_text = "25".to_string();
    assert!(vm.validate_and_update());
    assert_eq!(vm.validation_error, None);
    assert_eq!(vm.active_profile.cps, 25);
}

#[test]
fn test_refresh_status_texts() {
    let mut vm = ViewModel::new();
    vm.refresh_status(RunState::Stopped, Some(Some(StopReason::TimedStop)));
    assert_eq!(vm.status_text, "Stopped");
    assert_eq!(vm.stop_reason_text, "Timed Stop");
    vm.refresh_status(RunState::WaitingCondition, None);
    assert_eq!(vm.status_text, "Waiting for Condition");
    assert_eq!(vm.stop_reason_text, "Timed Stop");
    vm.refresh_status(RunState::Running, Some(None));
    assert_eq!(vm.stop_reason_text, "");
}

#[test]
fn test_load_profiles_restores_last_active() {
    let mut vm = ViewModel::new();
    let a = ClickProfile::new("A".to_string());
    let mut b = ClickProfile::new("B".to_string());
    b.cps = 7;
    let b_id = b.id.clone();
    vm.load_profiles(vec![a, b], Some(b_id.clone()));
    assert_eq!(vm.profiles.len(), 2);
    assert_eq!(vm.selected_profile_idx, 1);
    assert_eq!(vm.active_profile.id, b_id);
    assert_eq!(vm.cps_text, "7");
    let before = vm.profiles.len();
    vm.load_profiles(Vec::new(), None);
    assert_eq!(vm.profiles.len(), before);
}

#[test]
fn test_create_profile_refuses_taken_name() {
    let mut vm = ViewModel::new();
    assert!(vm.create_profile("Gaming Profile".to_string()));
    let n = vm.profiles.len();
    assert!(!vm.create_profile("gaming PROFILE".to_string()));
    assert_eq!(vm.profiles.len(), n);
    assert!(vm.create_profile("Other".to_string()));
}

#[test]
fn test_auto_stop_countdown() {
    assert_eq!(auto_stop_remaining_secs(Some(30), 1_000, 1_012), 18);
    assert_eq!(auto_stop_remaining_secs(Some(30), 1_000, 1_030), 0);
    assert_eq!(auto_stop_remaining_secs(Some(30), 1_000, 1_100), 0);
    assert_eq!(auto_stop_remaining_secs(Some(30), 1_000, 990), 30);
    assert_eq!(auto_stop_remaining_secs(None, 1_000, 1_010), 0);
}
