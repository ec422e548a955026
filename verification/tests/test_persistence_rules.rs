use nos_autoclicker::domain::profile::ClickProfile;
use nos_autoclicker::infra::persistence::ProfileStore;
use std::path::PathBuf;

#[test]
fn test_name_conflict_case_insensitive() {
    let p1 = ClickProfile::new("Gaming Profile".to_string());
    let all = vec![p1.copied()];
    let p2 = ClickProfile::new("gaming profile".to_string());
    assert!(ProfileStore::has_name_conflict(&all, &p2.name, &p2.id));
    assert!(!ProfileStore::has_name_conflict(&all, &p1.name, &p1.id), "own id is excluded");
    assert!(!ProfileStore::has_name_conflict(&all, "Other", &p2.id));
}

#[test]
fn test_profile_paths() {
    let store = ProfileStore::new(PathBuf::from("/tmp/profiles"));
    assert_eq!(store.profile_path("abc"), PathBuf::from("/tmp/profiles/abc.toml"));
    assert_eq!(store.last_active_path(), PathBuf::from("/tmp/profiles/_last_active.txt"));
}

#[test]
fn test_last_active_from_content() {
    assert_eq!(ProfileStore::last_active_from_content("  id-1\n"), Some("id-1".to_string()));
    assert_eq!(ProfileStore::last_active_from_content(" \n"), None);
}

use nos_autoclicker::domain::settings::ClickAction;
use nos_autoclicker::engine::click_engine::ClickEngine;

#[test]
fn test_unique_name_enforcement_case_insensitive() {
    // The stored profiles, as the store lists them after a save.
    let p1 = ClickProfile::new("Gaming Profile".into());
    let all = vec![p1.copied()];

    let name_exists = all
        .iter()
        .any(|p| p.name.to_lowercase() == "gaming profile");
    assert!(name_exists, "Should find the profile by case-insensitive name");

    // Check that a duplicate name is detected
    let p2 = ClickProfile::new("gaming profile".into());
    let is_dup = ProfileStore::has_name_conflict(&all, &p2.name, &p2.id);
    assert!(is_dup, "Should detect case-insensitive name conflict");
}

#[test]
fn test_switch_profile_and_run_with_new_settings() {
    // Create two profiles with different settings
    let mut profile_a = ClickProfile::new("Profile A".into());
    profile_a.cps = 5;
    profile_a.click_action = ClickAction::Left;

    let mut profile_b = ClickProfile::new("Profile B".into());
    profile_b.cps = 20;
    profile_b.click_action = ClickAction::Right;

    // Profile B as loaded back, and start the engine with it
    let loaded_b = profile_b.copied();
    let mut engine = ClickEngine::new();
    engine.start(&loaded_b).unwrap();

    let session = engine.session.as_ref().unwrap();
    assert_eq!(session.effective_cps, 20, "Should use Profile B's CPS");
    assert_ne!(profile_a.cps, session.effective_cps);

    engine.stop().unwrap();
}

#[test]
fn test_lowered_name_conflict() {
    let p1 = ClickProfile::new("Gaming Profile".to_string());
    let all = vec![p1.copied()];
    let lowered = vec!["gaming profile".to_string()];
    assert!(ProfileStore::lowered_name_conflict(&all, &lowered, "gaming profile", "other-id"));
    assert!(!ProfileStore::lowered_name_conflict(&all, &lowered, "gaming profile", &p1.id));
    assert!(!ProfileStore::lowered_name_conflict(&all, &lowered, "Gaming Profile", "other-id"));
}
