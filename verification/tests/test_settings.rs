use nos_autoclicker::domain::settings::{
    ClickAction, PositionMode, RunState, ScopeMode, StopReason, ThemeVariant,
};
use nos_autoclicker::infra::input_driver::is_target_window_focused;

#[test]
fn test_defaults_and_labels() {
    assert_eq!(ClickAction::default(), ClickAction::Left);
    assert_eq!(ScopeMode::default(), ScopeMode::FocusedOnly);
    assert_eq!(PositionMode::default(), PositionMode::Cursor);
    assert_eq!(ThemeVariant::default(), ThemeVariant::MadScientistNeon);
    assert_eq!(RunState::default(), RunState::Idle);
    assert_eq!(ClickAction::Double.display_text(), "Double Click");
    assert_eq!(ScopeMode::FocusedOnly.display_text(), "Focused Only");
    assert_eq!(RunState::WaitingCondition.display_text(), "Waiting for Condition");
    assert_eq!(RunState::WaitingCondition.variant_name(), "WaitingCondition");
    assert_eq!(StopReason::MaxSessionReached.display_text(), "Max Session Reached");
}

#[test]
fn test_target_window_counts_as_focused() {
    assert!(is_target_window_focused());
}
