use crate::domain::settings::{PositionMode, ScopeMode};
use vstd::prelude::*;

verus! {

/// Check if the target window is focused. Focus is not tracked on any
/// platform yet, so the target always counts as focused.
pub fn is_target_window_focused() -> (r: bool)
    ensures
        r,
{
    true
}

/// What one tick of the click loop does with the mouse.
#[derive(Debug, Clone, Copy, PartialEq, Eq, Structural)]
pub enum ClickPlan {
    /// Do not click: the focused-only scope and the target has no focus.
    Skip,
    /// Click where the cursor is.
    ClickAtCursor,
    /// Move the cursor to the fixed position, then click.
    MoveThenClick { x: i32, y: i32 },
}

/// The plan for one click: skip it when the scope is focused-only and the
/// target window has no focus; in the fixed position mode with both
/// coordinates known, move there first; otherwise click at the cursor.
pub open spec fn click_plan_for(
    scope_mode: ScopeMode,
    focused: bool,
    position_mode: PositionMode,
    fixed_x: Option<i32>,
    fixed_y: Option<i32>,
) -> ClickPlan {
    if scope_mode == ScopeMode::FocusedOnly && !focused {
        ClickPlan::Skip
    } else if position_mode == PositionMode::Fixed && fixed_x is Some && fixed_y is Some {
        ClickPlan::MoveThenClick { x: fixed_x.unwrap(), y: fixed_y.unwrap() }
    } else {
        ClickPlan::ClickAtCursor
    }
}

/// Decide what one tick of the click loop does; see `click_plan_for`.
pub fn plan_click(
    scope_mode: ScopeMode,
    focused: bool,
    position_mode: PositionMode,
    fixed_x: Option<i32>,
    fixed_y: Option<i32>,
) -> (plan: ClickPlan)
    ensures
        plan == click_plan_for(scope_mode, focused, position_mode, fixed_x, fixed_y),
{
    if scope_mode == ScopeMode::FocusedOnly && !focused {
        return ClickPlan::Skip;
    }
    if position_mode == PositionMode::Fixed {
        if let (Some(x), Some(y)) = (fixed_x, fixed_y) {
            return ClickPlan::MoveThenClick { x, y };
        }
    }
    ClickPlan::ClickAtCursor
}

} // verus!
