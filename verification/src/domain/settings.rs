use vstd::prelude::*;
use vstd::string::StringExecFns;

verus! {

// ── Click Action ──────────────────────────────────────────────────────────────

/// The mouse action performed on every tick.
#[derive(Debug, Clone, Copy, PartialEq, Eq, Structural)]
pub enum ClickAction {
    Left,
    Right,
    Middle,
    Double,
}

impl Default for ClickAction {
    fn default() -> (r: Self)
        ensures
            r == ClickAction::Left,
    {
        ClickAction::Left
    }
}

impl ClickAction {
    pub open spec fn spec_display_text(self) -> Seq<char> {
        match self {
            ClickAction::Left => "Left Click"@,
            ClickAction::Right => "Right Click"@,
            ClickAction::Middle => "Middle Click"@,
            ClickAction::Double => "Double Click"@,
        }
    }

    /// Human-readable name of the action, as shown to the user.
    pub fn display_text(&self) -> (s: String)
        ensures
            s@ == self.spec_display_text(),
    {
        match self {
            ClickAction::Left => String::from_str("Left Click"),
            ClickAction::Right => String::from_str("Right Click"),
            ClickAction::Middle => String::from_str("Middle Click"),
            ClickAction::Double => String::from_str("Double Click"),
        }
    }
}

// ── Scope Mode ────────────────────────────────────────────────────────────────

/// Whether clicks go only to the focused target window or everywhere.
#[derive(Debug, Clone, Copy, PartialEq, Eq, Structural)]
pub enum ScopeMode {
    FocusedOnly,
    Global,
}

impl Default for ScopeMode {
    fn default() -> (r: Self)
        ensures
            r == ScopeMode::FocusedOnly,
    {
        ScopeMode::FocusedOnly
    }
}

impl ScopeMode {
    pub open spec fn spec_display_text(self) -> Seq<char> {
        match self {
            ScopeMode::FocusedOnly => "Focused Only"@,
            ScopeMode::Global => "Global"@,
        }
    }

    /// Human-readable name of the scope, as shown to the user.
    pub fn display_text(&self) -> (s: String)
        ensures
            s@ == self.spec_display_text(),
    {
        match self {
            ScopeMode::FocusedOnly => String::from_str("Focused Only"),
            ScopeMode::Global => String::from_str("Global"),
        }
    }
}

// ── Position Mode ─────────────────────────────────────────────────────────────

/// Where a click lands: at the cursor or at a fixed screen position.
#[derive(Debug, Clone, Copy, PartialEq, Eq, Structural)]
pub enum PositionMode {
    Cursor,
    Fixed,
}

impl Default for PositionMode {
    fn default() -> (r: Self)
        ensures
            r == PositionMode::Cursor,
    {
        PositionMode::Cursor
    }
}

// ── Theme Variant ─────────────────────────────────────────────────────────────

/// Visual theme of the user interface.
#[derive(Debug, Clone, Copy, PartialEq, Eq, Structural)]
pub enum ThemeVariant {
    MadScientistNeon,
    HighContrast,
}

impl Default for ThemeVariant {
    fn default() -> (r: Self)
        ensures
            r == ThemeVariant::MadScientistNeon,
    {
        ThemeVariant::MadScientistNeon
    }
}

// ── Run State ─────────────────────────────────────────────────────────────────

/// State of a run session.
#[derive(Debug, Clone, Copy, PartialEq, Eq, Structural)]
pub enum RunState {
    Idle,
    WaitingCondition,
    Running,
    Stopped,
    Error,
}

impl Default for RunState {
    fn default() -> (r: Self)
        ensures
            r == RunState::Idle,
    {
        RunState::Idle
    }
}

impl RunState {
    pub open spec fn spec_display_text(self) -> Seq<char> {
        match self {
            RunState::Idle => "Idle"@,
            RunState::WaitingCondition => "Waiting for Condition"@,
            RunState::Running => "Running"@,
            RunState::Stopped => "Stopped"@,
            RunState::Error => "Error"@,
        }
    }

    /// Human-readable name of the state, as shown to the user.
    pub fn display_text(&self) -> (s: String)
        ensures
            s@ == self.spec_display_text(),
    {
        match self {
            RunState::Idle => String::from_str("Idle"),
            RunState::WaitingCondition => String::from_str("Waiting for Condition"),
            RunState::Running => String::from_str("Running"),
            RunState::Stopped => String::from_str("Stopped"),
            RunState::Error => String::from_str("Error"),
        }
    }

    pub open spec fn spec_variant_name(self) -> Seq<char> {
        match self {
            RunState::Idle => "Idle"@,
            RunState::WaitingCondition => "WaitingCondition"@,
            RunState::Running => "Running"@,
            RunState::Stopped => "Stopped"@,
            RunState::Error => "Error"@,
        }
    }

    /// The variant's identifier, as used in diagnostic messages.
    pub fn variant_name(&self) -> (s: String)
        ensures
            s@ == self.spec_variant_name(),
    {
        match self {
            RunState::Idle => String::from_str("Idle"),
            RunState::WaitingCondition => String::from_str("WaitingCondition"),
            RunState::Running => String::from_str("Running"),
            RunState::Stopped => String::from_str("Stopped"),
            RunState::Error => String::from_str("Error"),
        }
    }
}

// ── Stop Reason ───────────────────────────────────────────────────────────────

/// Why a run session ended.
#[derive(Debug, Clone, Copy, PartialEq, Eq, Structural)]
pub enum StopReason {
    ManualStop,
    TimedStop,
    PanicStop,
    ValidationBlock,
    Interruption,
    FocusLossPause,
    MaxSessionReached,
}

impl StopReason {
    pub open spec fn spec_display_text(self) -> Seq<char> {
        match self {
            StopReason::ManualStop => "Manual Stop"@,
            StopReason::TimedStop => "Timed Stop"@,
            StopReason::PanicStop => "Panic Stop"@,
            StopReason::ValidationBlock => "Validation Block"@,
            StopReason::Interruption => "Interruption"@,
            StopReason::FocusLossPause => "Focus Loss Pause"@,
            StopReason::MaxSessionReached => "Max Session Reached"@,
        }
    }

    /// Human-readable name of the reason, as shown to the user.
    pub fn display_text(&self) -> (s: String)
        ensures
            s@ == self.spec_display_text(),
    {
        match self {
            StopReason::ManualStop => String::from_str("Manual Stop"),
            StopReason::TimedStop => String::from_str("Timed Stop"),
            StopReason::PanicStop => String::from_str("Panic Stop"),
            StopReason::ValidationBlock => String::from_str("Validation Block"),
            StopReason::Interruption => String::from_str("Interruption"),
            StopReason::FocusLossPause => String::from_str("Focus Loss Pause"),
            StopReason::MaxSessionReached => String::from_str("Max Session Reached"),
        }
    }
}

// ── Shared Constants ──────────────────────────────────────────────────────────

/// Minimum clicks per second
pub const CPS_MIN: u32 = 1;

/// Maximum clicks per second
pub const CPS_MAX: u32 = 50;

/// Minimum timer duration in seconds (stationary-start, stop-after, max session, cooldown)
pub const TIMER_MIN_SECONDS: u32 = 1;

/// Maximum timer duration in seconds
pub const TIMER_MAX_SECONDS: u32 = 300;

/// Minimum jitter percentage
pub const JITTER_MIN_PERCENT: u32 = 0;

/// Maximum jitter percentage
pub const JITTER_MAX_PERCENT: u32 = 30;

/// Maximum profile name length, in characters
pub const PROFILE_NAME_MAX_LEN: usize = 64;

} // verus!
