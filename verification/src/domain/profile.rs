use crate::domain::errors::{ValidationError, ValidationErrorView};
use crate::domain::settings::{
    ClickAction, PositionMode, ScopeMode, ThemeVariant, CPS_MAX, CPS_MIN, JITTER_MAX_PERCENT,
    PROFILE_NAME_MAX_LEN, TIMER_MAX_SECONDS, TIMER_MIN_SECONDS,
};
use crate::infra::clock::{utc_now, Timestamp};
use crate::infra::ids::{is_hyphenated_v4, uuid_v4_string};
use crate::text::{all_ws, is_blank};
use vstd::prelude::*;
use vstd::string::StrSliceExecFns;
use vstd::string::StringExecFns;

verus! {

// ── ClickProfile ──────────────────────────────────────────────────────────────

/// A named, saved click configuration.
#[derive(Debug, Clone)]
pub struct ClickProfile {
    pub id: String,
    pub name: String,
    pub click_action: ClickAction,
    pub cps: u32,
    pub scope_mode: ScopeMode,
    pub position_mode: PositionMode,
    pub fixed_position_x: Option<i32>,
    pub fixed_position_y: Option<i32>,
    pub jitter_percent: u32,
    // Stationary-start
    pub stationary_start_enabled: bool,
    pub stationary_seconds: Option<u32>,
    // Stop-after
    pub stop_after_enabled: bool,
    pub stop_after_seconds: Option<u32>,
    // Safety: max session
    pub max_session_enabled: bool,
    pub max_session_seconds: Option<u32>,
    // Safety: cooldown
    pub cooldown_enabled: bool,
    pub cooldown_seconds: Option<u32>,
    // Hotkeys (string representations like "F6", "Ctrl+Shift+S")
    pub start_hotkey: String,
    pub stop_hotkey: String,
    pub panic_hotkey: String,
    // Theme
    pub theme_variant: ThemeVariant,
    // Timestamps
    pub created_at: Timestamp,
    pub updated_at: Timestamp,
}

// ── Validation rules ──────────────────────────────────────────────────────────

/// The failure of an optional timer: none when disabled; when enabled, its
/// seconds must be present and within the timer bounds.
pub open spec fn timer_failure(
    enabled: bool,
    secs: Option<u32>,
    field: Seq<char>,
    required: Seq<char>,
) -> Option<ValidationErrorView> {
    if !enabled {
        None
    } else {
        match secs {
            Some(s) => if s < TIMER_MIN_SECONDS || s > TIMER_MAX_SECONDS {
                Some(
                    ValidationErrorView::OutOfRange {
                        field: field,
                        min: TIMER_MIN_SECONDS,
                        max: TIMER_MAX_SECONDS,
                        actual: s,
                    },
                )
            } else {
                None
            },
            None => Some(ValidationErrorView::RequiredField(required)),
        }
    }
}

/// The first pair of equal, non-empty hotkeys among start, stop and panic,
/// taken in the order (start, stop), (start, panic), (stop, panic).
pub open spec fn hotkey_failure(start: Seq<char>, stop: Seq<char>, panic: Seq<char>) -> Option<
    ValidationErrorView,
> {
    if start.len() > 0 && start == stop {
        Some(ValidationErrorView::DuplicateHotkey(start))
    } else if start.len() > 0 && start == panic {
        Some(ValidationErrorView::DuplicateHotkey(start))
    } else if stop.len() > 0 && stop == panic {
        Some(ValidationErrorView::DuplicateHotkey(stop))
    } else {
        None
    }
}

/// The first rule that `p` breaks, in the order the rules are checked, or
/// none when `p` is valid.
pub open spec fn validation_failure(p: ClickProfile) -> Option<ValidationErrorView> {
    if all_ws(p.name@) {
        Some(ValidationErrorView::EmptyField("name"@))
    } else if p.name@.len() > PROFILE_NAME_MAX_LEN {
        Some(ValidationErrorView::FieldTooLong { field: "name"@, max: PROFILE_NAME_MAX_LEN })
    } else if p.cps < CPS_MIN || p.cps > CPS_MAX {
        Some(
            ValidationErrorView::OutOfRange {
                field: "cps"@,
                min: CPS_MIN,
                max: CPS_MAX,
                actual: p.cps,
            },
        )
    } else if p.jitter_percent > JITTER_MAX_PERCENT {
        Some(
            ValidationErrorView::OutOfRange {
                field: "jitter_percent"@,
                min: 0,
                max: JITTER_MAX_PERCENT,
                actual: p.jitter_percent,
            },
        )
    } else if p.position_mode == PositionMode::Fixed && (p.fixed_position_x is None
        || p.fixed_position_y is None) {
        Some(
            ValidationErrorView::RequiredField(
                "fixed_position_x and fixed_position_y required when position_mode is Fixed"@,
            ),
        )
    } else if timer_failure(
        p.stationary_start_enabled,
        p.stationary_seconds,
        "stationary_seconds"@,
        "stationary_seconds required when stationary_start_enabled"@,
    ) is Some {
        timer_failure(
            p.stationary_start_enabled,
            p.stationary_seconds,
            "stationary_seconds"@,
            "stationary_seconds required when stationary_start_enabled"@,
        )
    } else if timer_failure(
        p.stop_after_enabled,
        p.stop_after_seconds,
        "stop_after_seconds"@,
        "stop_after_seconds required when stop_after_enabled"@,
    ) is Some {
        timer_failure(
            p.stop_after_enabled,
            p.stop_after_seconds,
            "stop_after_seconds"@,
            "stop_after_seconds required when stop_after_enabled"@,
        )
    } else if timer_failure(
        p.max_session_enabled,
        p.max_session_seconds,
        "max_session_seconds"@,
        "max_session_seconds required when max_session_enabled"@,
    ) is Some {
        timer_failure(
            p.max_session_enabled,
            p.max_session_seconds,
            "max_session_seconds"@,
            "max_session_seconds required when max_session_enabled"@,
        )
    } else if timer_failure(
        p.cooldown_enabled,
        p.cooldown_seconds,
        "cooldown_seconds"@,
        "cooldown_seconds required when cooldown_enabled"@,
    ) is Some {
        timer_failure(
            p.cooldown_enabled,
            p.cooldown_seconds,
            "cooldown_seconds"@,
            "cooldown_seconds required when cooldown_enabled"@,
        )
    } else {
        hotkey_failure(p.start_hotkey@, p.stop_hotkey@, p.panic_hotkey@)
    }
}

/// Whether `p` passes every validation rule.
pub open spec fn is_valid_profile(p: ClickProfile) -> bool {
    validation_failure(p) is None
}

/// The settings that a freshly created profile carries.
pub open spec fn has_default_settings(p: ClickProfile) -> bool {
    &&& p.click_action == ClickAction::Left
    &&& p.cps == 10
    &&& p.scope_mode == ScopeMode::FocusedOnly
    &&& p.position_mode == PositionMode::Cursor
    &&& p.fixed_position_x is None
    &&& p.fixed_position_y is None
    &&& p.jitter_percent == 0
    &&& !p.stationary_start_enabled
    &&& p.stationary_seconds is None
    &&& !p.stop_after_enabled
    &&& p.stop_after_seconds is None
    &&& !p.max_session_enabled
    &&& p.max_session_seconds is None
    &&& !p.cooldown_enabled
    &&& p.cooldown_seconds is None
    &&& p.start_hotkey@ == "F6"@
    &&& p.stop_hotkey@ == "F7"@
    &&& p.panic_hotkey@ == "F8"@
    &&& p.theme_variant == ThemeVariant::MadScientistNeon
}

/// Every configurable setting of `a` and `b` agrees (identity, name and
/// timestamps aside).
pub open spec fn same_settings(a: ClickProfile, b: ClickProfile) -> bool {
    &&& a.click_action == b.click_action
    &&& a.cps == b.cps
    &&& a.scope_mode == b.scope_mode
    &&& a.position_mode == b.position_mode
    &&& a.fixed_position_x == b.fixed_position_x
    &&& a.fixed_position_y == b.fixed_position_y
    &&& a.jitter_percent == b.jitter_percent
    &&& a.stationary_start_enabled == b.stationary_start_enabled
    &&& a.stationary_seconds == b.stationary_seconds
    &&& a.stop_after_enabled == b.stop_after_enabled
    &&& a.stop_after_seconds == b.stop_after_seconds
    &&& a.max_session_enabled == b.max_session_enabled
    &&& a.max_session_seconds == b.max_session_seconds
    &&& a.cooldown_enabled == b.cooldown_enabled
    &&& a.cooldown_seconds == b.cooldown_seconds
    &&& a.start_hotkey@ == b.start_hotkey@
    &&& a.stop_hotkey@ == b.stop_hotkey@
    &&& a.panic_hotkey@ == b.panic_hotkey@
    &&& a.theme_variant == b.theme_variant
}

/// The check of one optional timer; see `timer_failure`.
fn check_timer(enabled: bool, secs: Option<u32>, field: &str, required: &str) -> (r: Option<
    ValidationError,
>)
    ensures
        match r {
            None => timer_failure(enabled, secs, field@, required@) is None,
            Some(e) => timer_failure(enabled, secs, field@, required@) == Some(e@),
        },
{
    if enabled {
        match secs {
            Some(s) => {
                if s < TIMER_MIN_SECONDS || s > TIMER_MAX_SECONDS {
                    return Some(
                        ValidationError::OutOfRange {
                            field: String::from_str(field),
                            min: TIMER_MIN_SECONDS,
                            max: TIMER_MAX_SECONDS,
                            actual: s,
                        },
                    );
                }
            },
            None => {
                return Some(ValidationError::RequiredField(String::from_str(required)));
            },
        }
    }
    None
}

impl ClickProfile {
    /// Create a new profile with sensible defaults.
    pub fn new(name: String) -> (p: Self)
        ensures
            p.name == name,
            is_hyphenated_v4(p.id@),
            has_default_settings(p),
            p.created_at == p.updated_at,
    {
        let now = utc_now();
        ClickProfile {
            id: uuid_v4_string(),
            name,
            click_action: ClickAction::default(),
            cps: 10,
            scope_mode: ScopeMode::default(),
            position_mode: PositionMode::default(),
            fixed_position_x: None,
            fixed_position_y: None,
            jitter_percent: 0,
            stationary_start_enabled: false,
            stationary_seconds: None,
            stop_after_enabled: false,
            stop_after_seconds: None,
            max_session_enabled: false,
            max_session_seconds: None,
            cooldown_enabled: false,
            cooldown_seconds: None,
            start_hotkey: String::from_str("F6"),
            stop_hotkey: String::from_str("F7"),
            panic_hotkey: String::from_str("F8"),
            theme_variant: ThemeVariant::default(),
            created_at: now,
            updated_at: now,
        }
    }

    /// Validate the profile fields: the first rule broken, in the order of
    /// `validation_failure`, is reported.
    pub fn validate(&self) -> (r: Result<(), ValidationError>)
        ensures
            match r {
                Ok(()) => validation_failure(*self) is None,
                Err(e) => validation_failure(*self) == Some(e@),
            },
    {
        // Name validation
        if is_blank(self.name.as_str()) {
            return Err(ValidationError::EmptyField(String::from_str("name")));
        }
        if self.name.as_str().unicode_len() > PROFILE_NAME_MAX_LEN {
            return Err(
                ValidationError::FieldTooLong {
                    field: String::from_str("name"),
                    max: PROFILE_NAME_MAX_LEN,
                },
            );
        }
        // CPS validation
        if self.cps < CPS_MIN || self.cps > CPS_MAX {
            return Err(
                ValidationError::OutOfRange {
                    field: String::from_str("cps"),
                    min: CPS_MIN,
                    max: CPS_MAX,
                    actual: self.cps,
                },
            );
        }
        // Jitter validation
        if self.jitter_percent > JITTER_MAX_PERCENT {
            return Err(
                ValidationError::OutOfRange {
                    field: String::from_str("jitter_percent"),
                    min: 0,
                    max: JITTER_MAX_PERCENT,
                    actual: self.jitter_percent,
                },
            );
        }
        // Fixed position required when position_mode is Fixed
        if self.position_mode == PositionMode::Fixed && (self.fixed_position_x.is_none()
            || self.fixed_position_y.is_none()) {
            return Err(
                ValidationError::RequiredField(
                    String::from_str(
                        "fixed_position_x and fixed_position_y required when position_mode is Fixed",
                    ),
                ),
            );
        }
        // Optional timers
        if let Some(e) = check_timer(
            self.stationary_start_enabled,
            self.stationary_seconds,
            "stationary_seconds",
            "stationary_seconds required when stationary_start_enabled",
        ) {
            return Err(e);
        }
        if let Some(e) = check_timer(
            self.stop_after_enabled,
            self.stop_after_seconds,
            "stop_after_seconds",
            "stop_after_seconds required when stop_after_enabled",
        ) {
            return Err(e);
        }
        if let Some(e) = check_timer(
            self.max_session_enabled,
            self.max_session_seconds,
            "max_session_seconds",
            "max_session_seconds required when max_session_enabled",
        ) {
            return Err(e);
        }
        if let Some(e) = check_timer(
            self.cooldown_enabled,
            self.cooldown_seconds,
            "cooldown_seconds",
            "cooldown_seconds required when cooldown_enabled",
        ) {
            return Err(e);
        }
        // Hotkey uniqueness, pair by pair
        let start_set = !self.start_hotkey.as_str().is_empty();
        let stop_set = !self.stop_hotkey.as_str().is_empty();
        if start_set && self.start_hotkey == self.stop_hotkey {
            return Err(ValidationError::DuplicateHotkey(self.start_hotkey.clone()));
        }
        if start_set && self.start_hotkey == self.panic_hotkey {
            return Err(ValidationError::DuplicateHotkey(self.start_hotkey.clone()));
        }
        if stop_set && self.stop_hotkey == self.panic_hotkey {
            return Err(ValidationError::DuplicateHotkey(self.stop_hotkey.clone()));
        }
        Ok(())
    }

    /// A field-by-field copy of the profile, identity included.
    pub fn copied(&self) -> (p: Self)
        ensures
            p == *self,
    {
        ClickProfile {
            id: self.id.clone(),
            name: self.name.clone(),
            click_action: self.click_action,
            cps: self.cps,
            scope_mode: self.scope_mode,
            position_mode: self.position_mode,
            fixed_position_x: self.fixed_position_x,
            fixed_position_y: self.fixed_position_y,
            jitter_percent: self.jitter_percent,
            stationary_start_enabled: self.stationary_start_enabled,
            stationary_seconds: self.stationary_seconds,
            stop_after_enabled: self.stop_after_enabled,
            stop_after_seconds: self.stop_after_seconds,
            max_session_enabled: self.max_session_enabled,
            max_session_seconds: self.max_session_seconds,
            cooldown_enabled: self.cooldown_enabled,
            cooldown_seconds: self.cooldown_seconds,
            start_hotkey: self.start_hotkey.clone(),
            stop_hotkey: self.stop_hotkey.clone(),
            panic_hotkey: self.panic_hotkey.clone(),
            theme_variant: self.theme_variant,
            created_at: self.created_at,
            updated_at: self.updated_at,
        }
    }

    /// Create a duplicate of this profile with a new ID, the given name and
    /// fresh timestamps; every setting is kept.
    pub fn duplicate(&self, new_name: String) -> (d: Self)
        ensures
            d.name == new_name,
            is_hyphenated_v4(d.id@),
            same_settings(d, *self),
            d.created_at == d.updated_at,
    {
        let now = utc_now();
        ClickProfile {
            id: uuid_v4_string(),
            name: new_name,
            click_action: self.click_action,
            cps: self.cps,
            scope_mode: self.scope_mode,
            position_mode: self.position_mode,
            fixed_position_x: self.fixed_position_x,
            fixed_position_y: self.fixed_position_y,
            jitter_percent: self.jitter_percent,
            stationary_start_enabled: self.stationary_start_enabled,
            stationary_seconds: self.stationary_seconds,
            stop_after_enabled: self.stop_after_enabled,
            stop_after_seconds: self.stop_after_seconds,
            max_session_enabled: self.max_session_enabled,
            max_session_seconds: self.max_session_seconds,
            cooldown_enabled: self.cooldown_enabled,
            cooldown_seconds: self.cooldown_seconds,
            start_hotkey: self.start_hotkey.clone(),
            stop_hotkey: self.stop_hotkey.clone(),
            panic_hotkey: self.panic_hotkey.clone(),
            theme_variant: self.theme_variant,
            created_at: now,
            updated_at: now,
        }
    }
}

// ── Laws ──────────────────────────────────────────────────────────────────────

/// A name that is neither blank nor longer than the maximum.
pub open spec fn acceptable_name(name: Seq<char>) -> bool {
    !all_ws(name) && name.len() <= PROFILE_NAME_MAX_LEN
}

/// A profile with the default settings is valid whenever its name is.
pub proof fn lemma_default_settings_valid(p: ClickProfile)
    requires
        has_default_settings(p),
    ensures
        is_valid_profile(p) <==> acceptable_name(p.name@),
{
    reveal_strlit("F6");
    reveal_strlit("F7");
    reveal_strlit("F8");
    assert("F6"@[1] == '6' && "F7"@[1] == '7' && "F8"@[1] == '8');
    assert(p.start_hotkey@ != p.stop_hotkey@);
    assert(p.start_hotkey@ != p.panic_hotkey@);
    assert(p.stop_hotkey@ != p.panic_hotkey@);
}

/// On an otherwise default profile with an acceptable name, a click rate is
/// accepted exactly when it lies in `[CPS_MIN, CPS_MAX]`.
pub proof fn lemma_cps_bounds(p: ClickProfile, cps: u32)
    requires
        has_default_settings(p),
        acceptable_name(p.name@),
    ensures
        is_valid_profile(ClickProfile { cps: cps, ..p }) <==> (CPS_MIN <= cps && cps <= CPS_MAX),
{
    lemma_default_settings_valid(p);
}

/// On an otherwise default profile with an acceptable name, a jitter is
/// accepted exactly when it is at most `JITTER_MAX_PERCENT`.
pub proof fn lemma_jitter_bounds(p: ClickProfile, jitter: u32)
    requires
        has_default_settings(p),
        acceptable_name(p.name@),
    ensures
        is_valid_profile(ClickProfile { jitter_percent: jitter, ..p }) <==> jitter
            <= JITTER_MAX_PERCENT,
{
    lemma_default_settings_valid(p);
}

/// On an otherwise default profile with an acceptable name, each enabled
/// timer (stationary start, stop after, max session, cooldown) is accepted
/// exactly when its seconds are given and lie in
/// `[TIMER_MIN_SECONDS, TIMER_MAX_SECONDS]`.
pub proof fn lemma_timer_bounds(p: ClickProfile, secs: Option<u32>)
    requires
        has_default_settings(p),
        acceptable_name(p.name@),
    ensures
        is_valid_profile(
            ClickProfile { stationary_start_enabled: true, stationary_seconds: secs, ..p },
        ) <==> (secs matches Some(s) && TIMER_MIN_SECONDS <= s && s <= TIMER_MAX_SECONDS),
        is_valid_profile(ClickProfile { stop_after_enabled: true, stop_after_seconds: secs, ..p })
            <==> (secs matches Some(s) && TIMER_MIN_SECONDS <= s && s <= TIMER_MAX_SECONDS),
        is_valid_profile(
            ClickProfile { max_session_enabled: true, max_session_seconds: secs, ..p },
        ) <==> (secs matches Some(s) && TIMER_MIN_SECONDS <= s && s <= TIMER_MAX_SECONDS),
        is_valid_profile(ClickProfile { cooldown_enabled: true, cooldown_seconds: secs, ..p })
            <==> (secs matches Some(s) && TIMER_MIN_SECONDS <= s && s <= TIMER_MAX_SECONDS),
{
    lemma_default_settings_valid(p);
}

/// On an otherwise default profile with an acceptable name, the fixed
/// position mode is accepted exactly when both coordinates are given.
pub proof fn lemma_fixed_position_requires_coordinates(
    p: ClickProfile,
    x: Option<i32>,
    y: Option<i32>,
)
    requires
        has_default_settings(p),
        acceptable_name(p.name@),
    ensures
        is_valid_profile(
            ClickProfile {
                position_mode: PositionMode::Fixed,
                fixed_position_x: x,
                fixed_position_y: y,
                ..p
            },
        ) <==> (x is Some && y is Some),
{
    lemma_default_settings_valid(p);
}

/// Two equal non-empty hotkeys always make a profile invalid.
pub proof fn lemma_duplicate_hotkeys_rejected(p: ClickProfile)
    requires
        (p.start_hotkey@.len() > 0 && (p.start_hotkey@ == p.stop_hotkey@ || p.start_hotkey@
            == p.panic_hotkey@)) || (p.stop_hotkey@.len() > 0 && p.stop_hotkey@
            == p.panic_hotkey@),
    ensures
        !is_valid_profile(p),
{
}

/// A duplicate is valid exactly when a profile with the same settings and
/// the duplicate's name is.
pub proof fn lemma_duplicate_keeps_validity(original: ClickProfile, dup: ClickProfile)
    requires
        same_settings(dup, original),
        dup.name@ == original.name@,
    ensures
        is_valid_profile(dup) <==> is_valid_profile(original),
{
}

/// An optional timer's setting is acceptable: off, or on with its seconds
/// given and within `[TIMER_MIN_SECONDS, TIMER_MAX_SECONDS]`.
pub open spec fn timer_setting_ok(enabled: bool, secs: Option<u32>) -> bool {
    !enabled || (secs matches Some(s) && TIMER_MIN_SECONDS <= s && s <= TIMER_MAX_SECONDS)
}

/// Every rule is checked on every profile, whatever its other fields: a
/// blank or over-long name, a click rate outside `[CPS_MIN, CPS_MAX]`, a
/// jitter above `JITTER_MAX_PERCENT`, a fixed position without both
/// coordinates, any enabled timer whose seconds are missing or out of range,
/// or two equal non-empty hotkeys each make the profile invalid.
pub proof fn lemma_each_rule_rejects(p: ClickProfile)
    ensures
        all_ws(p.name@) ==> !is_valid_profile(p),
        p.name@.len() > PROFILE_NAME_MAX_LEN ==> !is_valid_profile(p),
        (p.cps < CPS_MIN || p.cps > CPS_MAX) ==> !is_valid_profile(p),
        p.jitter_percent > JITTER_MAX_PERCENT ==> !is_valid_profile(p),
        (p.position_mode == PositionMode::Fixed && (p.fixed_position_x is None
            || p.fixed_position_y is None)) ==> !is_valid_profile(p),
        !timer_setting_ok(p.stationary_start_enabled, p.stationary_seconds) ==> !is_valid_profile(p),
        !timer_setting_ok(p.stop_after_enabled, p.stop_after_seconds) ==> !is_valid_profile(p),
        !timer_setting_ok(p.max_session_enabled, p.max_session_seconds) ==> !is_valid_profile(p),
        !timer_setting_ok(p.cooldown_enabled, p.cooldown_seconds) ==> !is_valid_profile(p),
{
}

/// A profile that keeps every rule is valid: nothing else is checked.
pub proof fn lemma_rules_suffice(p: ClickProfile)
    requires
        !all_ws(p.name@),
        p.name@.len() <= PROFILE_NAME_MAX_LEN,
        CPS_MIN <= p.cps <= CPS_MAX,
        p.jitter_percent <= JITTER_MAX_PERCENT,
        p.position_mode == PositionMode::Fixed ==> p.fixed_position_x is Some
            && p.fixed_position_y is Some,
        timer_setting_ok(p.stationary_start_enabled, p.stationary_seconds),
        timer_setting_ok(p.stop_after_enabled, p.stop_after_seconds),
        timer_setting_ok(p.max_session_enabled, p.max_session_seconds),
        timer_setting_ok(p.cooldown_enabled, p.cooldown_seconds),
        !(p.start_hotkey@.len() > 0 && (p.start_hotkey@ == p.stop_hotkey@ || p.start_hotkey@
            == p.panic_hotkey@)),
        !(p.stop_hotkey@.len() > 0 && p.stop_hotkey@ == p.panic_hotkey@),
    ensures
        is_valid_profile(p),
{
}

} // verus!
