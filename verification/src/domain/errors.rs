use crate::text::{decimal_string, decimal_text};
use vstd::prelude::*;
use vstd::string::StringExecFns;

verus! {

// ── Validation Error ──────────────────────────────────────────────────────────

/// Why a profile (or a profile name) was rejected.
#[derive(Debug)]
pub enum ValidationError {
    EmptyField(String),
    FieldTooLong { field: String, max: usize },
    OutOfRange { field: String, min: u32, max: u32, actual: u32 },
    RequiredField(String),
    DuplicateHotkey(String),
    DuplicateProfileName(String),
}

/// A `ValidationError` with its strings taken by their characters.
pub enum ValidationErrorView {
    EmptyField(Seq<char>),
    FieldTooLong { field: Seq<char>, max: usize },
    OutOfRange { field: Seq<char>, min: u32, max: u32, actual: u32 },
    RequiredField(Seq<char>),
    DuplicateHotkey(Seq<char>),
    DuplicateProfileName(Seq<char>),
}

impl View for ValidationError {
    type V = ValidationErrorView;

    open spec fn view(&self) -> ValidationErrorView {
        match self {
            ValidationError::EmptyField(f) => ValidationErrorView::EmptyField(f@),
            ValidationError::FieldTooLong { field, max } => ValidationErrorView::FieldTooLong {
                field: field@,
                max: *max,
            },
            ValidationError::OutOfRange { field, min, max, actual } =>
                ValidationErrorView::OutOfRange { field: field@, min: *min, max: *max, actual: *actual },
            ValidationError::RequiredField(f) => ValidationErrorView::RequiredField(f@),
            ValidationError::DuplicateHotkey(h) => ValidationErrorView::DuplicateHotkey(h@),
            ValidationError::DuplicateProfileName(n) => ValidationErrorView::DuplicateProfileName(
                n@,
            ),
        }
    }
}

/// The text that describes a validation failure.
pub open spec fn validation_message(v: ValidationErrorView) -> Seq<char> {
    match v {
        ValidationErrorView::EmptyField(f) => "Field '"@ + f + "' cannot be empty"@,
        ValidationErrorView::FieldTooLong { field, max } => "Field '"@ + field
            + "' exceeds maximum length of "@ + decimal_text(max as nat),
        ValidationErrorView::OutOfRange { field, min, max, actual } => "Field '"@ + field
            + "' value "@ + decimal_text(actual as nat) + " is out of range ["@ + decimal_text(
            min as nat,
        ) + ", "@ + decimal_text(max as nat) + "]"@,
        ValidationErrorView::RequiredField(f) => "Required field: "@ + f,
        ValidationErrorView::DuplicateHotkey(h) => "Duplicate hotkey binding: '"@ + h + "'"@,
        ValidationErrorView::DuplicateProfileName(n) => "Profile name '"@ + n
            + "' already exists"@,
    }
}

impl ValidationError {
    /// The text that describes this failure to the user.
    pub fn message(&self) -> (m: String)
        ensures
            m@ == validation_message(self@),
    {
        match self {
            ValidationError::EmptyField(f) => {
                let mut m = String::from_str("Field '");
                m.append(f.as_str());
                m.append("' cannot be empty");
                m
            },
            ValidationError::FieldTooLong { field, max } => {
                let mut m = String::from_str("Field '");
                m.append(field.as_str());
                m.append("' exceeds maximum length of ");
                let n = decimal_string(*max as u64);
                m.append(n.as_str());
                m
            },
            ValidationError::OutOfRange { field, min, max, actual } => {
                let mut m = String::from_str("Field '");
                m.append(field.as_str());
                m.append("' value ");
                let a = decimal_string(*actual as u64);
                m.append(a.as_str());
                m.append(" is out of range [");
                let lo = decimal_string(*min as u64);
                m.append(lo.as_str());
                m.append(", ");
                let hi = decimal_string(*max as u64);
                m.append(hi.as_str());
                m.append("]");
                m
            },
            ValidationError::RequiredField(f) => {
                let mut m = String::from_str("Required field: ");
                m.append(f.as_str());
                m
            },
            ValidationError::DuplicateHotkey(h) => {
                let mut m = String::from_str("Duplicate hotkey binding: '");
                m.append(h.as_str());
                m.append("'");
                m
            },
            ValidationError::DuplicateProfileName(n) => {
                let mut m = String::from_str("Profile name '");
                m.append(n.as_str());
                m.append("' already exists");
                m
            },
        }
    }
}

// ── Engine Error ──────────────────────────────────────────────────────────────

/// Why the click engine refused a command.
#[derive(Debug)]
pub enum EngineError {
    InvalidTransition(String),
    NotRunning,
    AlreadyRunning,
    Validation(ValidationError),
    CooldownActive { remaining_secs: u32 },
}

/// The text that describes an engine refusal.
pub open spec fn engine_message(e: EngineError) -> Seq<char> {
    match e {
        EngineError::InvalidTransition(s) => "Invalid state transition: "@ + s@,
        EngineError::NotRunning => "Engine is not running"@,
        EngineError::AlreadyRunning => "Engine is already running"@,
        EngineError::Validation(v) => "Validation failed: "@ + validation_message(v@),
        EngineError::CooldownActive { remaining_secs } => "Cooldown active, "@ + decimal_text(
            remaining_secs as nat,
        ) + "s remaining"@,
    }
}

impl EngineError {
    /// The text that describes this refusal to the user.
    pub fn message(&self) -> (m: String)
        ensures
            m@ == engine_message(*self),
    {
        match self {
            EngineError::InvalidTransition(s) => {
                let mut m = String::from_str("Invalid state transition: ");
                m.append(s.as_str());
                m
            },
            EngineError::NotRunning => String::from_str("Engine is not running"),
            EngineError::AlreadyRunning => String::from_str("Engine is already running"),
            EngineError::Validation(v) => {
                let mut m = String::from_str("Validation failed: ");
                let inner = v.message();
                m.append(inner.as_str());
                m
            },
            EngineError::CooldownActive { remaining_secs } => {
                let mut m = String::from_str("Cooldown active, ");
                let n = decimal_string(*remaining_secs as u64);
                m.append(n.as_str());
                m.append("s remaining");
                m
            },
        }
    }
}

// ── Persistence Error ─────────────────────────────────────────────────────────

/// Declares `std::io::Error`, the cause carried by a failed profile-file operation.
#[verifier::external_type_specification]
#[verifier::external_body]
pub struct ExIoError(std::io::Error);

/// Why a profile could not be stored or retrieved.
#[derive(Debug)]
pub enum PersistenceError {
    Io(std::io::Error),
    Serialization(String),
    Deserialization(String),
    NotFound(String),
}

// ── Hotkey Error ──────────────────────────────────────────────────────────────

/// Why a hotkey could not be bound or released.
#[derive(Debug)]
pub enum HotkeyError {
    Registration(String, String),
    Unregistration(String, String),
    Conflict(String),
}

// ── Input Error ───────────────────────────────────────────────────────────────

/// Why synthesized input or an input query failed.
#[derive(Debug)]
pub enum InputError {
    ClickFailed(String),
    PositionQueryFailed(String),
    FocusDetectionFailed(String),
}

} // verus!
