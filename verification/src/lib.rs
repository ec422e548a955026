//! Core logic of a configurable autoclicker: click profiles and their
//! validation, the run-session state machine, the click engine's decisions,
//! stationary-start detection, safety guardrails, interval scheduling and
//! hotkey parsing.
pub mod app;
pub mod domain;
pub mod engine;
pub mod infra;
pub mod release;
pub mod text;
