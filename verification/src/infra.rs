pub mod clock;
pub mod hotkeys;
pub mod ids;
pub mod input_driver;
pub mod persistence;
