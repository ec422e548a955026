pub mod errors;
pub mod events;
pub mod profile;
pub mod session;
pub mod settings;
