pub mod click_engine;
pub mod conditions;
pub mod safety;
pub mod scheduler;
