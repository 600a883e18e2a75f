//! Recurring chores: recurrence expansion, instance lifecycle and read-time
//! status derivation, each stated as a contract and proved.

pub mod config;
pub mod flash;
pub mod generator;
pub mod instance;
pub mod listing;
pub mod recurrence;
pub mod status;
pub mod store;
pub mod text;
pub mod weather;
pub mod zone;
