//! Scheduling, batch dispatch and rule evaluation for a personal mail
//! automation assistant.
//!
//! Instants are whole seconds since the Unix epoch, in UTC.

pub mod campaign;
pub mod clock;
pub mod contacts;
pub mod inbox;
pub mod models;
pub mod personalize;
pub mod recurrence;
pub mod rules;
pub mod scheduler;
pub mod text;
