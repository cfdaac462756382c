//! The Valkyrie protocol settings that the governance contract holds.
pub mod contracts;
pub mod executions;
pub mod queries;
pub mod state;
pub mod states;
