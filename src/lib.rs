//! Scaffolding of a new software project, as a verified state machine: each
//! step names the action to perform, and the outcome of that action decides
//! the next step.

pub mod app;
pub mod laws;
pub mod software;
pub mod text;
