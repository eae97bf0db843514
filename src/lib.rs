//! Keeps a set of managed configuration files linked into the places where
//! programs look for them, and reconciles what is on disk with that goal.
pub mod state;
pub mod reconcile;
pub mod laws;
pub mod catalog;
pub mod resolve;
pub mod privilege;
pub mod commands;
