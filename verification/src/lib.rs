//! Reconciliation engine for moving installed packages between lifecycle
//! states (enabled / disabled / uninstalled) on remote devices reached
//! through a line-oriented debug bridge.
//!
//! The engine is pure: every transport interaction (running a shell command
//! on a device, querying a property, listing users or packages) is performed
//! by the caller, which hands the observed results to the functions here.
//! This crate decides — it synthesizes command sequences, classifies observed
//! package states, detects cross-user side effects, plans fallback repairs,
//! drives the bounded discovery retry state machine, and translates raw
//! error text into diagnostics.

pub mod commands;
pub mod cross_user;
pub mod discovery;
pub mod errors;
pub mod fallback;
pub mod model;
pub mod state;
pub mod strings;

