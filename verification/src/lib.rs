//! A verified core for hot-reloadable WebAssembly scripting.
//!
//! Raw module bytes move through a three-state lifecycle — loaded, compiled,
//! instantiated — driven by asset events and consumer changes.  Compilation,
//! linking and export calls go through the wasmer runtime; everything around
//! those calls (the lifecycle state machine, change tracking, call dispatch
//! and its error classification, and the deferred command queue) is verified.

pub mod calls;
pub mod commands;
pub mod engine;
pub mod registry;
pub mod tracker;
pub mod script;
pub mod values;
