//! Per-application display automation: a profile matcher, the automation
//! state machine that decides when to switch or revert the display mode and
//! when to confine the cursor, and the pure helpers around display modes,
//! cursor geometry and process listings.

pub mod display;
pub mod matcher;
pub mod config;
pub mod engine;
pub mod geometry;
pub mod processes;
pub mod laws;
