//! What a system, a turtle and a trace can do.

pub mod action_model;
pub mod cursor_model;
pub mod render_model;
pub mod rules_model;
pub mod trace_model;
