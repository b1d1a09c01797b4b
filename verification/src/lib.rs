//! The logic of a terminal checklist for a cargo project: the diagnostics
//! that `cargo check` reports, how they are ordered and shown, and the
//! cursor over the checklist's entries.

pub mod actor;
pub mod app;
pub mod cg_check;
pub mod components;
pub mod diagnostics;
pub mod events;
pub mod message;
pub mod review_req_checklist;
pub mod style;
