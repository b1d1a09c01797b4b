pub mod checklist;
pub mod diagnostic;
