//! Review navigation engine: diff parsing, timeline, viewport and dispatch logic.

pub mod app;
pub mod event;
pub mod git;
pub mod github;
pub mod text;
pub mod ui;
