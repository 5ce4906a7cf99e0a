//! Panes, their scrolling state and what they ask of the application.

pub mod layout;
pub mod widgets;

pub use layout::Area;
pub use widgets::{DiffView, DiffViewState, PreviewContent};
