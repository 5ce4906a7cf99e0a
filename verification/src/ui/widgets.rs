//! The panes of the review screen.

pub mod action;
pub mod diff_view;
pub mod help;
pub mod pr_list;
pub mod viewport;

pub use action::{Action, ReviewActionType};
pub use diff_view::{DiffLine, DiffLineView, DiffView, DiffViewState, LineType, PreviewContent};
pub use help::{HelpModal, HelpModalState};
pub use pr_list::{truncate, PrListModal, PrListState};
