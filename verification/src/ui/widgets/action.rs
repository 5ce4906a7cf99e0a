//! Widget actions - what widgets report happened
//!
//! These actions define the interface between widgets and App.

use vstd::prelude::*;

verus! {

/// Actions that widgets can return from key handling.
/// App dispatches these to update other state.
#[derive(Debug, Clone, PartialEq)]
pub enum Action {
    /// No action, key was handled internally
    Handled,
    /// Key was not handled, pass to parent
    Ignored,
    /// File was selected (Enter on file)
    FileSelected(String),
    /// PR was selected
    PrSelected(u64),
    /// Checkout PR
    CheckoutPr(u64),
    /// Open review modal
    OpenReviewModal(ReviewActionType),
}

/// Types of review actions
#[derive(Debug, Clone, PartialEq)]
pub enum ReviewActionType {
    Approve { pr_number: u64 },
    RequestChanges { pr_number: u64 },
    Comment { pr_number: u64 },
    LineComment { pr_number: u64, path: String, line: u32 },
}

impl ReviewActionType {
    /// The pull request that the review action is about.
    pub open spec fn spec_pr_number(self) -> u64 {
        match self {
            ReviewActionType::Approve { pr_number } => pr_number,
            ReviewActionType::RequestChanges { pr_number } => pr_number,
            ReviewActionType::Comment { pr_number } => pr_number,
            ReviewActionType::LineComment { pr_number, .. } => pr_number,
        }
    }

    pub fn pr_number(&self) -> (n: u64)
        ensures
            n == self.spec_pr_number(),
    {
        match self {
            ReviewActionType::Approve { pr_number } => *pr_number,
            ReviewActionType::RequestChanges { pr_number } => *pr_number,
            ReviewActionType::Comment { pr_number } => *pr_number,
            ReviewActionType::LineComment { pr_number, .. } => *pr_number,
        }
    }
}

impl Action {
    /// An action other than `Handled` and `Ignored` names an effect on another pane.
    pub open spec fn spec_is_cross_pane(self) -> bool {
        !(self is Handled) && !(self is Ignored)
    }

    /// Whether the application has to act on the action.
    pub fn is_cross_pane(&self) -> (b: bool)
        ensures
            b == self.spec_is_cross_pane(),
    {
        match self {
            Action::Handled => false,
            Action::Ignored => false,
            _ => true,
        }
    }

    /// Whether the pane left the key to the pane-agnostic bindings.
    pub fn is_ignored(&self) -> (b: bool)
        ensures
            b == (*self is Ignored),
    {
        match self {
            Action::Ignored => true,
            _ => false,
        }
    }
}

} // verus!
