//! The result protocol of one picker session: what the engine reports back,
//! and what the orchestrator asks its caller to perform.

use crate::item::Item;
use vstd::prelude::*;

verus! {

/// The outcome of one picker session. Exactly one event is produced per
/// session; only `AcceptedWithCommand` carries a re-invocation template.
pub enum ResultEvent {
    /// The user left the session without accepting.
    Aborted,
    /// The user accepted a selection; the provider's local action follows.
    AcceptedWithSelection { selected: Vec<Item>, query: String, command: String },
    /// An accept keybinding carried a re-invocation template; the session
    /// chains into another one.
    AcceptedWithCommand { template: String, selected: Vec<Item>, query: String, command: String },
}

/// A provider's terminal action, described as plain data for the caller to
/// perform outside the session.
pub enum Action {
    /// Nothing left to do.
    Nothing,
    /// Launch the program at the path, detached from the session.
    LaunchDetached { exe: String },
    /// Focus the window named by the compositor dispatch argument.
    FocusWindow { address_arg: String },
    /// Evaluate the expression, then show and remember its formatted result.
    EvaluateAndStore { expr: String },
}

/// A veto from provider initialisation: the interactive session is skipped
/// and this action is performed instead.
pub enum VetoAction {
    /// Evaluate the expression and print the result.
    PrintEvaluated { expr: String },
    /// Swap the hidden target window with the current one.
    SwapWindows { target: String, ignore_class: Option<String> },
}

/// What provider initialisation decides before any interface is shown.
pub enum InitOutcome {
    /// Run the interactive session.
    Proceed,
    /// Skip the session and perform the veto action instead.
    Veto(VetoAction),
}

} // verus!
