//! The error taxonomy of the orchestration core.

use vstd::prelude::*;
use vstd::string::StringExecFns;

verus! {

/// Everything that can go wrong inside the orchestration core.
///
/// Configuration errors (an unresolvable mode, a malformed invocation line, a
/// mode missing from the cycle list) and the substitution error are fatal to
/// the session; a provider action error is logged by the caller and the
/// session still ends normally.
#[derive(Debug)]
pub enum Error {
    /// The mode name of an invocation is not one of the compiled-in modes.
    UnknownMode { name: String },
    /// A flag that takes a value stood last on the command line.
    MissingFlagValue { flag: String },
    /// A token that the active mode does not accept.
    UnexpectedArgument { arg: String },
    /// A fresh invocation named no mode at all.
    MissingMode,
    /// The current mode does not occur in the enabled-mode list.
    ModeNotInCycleList,
    /// A re-invocation template asked for the selection token with nothing
    /// selected.
    NoSelectionToSubstitute,
    /// A provider action was requested with no selected item to act on.
    NoItemSelected,
}

impl Error {
    /// A provider action error is reported and logged but never fails the
    /// process; every other error is fatal.
    pub open spec fn spec_is_action_error(&self) -> bool {
        self is NoItemSelected
    }

    pub fn is_action_error(&self) -> (r: bool)
        ensures
            r == self.spec_is_action_error(),
    {
        match self {
            Error::NoItemSelected => true,
            _ => false,
        }
    }

    /// A short description of the error for the user.
    pub fn message(&self) -> (r: String)
        ensures
            match self {
                Error::UnknownMode { name } => r@ == "unknown mode: "@ + name@,
                Error::MissingFlagValue { flag } => r@ == "missing value for "@ + flag@,
                Error::UnexpectedArgument { arg } => r@ == "unexpected argument: "@ + arg@,
                Error::MissingMode => r@ == "no mode given"@,
                Error::ModeNotInCycleList => r@ == "Current mode not found in enabled modes"@,
                Error::NoSelectionToSubstitute => r@ == "no selection to substitute"@,
                Error::NoItemSelected => r@ == "Could not find selected item"@,
            },
    {
        match self {
            Error::UnknownMode { name } => {
                let mut s = "unknown mode: ".to_owned();
                s.append(name.as_str());
                s
            },
            Error::MissingFlagValue { flag } => {
                let mut s = "missing value for ".to_owned();
                s.append(flag.as_str());
                s
            },
            Error::UnexpectedArgument { arg } => {
                let mut s = "unexpected argument: ".to_owned();
                s.append(arg.as_str());
                s
            },
            Error::MissingMode => "no mode given".to_owned(),
            Error::ModeNotInCycleList => "Current mode not found in enabled modes".to_owned(),
            Error::NoSelectionToSubstitute => "no selection to substitute".to_owned(),
            Error::NoItemSelected => "Could not find selected item".to_owned(),
        }
    }
}

} // verus!
