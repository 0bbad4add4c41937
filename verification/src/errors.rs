//! Error taxonomy of the machine.

use vstd::prelude::*;

verus! {

/// Reason why guest execution aborted instead of finishing normally.
#[derive(Debug, PartialEq)]
pub enum Trap {
    /// The engine reported an abnormal termination, with its description.
    Aborted(String),
    /// The engine requested an import by an index the module does not
    /// declare; the payload is that index.
    UnknownImport(usize),
}

/// Fatal construction-time error: the module cannot be made runnable.
#[derive(Debug, PartialEq)]
pub enum NewErr {
    /// The resolver could not assign an identifier to a function import.
    UnresolvedFunctionImport {
        /// Name of the module the import was requested from.
        module: String,
        /// Name of the imported function within that module.
        name: String,
    },
    /// The module declares an import that is not a function; only function
    /// imports are supported.
    UnsupportedImportKind {
        /// Name of the module the import was requested from.
        module: String,
        /// Name of the imported item within that module.
        name: String,
    },
    /// The module does not export an entry point.
    StartNotFound,
    /// The export designated as the entry point is not a function.
    StartIsntAFunction,
}

/// Error when starting a thread.
#[derive(Clone, Copy, Debug, PartialEq, Eq, Structural)]
pub enum StartErr {
    /// No thread with the requested identifier can be started; only the
    /// single main thread created at construction exists.
    InvalidThreadId,
}

/// Error when attempting to run a thread.
#[derive(Clone, Copy, Debug, PartialEq, Eq, Structural)]
pub enum RunErr {
    /// The machine's guest program has already finished or trapped; it can
    /// never run again.
    Poisoned,
    /// The resume value's presence does not match what the suspended import
    /// call declares: a value was passed where none was expected, or none
    /// where one was.
    BadResumeValue {
        /// Whether the suspended call expected a resume value.
        expected_value: bool,
    },
}

} // verus!
