//! The typed errors the shell adapter surfaces to its callers.

use vstd::prelude::*;

verus! {

/// Everything that can go wrong in the shell adapter. All failures are
/// returned as values of this type; none are panics.
#[derive(Debug)]
pub enum ShellError {
    /// A shell subprocess could not be spawned, or ran without producing
    /// what was asked of it; carries the underlying description.
    FailedToExecuteCommand(String),
    /// The append subprocess ran but exited unsuccessfully; carries the
    /// exit code when the operating system reported one.
    FailedToAddCommandToHistory(Option<i32>),
    /// Opening or reading the history file failed; carries the I/O error
    /// text.
    FailedToReadShellHistory(String),
    /// An explicit shell-name override did not match a supported variant;
    /// carries the rejected name.
    UnsupportedShellType(String),
    /// A required host attribute (OS name or CPU architecture) could not
    /// be determined.
    FailedToExtractSystemInfo(String),
}

} // verus!
