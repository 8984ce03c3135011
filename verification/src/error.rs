use vstd::prelude::*;

verus! {

/// The exit of a finished process, as plain data: `code` is the numeric
/// exit code, or `None` when the process was ended without one (for
/// example by a signal).
#[derive(Debug, Clone, Copy, PartialEq)]
pub struct ExitInfo {
    pub code: Option<i32>,
}

impl ExitInfo {
    /// A zero exit code is the only successful outcome.
    pub open spec fn is_success(self) -> bool {
        self.code == Some(0i32)
    }

    pub fn success(&self) -> (r: bool)
        ensures
            r == self.is_success(),
    {
        match self.code {
            Some(c) => c == 0,
            None => false,
        }
    }
}

/// What can go wrong while driving the inspection command.
#[derive(Debug, Clone, Copy, PartialEq)]
pub enum SvnError {
    /// The process could not be spawned, or reading its pipe failed.
    CommandError,
    /// The process ran to completion but returned a non-zero exit status.
    ExitFailure(ExitInfo),
    /// Output that does not match the expected format.
    ParseError,
}

} // verus!
