use vstd::prelude::*;

verus! {

/// Classification of a request that did not end in a plain program exit.
#[derive(Clone, Copy, Debug, PartialEq, Eq, Structural)]
pub enum ErrorKind {
    /// The language identifier is not in the registry.
    UnsupportedLanguage,
    /// Staging the source or disposing of the workspace failed.
    WorkspaceIo,
    /// A build step exited with a non-zero status.
    CompileError,
    /// A build or run step exceeded its deadline.
    TimedOut,
    /// A process could not be spawned, or another system fault occurred.
    Infrastructure,
}

impl ErrorKind {
    pub open spec fn status_spec(self) -> u16 {
        match self {
            ErrorKind::UnsupportedLanguage => 400,
            ErrorKind::WorkspaceIo => 500,
            ErrorKind::CompileError => 200,
            ErrorKind::TimedOut => 408,
            ErrorKind::Infrastructure => 500,
        }
    }

    /// The HTTP status under which a transport layer reports this error.
    /// A compile error is data for the caller, so it travels with status 200.
    pub fn http_status(&self) -> (r: u16)
        ensures
            r == self.status_spec(),
    {
        match self {
            ErrorKind::UnsupportedLanguage => 400,
            ErrorKind::WorkspaceIo => 500,
            ErrorKind::CompileError => 200,
            ErrorKind::TimedOut => 408,
            ErrorKind::Infrastructure => 500,
        }
    }
}

} // verus!
