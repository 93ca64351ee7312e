use vstd::prelude::*;

use crate::text::joined;

verus! {

/// The class of a failure, without its text.
#[derive(Clone, Copy, Debug, PartialEq, Eq, Structural)]
pub enum ErrorKind {
    CommandFailed,
    UnsupportedPlatform,
    ConfigError,
    NetworkError,
}

/// Why an operation did not go through.
///
/// `CommandFailed` carries the error text of the external tool verbatim,
/// `UnsupportedPlatform` says that the verb has no implementation on the
/// active backend, `ConfigError` reports misuse at the level of the caller
/// or the store, and `NetworkError` a failed query.
#[derive(Debug)]
pub enum NetMgrError {
    CommandFailed(String),
    UnsupportedPlatform(String),
    ConfigError(String),
    NetworkError(String),
}

impl NetMgrError {
    /// The class of this error.
    pub open spec fn kind_spec(&self) -> ErrorKind {
        match self {
            NetMgrError::CommandFailed(_) => ErrorKind::CommandFailed,
            NetMgrError::UnsupportedPlatform(_) => ErrorKind::UnsupportedPlatform,
            NetMgrError::ConfigError(_) => ErrorKind::ConfigError,
            NetMgrError::NetworkError(_) => ErrorKind::NetworkError,
        }
    }

    /// The text that the error carries.
    pub open spec fn detail(&self) -> Seq<char> {
        match self {
            NetMgrError::CommandFailed(s) => s@,
            NetMgrError::UnsupportedPlatform(s) => s@,
            NetMgrError::ConfigError(s) => s@,
            NetMgrError::NetworkError(s) => s@,
        }
    }

    /// Whether the error is of class `kind` and carries exactly `detail`.
    pub open spec fn is(&self, kind: ErrorKind, detail: Seq<char>) -> bool {
        self.kind_spec() == kind && self.detail() == detail
    }

    /// The heading under which an error of class `kind` is shown.
    pub open spec fn heading(kind: ErrorKind) -> Seq<char> {
        match kind {
            ErrorKind::CommandFailed => "Command execution failed: "@,
            ErrorKind::UnsupportedPlatform => "Platform not supported: "@,
            ErrorKind::ConfigError => "Configuration error: "@,
            ErrorKind::NetworkError => "Network operation failed: "@,
        }
    }

    #[verifier::when_used_as_spec(kind_spec)]
    pub fn kind(&self) -> (k: ErrorKind)
        ensures
            k == self.kind_spec(),
    {
        match self {
            NetMgrError::CommandFailed(_) => ErrorKind::CommandFailed,
            NetMgrError::UnsupportedPlatform(_) => ErrorKind::UnsupportedPlatform,
            NetMgrError::ConfigError(_) => ErrorKind::ConfigError,
            NetMgrError::NetworkError(_) => ErrorKind::NetworkError,
        }
    }

    /// The line shown to the operator: the heading of the class, then the
    /// text the error carries.
    pub fn message(&self) -> (m: String)
        ensures
            m@ == Self::heading(self.kind()) + self.detail(),
    {
        match self {
            NetMgrError::CommandFailed(s) => joined("Command execution failed: ", s.as_str()),
            NetMgrError::UnsupportedPlatform(s) => joined("Platform not supported: ", s.as_str()),
            NetMgrError::ConfigError(s) => joined("Configuration error: ", s.as_str()),
            NetMgrError::NetworkError(s) => joined("Network operation failed: ", s.as_str()),
        }
    }
}

} // verus!
