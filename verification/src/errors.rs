use vstd::prelude::*;
use vstd::string::StringExecFns;

verus! {

/// Errors of the server lifecycle.
///
/// `AlreadyRunning` is this component's own invariant being defended: a
/// `start` while a server is live. `NotRunning` is a `stop` with no live
/// server. `BindFailed` is an external resource conflict: the fixed port is
/// held by a foreign process.
#[derive(Clone, Copy, Debug, PartialEq, Eq, Structural)]
pub enum LifecycleError {
    AlreadyRunning,
    NotRunning,
    BindFailed,
}

impl LifecycleError {
    /// The descriptive message handed back to the host shell.
    pub fn message(&self) -> (r: String)
        ensures
            *self is AlreadyRunning ==> r@ == "Server is already running"@,
            *self is NotRunning ==> r@ == "No server running"@,
            *self is BindFailed ==> r@ == "Failed to bind 127.0.0.1:8080"@,
    {
        match self {
            LifecycleError::AlreadyRunning => String::from_str("Server is already running"),
            LifecycleError::NotRunning => String::from_str("No server running"),
            LifecycleError::BindFailed => String::from_str("Failed to bind 127.0.0.1:8080"),
        }
    }
}

} // verus!
