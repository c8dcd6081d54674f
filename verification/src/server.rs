//! Process-wide launch/stop protocol.
//!
//! A process runs at most one server.  The runtime that actually binds the
//! socket and spawns tasks lives outside; it keeps a `ServerStatus` value and
//! consults these transition functions, which decide whether a launch or a
//! stop is allowed and what the bind address is.

use vstd::prelude::*;
use vstd::string::StringExecFns;

verus! {

/// Whether the process-wide server has ever been launched, and whether it is
/// live now.
#[derive(Clone, Copy, Debug, PartialEq, Eq)]
pub enum ServerStatus {
    NeverStarted,
    Running,
    Stopped,
}

/// Why a launch or a stop was refused.
#[derive(Clone, Copy, Debug, PartialEq, Eq)]
pub enum ServerError {
    AlreadyRunning,
    NeverStarted,
    NotRunning,
}

impl ServerError {
    /// The status text the peer is shown, matching the launch/stop protocol.
    pub fn message(&self) -> (r: &'static str)
        ensures
            *self is AlreadyRunning ==> r@ == "server already running"@,
            *self is NeverStarted ==> r@ == "server was never started"@,
            *self is NotRunning ==> r@ == "server is not running"@,
    {
        match self {
            ServerError::AlreadyRunning => "server already running",
            ServerError::NeverStarted => "server was never started",
            ServerError::NotRunning => "server is not running",
        }
    }
}

/// Decide a launch request: refused while the server is running, otherwise
/// the server becomes running and the caller receives the local address to
/// bind, `127.0.0.1:<port>`.
pub fn call_launch_server(status: &mut ServerStatus, port: &str) -> (r: Result<
    String,
    ServerError,
>)
    ensures
        *old(status) is Running ==> r == Result::<String, ServerError>::Err(
            ServerError::AlreadyRunning,
        ) && *final(status) is Running,
        !(*old(status) is Running) ==> *final(status) is Running && r is Ok
            && r.unwrap()@ == "127.0.0.1:"@ + port@,
{
    match status {
        ServerStatus::Running => Err(ServerError::AlreadyRunning),
        _ => {
            *status = ServerStatus::Running;
            Ok(String::from_str("127.0.0.1:").concat(port))
        },
    }
}

/// Decide a stop request: allowed exactly when the server is running.
pub fn call_stop_server(status: &mut ServerStatus) -> (r: Result<(), ServerError>)
    ensures
        *old(status) is Running ==> r is Ok && *final(status) is Stopped,
        *old(status) is NeverStarted ==> r == Result::<(), ServerError>::Err(
            ServerError::NeverStarted,
        ) && *final(status) is NeverStarted,
        *old(status) is Stopped ==> r == Result::<(), ServerError>::Err(ServerError::NotRunning)
            && *final(status) is Stopped,
{
    match status {
        ServerStatus::Running => {
            *status = ServerStatus::Stopped;
            Ok(())
        },
        ServerStatus::NeverStarted => Err(ServerError::NeverStarted),
        ServerStatus::Stopped => Err(ServerError::NotRunning),
    }
}

} // verus!
