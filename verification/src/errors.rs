//! Error kinds of the relay.
//!
//! Every failure is a value of one of these enums.  Startup failures are
//! fatal; per-connection failures are contained by the task that owns the
//! connection and never reach the supervisor.

use vstd::prelude::*;
use vstd::string::StringExecFns;

verus! {

/// The error kinds of the relay core.
///
/// `Config` and `Sam` are fatal at startup.  `Prelude`, `Witness`,
/// `VerificationFailed`, `Adapter`, `BackendConnect` and `Splice` end a
/// single connection.  `Listener` makes the supervisor re-bind.
#[derive(Clone, Copy, Debug, PartialEq, Eq, Structural)]
pub enum RelayError {
    /// Missing file, malformed configuration, or an unknown
    /// destination or tunnel name.
    Config,
    /// The SAM bridge is unreachable or refused a session or a bind.
    Sam,
    /// The leading prelude byte of an accepted stream could not be read.
    Prelude,
    /// The witness read returned no bytes, malformed digits, or more
    /// than the wire buffer admits.
    Witness,
    /// The witness did not satisfy the delay puzzle.
    VerificationFailed,
    /// The accepted stream could not be re-registered as asynchronous.
    Adapter,
    /// The configured TCP backend could not be dialed.
    BackendConnect,
    /// An I/O error while copying one splice direction.
    Splice,
    /// `accept` on the overlay listener returned an error.
    Listener,
}

impl RelayError {
    /// A short diagnostic text for logs.
    pub fn describe(&self) -> &'static str {
        match self {
            RelayError::Config => "configuration error",
            RelayError::Sam => "sam bridge error",
            RelayError::Prelude => "failed to read the prelude byte",
            RelayError::Witness => "malformed or missing witness",
            RelayError::VerificationFailed => "witness failed verification",
            RelayError::Adapter => "failed to adapt the overlay stream",
            RelayError::BackendConnect => "failed to connect to the backend",
            RelayError::Splice => "splice i/o error",
            RelayError::Listener => "accept failed on the overlay listener",
        }
    }
}

/// The usage complaint for an unknown subcommand under `command`.
pub fn invalid_subcommand(command: &str) -> (r: String)
    ensures
        r@ == "invalid subcommand "@ + command@ + ", please run --help for more information"@,
{
    let mut s = String::from_str("invalid subcommand ");
    s.append(command);
    s.append(", please run --help for more information");
    s
}

} // verus!
