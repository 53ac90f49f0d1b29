//! The ways a run can fail.
use vstd::prelude::*;

verus! {

/// Why a run stopped. Every one of these ends the run; none is retried.
#[derive(Debug, Clone, Copy, PartialEq, Eq, Structural)]
pub enum ProvisionError {
    /// The home directory, where the default key lives, is unknown.
    HomeNotFound,
    /// The local public key file does not exist.
    KeyNotFound,
    /// The local public key file holds nothing but whitespace.
    KeyEmpty,
    /// No remote user name was given.
    MissingUser,
    /// No remote host was given.
    MissingHost,
    /// The network connection to the host could not be opened.
    ConnectionError,
    /// The secure-session negotiation failed.
    HandshakeError,
    /// Neither agent nor password authentication gave an authenticated session.
    AuthenticationFailed,
    /// The remote setup command, or its channel, failed.
    RemoteCommandError,
    /// The remote authorized-keys file could not be read or written.
    RemoteFileError,
}

} // verus!
