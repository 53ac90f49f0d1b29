//! Installs a local public key into a remote account's authorized-keys file.
//!
//! The library holds the decisions of the tool: how the key text is resolved,
//! what the authorized-keys file holds after a run, and the order in which the
//! session is opened, authenticated and used. The network session itself, the
//! terminal and the local file system are driven by the caller.
use vstd::prelude::*;

pub mod authorized_keys;
pub mod error;
pub mod key;
pub mod run;
pub mod session;

verus! {

} // verus!
