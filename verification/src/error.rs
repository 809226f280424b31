//! Errors of the host and the deployer.

use vstd::prelude::*;

verus! {

/// Why a host or deployer call was refused. Errors abort the whole call:
/// callers retain no partial state. Failures inside packet handling never
/// surface here; they become failure acknowledgements instead.
#[derive(Clone, Debug, PartialEq, Eq)]
pub enum HostError {
    /// A supplied address is malformed, or an update came from outside the
    /// admin.
    ConfigError,
    /// A packet payload could not be decoded into an action.
    DecodeError,
    /// No proxy is registered on this host for the sending tenant.
    UnknownProxy,
    /// No handler is installed for this action in this context.
    UnsupportedAction,
    /// The (module id, version) pair is already registered.
    AlreadyDeployed,
    /// An artifact upload was refused by the registry side.
    UploadError,
    /// A registration was refused by the registry side.
    RegistrationError,
    /// A reply arrived under a correlation id that is unknown or already
    /// consumed.
    UnknownCorrelation,
}

} // verus!
