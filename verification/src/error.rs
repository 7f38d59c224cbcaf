use vstd::prelude::*;

verus! {

/// The errors the library surfaces. Storage faults, protocol-level
/// failures and an uninitialized store are kept distinct.
#[derive(Debug)]
pub enum Error {
    /// The underlying storage reported a fault.
    Storage(String),
    /// A stored record could not be decoded.
    CorruptRecord(String),
    /// The store holds no account credentials yet.
    Uninitialized,
    /// No one-time pre-key is stored under the requested id.
    UnknownPreKey,
    /// No signed pre-key is stored under the requested id.
    UnknownSignedPreKey,
    /// No session is stored for the requested address.
    MissingSession,
    /// The provisioning handshake ended before an envelope arrived.
    ProvisioningFailed,
    /// The device set kept changing and the retry budget ran out.
    ReconciliationDidNotConverge,
    /// The server answered with a failure status and body.
    HttpError(u16, String),
    /// The server answered with the retired failure status.
    DeprecatedHttpError(String),
    /// A configuration value could not be used.
    ConfigError(String),
}

impl Error {
    /// A short description of the error, for display by a caller.
    pub fn message(&self) -> String {
        match self {
            Error::Storage(s) => s.clone(),
            Error::CorruptRecord(s) => s.clone(),
            Error::Uninitialized => "app state is not initialized".to_string(),
            Error::UnknownPreKey => "no such pre-key".to_string(),
            Error::UnknownSignedPreKey => "no such signed pre-key".to_string(),
            Error::MissingSession => "no session for this address".to_string(),
            Error::ProvisioningFailed => "provisioning failed".to_string(),
            Error::ReconciliationDidNotConverge => "device set did not converge".to_string(),
            Error::HttpError(_, s) => s.clone(),
            Error::DeprecatedHttpError(s) => s.clone(),
            Error::ConfigError(s) => s.clone(),
        }
    }
}

} // verus!
