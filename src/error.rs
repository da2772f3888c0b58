use vstd::prelude::*;

verus! {

/// What went wrong, by kind.
#[derive(Clone, Copy, PartialEq, Eq, Structural, Debug)]
pub enum SyncError {
    /// A required setting (client id, client secret, redirect URI) is absent.
    Config,
    /// The token exchange failed or its reply was malformed.
    Auth,
    /// A token could not be written, read or removed.
    Storage,
    /// A request did not reach the service.
    Network,
    /// The service answered with a failure status or a malformed payload.
    Api,
    /// The operation was attempted on a slot in the wrong state.
    Precondition,
}

impl SyncError {
    /// A human-readable description of the error kind.
    pub fn message(&self) -> (r: &'static str) {
        match self {
            SyncError::Config => "missing configuration",
            SyncError::Auth => "authorization failed",
            SyncError::Storage => "token storage failed",
            SyncError::Network => "request failed",
            SyncError::Api => "unexpected reply from the service",
            SyncError::Precondition => "the account is not ready for this operation",
        }
    }
}

} // verus!
