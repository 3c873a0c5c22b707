//! The errors that authentication and the handlers built on it return.

use vstd::prelude::*;

verus! {

/// Why a request was turned away.
#[derive(Debug, Clone, Copy, PartialEq, Eq, Structural)]
pub enum ErrorType {
    /// The API token does not have the shape `patrv1.<id>.<id>`.
    MalformedApiToken,
    /// The session token could not be decoded, or names another issuer or
    /// audience.
    MalformedAccessToken,
    /// The credential is unknown, not yet valid, expired, revoked, or its
    /// secret is wrong. The cases are deliberately not told apart.
    AuthorizationTokenInvalid,
    /// The API token is valid but was presented from an address outside its
    /// allow-list.
    DisallowedIpAddressForApiToken,
    /// An internal fault, such as a stored hash that cannot be read.
    ServerError,
    /// The resource does not exist, or the requester may not know that it does.
    ResourceDoesNotExist,
    /// The workspace still owns resources and cannot be deleted.
    WorkspaceNotEmpty,
}

} // verus!
