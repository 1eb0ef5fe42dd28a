//! The failures of the identity and access-control core, and the response
//! status that each one stands for.

use crate::config::EnvVar;
use vstd::prelude::*;

verus! {

/// Why a token string was not accepted.
#[derive(Clone, Copy, Debug, PartialEq, Eq, Structural)]
pub enum TokenError {
    /// The string is not of the signed structure that tokens have.
    Malformed,
    /// The signature is not the one that the configured secret gives.
    BadSignature,
    /// The token's expiry lies before the time of the check.
    Expired,
}

/// Why a request was not let through.
#[derive(Clone, Copy, Debug, PartialEq, Eq, Structural)]
pub enum AuthError {
    /// A handler asked for the request's context and none was attached.
    MissingContext,
    /// A bearer credential was sent and did not validate.
    InvalidToken,
    /// The token is valid, but no principal has its user id.
    UnknownPrincipal,
    /// The policy denies the action.
    Forbidden,
    /// The external identity's email belongs to no principal.
    NoSuchPrincipal,
}

/// Where the external-identity login failed.
#[derive(Clone, Copy, Debug, PartialEq, Eq, Structural)]
pub enum OAuthError {
    /// `code` or `state` is absent from the callback.
    MissingParameter,
    /// The code could not be exchanged for an access token.
    ExchangeFailed,
    /// The profile could not be fetched, or the reply was no success.
    ProfileFetchFailed,
    /// The profile's body could not be read.
    ProfileParseFailed,
}

/// A reference between records that leads nowhere.
#[derive(Clone, Copy, Debug, PartialEq, Eq, Structural)]
pub enum IntegrityError {
    /// A record on the parent chain does not exist.
    NotFound,
}

/// Every failure that ends a request.
#[derive(Clone, Copy, Debug, PartialEq, Eq, Structural)]
pub enum Error {
    /// The named environment variable is not set, or its value is unusable.
    ReadEnvError(EnvVar),
    /// A configured value cannot be used: an address of the identity
    /// service that is no URL, or a token lifetime that leads past the last
    /// second that the clock can hold.
    MiscError,
    /// A token was not accepted.
    Token(TokenError),
    /// A request was not let through.
    Auth(AuthError),
    /// The login through the identity service failed.
    OAuth(OAuthError),
    /// A record refers to one that does not exist.
    Integrity(IntegrityError),
}

/// The result type of this crate.
pub type Result<T> = core::result::Result<T, Error>;

impl Error {
    /// The response status that the failure stands for: 401 where the caller
    /// is not authenticated, be it for want of a context, for a token that
    /// is not accepted or for a principal that is not there; 403 where the
    /// policy denies; 404 for a broken reference; 400 for a callback that
    /// lacks a parameter; 502 where the identity service failed; and 500
    /// where the configuration is at fault.
    pub open spec fn spec_status(self) -> u16 {
        match self {
            Error::Auth(AuthError::Forbidden) => 403,
            Error::Auth(_) => 401,
            Error::Token(_) => 401,
            Error::Integrity(IntegrityError::NotFound) => 404,
            Error::OAuth(OAuthError::MissingParameter) => 400,
            Error::OAuth(_) => 502,
            Error::ReadEnvError(_) => 500,
            Error::MiscError => 500,
        }
    }

    /// The response status of the failure.
    pub fn status(&self) -> (code: u16)
        ensures
            code == self.spec_status(),
    {
        match self {
            Error::Auth(AuthError::Forbidden) => 403,
            Error::Auth(_) => 401,
            Error::Token(_) => 401,
            Error::Integrity(IntegrityError::NotFound) => 404,
            Error::OAuth(OAuthError::MissingParameter) => 400,
            Error::OAuth(_) => 502,
            Error::ReadEnvError(_) => 500,
            Error::MiscError => 500,
        }
    }
}

} // verus!
