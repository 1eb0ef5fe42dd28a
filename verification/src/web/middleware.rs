//! The context resolver: what happens to a request before any handler
//! sees it.
//!
//! A request without a bearer credential goes on without a context. One
//! with a credential goes on only if the token validates and its principal
//! exists; it is never downgraded to a request without a credential.

use crate::ctx::{Context, ContextView};
use crate::error::{AuthError, Error, Result};
use crate::schema::User;
use crate::token::{validate_spec, TokenCodec};
use vstd::prelude::*;

pub use crate::token::Claims;

verus! {

/// What the resolver makes of a bearer credential at time `now`: nothing
/// where there is none, the token's claims where it validates, and a
/// failure where it does not.
pub open spec fn resolved(bearer: Option<Seq<u8>>, secret: Seq<u8>, now: u64) -> Result<
    Option<Claims>,
> {
    match bearer {
        None => Ok(None),
        Some(token) => match validate_spec(token, secret, now) {
            Ok(claims) => Ok(Some(claims)),
            Err(_) => Err(Error::Auth(AuthError::InvalidToken)),
        },
    }
}

/// The bytes of a credential, if there is one.
pub open spec fn bearer_view(bearer: Option<&[u8]>) -> Option<Seq<u8>> {
    match bearer {
        Some(token) => Some(token@),
        None => None,
    }
}

/// The first step for a request: looks at its bearer credential. Without
/// one the request goes on without a context. With one that validates, the
/// principal of the claims is to be looked up next; with any other the
/// request fails.
pub fn resolve_ctx(bearer: Option<&[u8]>, codec: &TokenCodec, now: u64) -> (claims: Result<
    Option<Claims>,
>)
    ensures
        claims == resolved(bearer_view(bearer), codec.secret(), now),
{
    match bearer {
        None => Ok(None),
        Some(token) => match codec.validate(token, now) {
            Ok(claims) => Ok(Some(claims)),
            Err(_) => Err(Error::Auth(AuthError::InvalidToken)),
        },
    }
}

/// The second step for a request with valid claims: the context that is
/// attached to it. The role is the one that the principal has now, not one
/// that a token remembers.
pub fn attach_ctx(claims: &Claims, principal: Option<&User>) -> (context: Result<Context>)
    ensures
        match principal {
            Some(user) => context matches Ok(c) && c@ == (ContextView {
                user_id: claims.user_id,
                role: user.role,
            }),
            None => context matches Err(e) && e == Error::Auth(AuthError::UnknownPrincipal),
        },
{
    match principal {
        Some(user) => Ok(Context::new(claims.user_id, user.role)),
        None => Err(Error::Auth(AuthError::UnknownPrincipal)),
    }
}

impl Context {
    /// The context that a handler asks for: the one attached to the
    /// request, or a failure where none is.
    pub fn from_request_parts(attached: Option<&Context>) -> (context: Result<Context>)
        ensures
            match attached {
                Some(c) => context matches Ok(found) && found@ == c@,
                None => context matches Err(e) && e == Error::Auth(AuthError::MissingContext),
            },
    {
        match attached {
            Some(context) => Ok(Context::new(context.user_id(), context.role())),
            None => Err(Error::Auth(AuthError::MissingContext)),
        }
    }
}

} // verus!
