//! Interpretation of the player service's replies: resolving a bearer token
//! to a player identity.

use vstd::prelude::*;

verus! {

use crate::failure::Failure;

/// The identity of an authenticated player, as the player service reports it
/// (the textual form of the `id` field of its reply).
#[derive(Clone, Debug, PartialEq, Eq)]
pub struct PlayerId {
    pub id: String,
}

/// Why a bearer token could not be resolved to a player.
#[derive(Clone, Copy, Debug, PartialEq, Eq, Structural)]
pub enum TokenAuthnFailure {
    /// The request failed to reach the player microservice.
    RequestFailed,
    /// The provided token could not be used to authenticate a player.
    BadToken,
}

impl Failure for TokenAuthnFailure {
    open spec fn message_spec(&self) -> Seq<char> {
        match self {
            TokenAuthnFailure::RequestFailed => "Could not reach the player microservice to authenticate token."@,
            TokenAuthnFailure::BadToken => "The provided token could not be used to authenticate the player."@,
        }
    }

    fn message(&self) -> (r: String) {
        let text = match self {
            TokenAuthnFailure::RequestFailed => "Could not reach the player microservice to authenticate token.",
            TokenAuthnFailure::BadToken => "The provided token could not be used to authenticate the player.",
        };
        text.to_owned()
    }
}

/// What the player service's reply to an authentication request means.
/// `status` is `None` when the request never completed; only a 200 reply that
/// carries a player id authenticates the player; any other reply means the
/// token is unusable.
pub open spec fn authn_result_spec(status: Option<u16>, id: Option<Seq<char>>) -> Result<
    Seq<char>,
    TokenAuthnFailure,
> {
    match status {
        None => Err(TokenAuthnFailure::RequestFailed),
        Some(code) => if code == 200 {
            match id {
                Some(s) => Ok(s),
                None => Err(TokenAuthnFailure::BadToken),
            }
        } else {
            Err(TokenAuthnFailure::BadToken)
        },
    }
}

/// Resolve the player service's reply into a player identity or a failure,
/// exactly as [`authn_result_spec`] reads it.
pub fn authn_result(status: Option<u16>, id: Option<String>) -> (r: Result<
    PlayerId,
    TokenAuthnFailure,
>)
    ensures
        match authn_result_spec(
            status,
            match id {
                Some(s) => Some(s@),
                None => None,
            },
        ) {
            Ok(s) => r matches Ok(p) && p.id@ == s,
            Err(f) => r == Err::<PlayerId, _>(f),
        },
{
    match status {
        None => Err(TokenAuthnFailure::RequestFailed),
        Some(code) => {
            if code == 200 {
                match id {
                    Some(s) => Ok(PlayerId { id: s }),
                    None => Err(TokenAuthnFailure::BadToken),
                }
            } else {
                Err(TokenAuthnFailure::BadToken)
            }
        },
    }
}

} // verus!
