//! Extraction of the player's bearer token from the request's Authorization
//! header.

use vstd::prelude::*;

verus! {

use vstd::string::StrSliceExecFns;

use crate::failure::Failure;

/// The Authorization header as the transport layer found it: absent, present
/// but not readable as text, or its textual value.
#[derive(Clone, Debug, PartialEq, Eq)]
pub enum HeaderLookup {
    Missing,
    Unreadable,
    Value(String),
}

/// Why no bearer token could be taken from the request headers.
#[derive(Clone, Copy, Debug, PartialEq, Eq, Structural)]
pub enum AuthHeaderFailure {
    /// The header value could not be read as text.
    Nonparceable,
    /// The header is absent.
    NotFound,
    /// The header value does not start with the bearer scheme.
    NoPrefix,
}

impl Failure for AuthHeaderFailure {
    open spec fn message_spec(&self) -> Seq<char> {
        match self {
            AuthHeaderFailure::Nonparceable => "Authorization header value could not be parsed."@,
            AuthHeaderFailure::NotFound => "Authorization header is missing."@,
            AuthHeaderFailure::NoPrefix => "Authorization header missing \"Bearer \" prefix."@,
        }
    }

    fn message(&self) -> (r: String) {
        let text = match self {
            AuthHeaderFailure::Nonparceable => "Authorization header value could not be parsed.",
            AuthHeaderFailure::NotFound => "Authorization header is missing.",
            AuthHeaderFailure::NoPrefix => "Authorization header missing \"Bearer \" prefix.",
        };
        text.to_owned()
    }
}

/// Whether a header value carries the bearer scheme: it starts with the seven
/// characters `"Bearer "`.
pub open spec fn has_bearer_prefix(s: Seq<char>) -> bool {
    s.len() >= 7 && s.subrange(0, 7) == "Bearer "@
}

/// Extract the player's authentication token from the Authorization header:
/// the value following the `"Bearer "` prefix.
///
/// # Errors
/// When the authentication token was not provided properly: a missing header,
/// an unreadable header value, or a value without the bearer prefix.
pub fn extract_authn_token(header: &HeaderLookup) -> (r: Result<String, AuthHeaderFailure>)
    ensures
        match header {
            HeaderLookup::Missing => r == Err::<String, _>(AuthHeaderFailure::NotFound),
            HeaderLookup::Unreadable => r == Err::<String, _>(AuthHeaderFailure::Nonparceable),
            HeaderLookup::Value(s) => if has_bearer_prefix(s@) {
                r matches Ok(tok) && tok@ == s@.skip(7)
            } else {
                r == Err::<String, _>(AuthHeaderFailure::NoPrefix)
            },
        },
{
    match header {
        HeaderLookup::Missing => Err(AuthHeaderFailure::NotFound),
        HeaderLookup::Unreadable => Err(AuthHeaderFailure::Nonparceable),
        HeaderLookup::Value(value) => strip_bearer_prefix(value),
    }
}

/// The value following the `"Bearer "` prefix of a header value, if the value
/// carries that prefix.
fn strip_bearer_prefix(value: &String) -> (r: Result<String, AuthHeaderFailure>)
    ensures
        if has_bearer_prefix(value@) {
            r matches Ok(tok) && tok@ == value@.skip(7)
        } else {
            r == Err::<String, _>(AuthHeaderFailure::NoPrefix)
        },
{
    let n = value.as_str().unicode_len();
    proof {
        reveal_strlit("Bearer ");
    }
    if n < 7 {
        return Err(AuthHeaderFailure::NoPrefix);
    }
    let scheme = "Bearer ";
    let mut i: usize = 0;
    while i < 7
        invariant
            i <= 7,
            n == value@.len(),
            n >= 7,
            scheme@ == "Bearer "@,
            scheme@.len() == 7,
            forall|j: int| 0 <= j < i ==> value@[j] == scheme@[j],
        decreases 7 - i,
    {
        if value.as_str().get_char(i) != scheme.get_char(i) {
            proof {
                assert(value@.subrange(0, 7)[i as int] != "Bearer "@[i as int]);
            }
            return Err(AuthHeaderFailure::NoPrefix);
        }
        i += 1;
    }
    proof {
        assert(value@.subrange(0, 7) =~= "Bearer "@);
    }
    let token = value.as_str().substring_char(7, n);
    proof {
        assert(token@ =~= value@.skip(7));
    }
    Ok(token.to_owned())
}

} // verus!
