//! The [`Failure`] trait, implemented by every error type whose text may be
//! shown to a player.

use vstd::prelude::*;

verus! {

/// A failure that can be described to the player.
pub trait Failure {
    /// The text of [`Failure::message`], as a sequence of characters.
    spec fn message_spec(&self) -> Seq<char>;

    /// Generate a user-friendly string to describe the failure. This will be
    /// returned in the HTTP response body and must never include sensitive
    /// information.
    fn message(&self) -> (r: String)
        ensures
            r@ == self.message_spec(),
    ;
}

} // verus!
