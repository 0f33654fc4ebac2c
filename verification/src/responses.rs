//! The types of values that are returned in response bodies.

use vstd::prelude::*;

verus! {

/// Returned whenever an error occurred and the request could not be
/// completed.
#[derive(Clone, Debug, PartialEq, Eq)]
pub struct MessageResponse {
    pub message: String,
}

impl MessageResponse {
    pub fn new(message: &str) -> (r: Self)
        ensures
            r.message@ == message@,
    {
        MessageResponse { message: message.to_owned() }
    }
}

/// A request to spin the Byte Builder machine: the multiplier to apply to
/// wager and winnings.
#[derive(Clone, Copy, Debug, PartialEq, Eq, Structural)]
pub struct SpinByteBuilderReqBody {
    pub multiplier: u32,
}

/// A successful spin: the net payout, the rendered outcome bitstring, the
/// special event tag if any, and the balance reported by the final ledger
/// call.
#[derive(Clone, Debug, PartialEq, Eq)]
pub struct SpinByteBuilderResponse {
    pub payout: i128,
    pub byte: String,
    pub event: Option<String>,
    pub balance: u128,
}

} // verus!
