//! The ledger-facing side of a spin: the bodies of the two transactions a
//! settlement applies (the wager debit and the payout credit) and the
//! interpretation of the ledger's replies.

use vstd::prelude::*;

verus! {

use vstd::string::StringExecFns;

/// The body of one ledger transaction: a signed amount of bits and a
/// free-text audit reason embedding the spin id and a timestamp.
#[derive(Clone, Debug, PartialEq, Eq)]
pub struct TransactionRequestBody {
    pub amount: i128,
    pub reason: String,
}

/// The audit reason of a wager debit: the tag, the timestamp, the spin id.
pub open spec fn wager_reason_spec(timestamp: Seq<char>, spin_id: Seq<char>) -> Seq<char> {
    "BYTE_BUILDER_WAGER DATE="@ + timestamp + " SPIN_ID="@ + spin_id
}

/// The audit reason of a payout credit: the tag, the timestamp, the spin id.
pub open spec fn payout_reason_spec(timestamp: Seq<char>, spin_id: Seq<char>) -> Seq<char> {
    "BYTE_BUILDER_PAYOUT DATE="@ + timestamp + " SPIN_ID="@ + spin_id
}

impl TransactionRequestBody {
    /// The debit applied before a spin: `-128 × multiplier` bits, tagged with
    /// the spin id and a timestamp for audit traceability.
    pub fn wager(multiplier: u32, spin_id: &str, timestamp: &str) -> (r: Self)
        ensures
            r.amount == -128 * multiplier as int,
            r.reason@ == wager_reason_spec(timestamp@, spin_id@),
    {
        let mut reason = "BYTE_BUILDER_WAGER DATE=".to_owned();
        reason.append(timestamp);
        reason.append(" SPIN_ID=");
        reason.append(spin_id);
        proof {
            assert(reason@ =~= wager_reason_spec(timestamp@, spin_id@));
        }
        let scaled: i128 = 128i128 * (multiplier as i128);
        TransactionRequestBody { amount: -scaled, reason }
    }

    /// The credit applied after a spin: the wager returned plus the net
    /// result, `128 × multiplier + payout` bits, tagged with the **same** spin
    /// id as the wager and a fresh timestamp.
    pub fn payout(multiplier: u32, payout: i128, spin_id: &str, timestamp: &str) -> (r: Self)
        requires
            -128 * 0xffff_ffff <= payout <= 256 * 0xffff_ffff,
        ensures
            r.amount == 128 * multiplier as int + payout,
            r.reason@ == payout_reason_spec(timestamp@, spin_id@),
    {
        let mut reason = "BYTE_BUILDER_PAYOUT DATE=".to_owned();
        reason.append(timestamp);
        reason.append(" SPIN_ID=");
        reason.append(spin_id);
        proof {
            assert(reason@ =~= payout_reason_spec(timestamp@, spin_id@));
        }
        TransactionRequestBody { amount: 128i128 * (multiplier as i128) + payout, reason }
    }
}

/// How a ledger transaction can fail.
#[derive(Clone, Copy, Debug, PartialEq, Eq, Structural)]
pub enum WagerRequestFailure {
    /// The request never reached the ledger (or no reply came back).
    ReqFailed,
    /// The ledger rejected the caller's credentials.
    Unauthorized,
    /// The delta would take the balance negative: insufficient funds.
    Conflict,
    /// The ledger failed on its side, or replied unintelligibly.
    ServerSide,
}

/// The ledger's reply to an accepted transaction: the resulting balance.
#[derive(Clone, Copy, Debug, PartialEq, Eq, Structural)]
pub struct TransactionResponse {
    pub balance: u128,
}

/// What a ledger reply means. `None` is a request that never completed; a 200
/// reply must carry the resulting balance; 409 is insufficient funds; 401 is
/// a credential rejection; anything else is a ledger-side error.
pub open spec fn transaction_result_spec(reply: Option<(u16, Option<u128>)>) -> Result<
    u128,
    WagerRequestFailure,
> {
    match reply {
        None => Err(WagerRequestFailure::ReqFailed),
        Some((status, balance)) => if status == 200 {
            match balance {
                Some(b) => Ok(b),
                None => Err(WagerRequestFailure::ServerSide),
            }
        } else if status == 409 {
            Err(WagerRequestFailure::Conflict)
        } else if status == 401 {
            Err(WagerRequestFailure::Unauthorized)
        } else {
            Err(WagerRequestFailure::ServerSide)
        },
    }
}

/// Interpret one ledger reply — the status code and the balance its body
/// carried, or `None` when the request never completed — exactly as
/// [`transaction_result_spec`] reads it.
pub fn transaction_result(reply: Option<(u16, Option<u128>)>) -> (r: Result<
    u128,
    WagerRequestFailure,
>)
    ensures
        r == transaction_result_spec(reply),
{
    match reply {
        None => Err(WagerRequestFailure::ReqFailed),
        Some((status, balance)) => {
            if status == 200 {
                match balance {
                    Some(b) => Ok(b),
                    None => Err(WagerRequestFailure::ServerSide),
                }
            } else if status == 409 {
                Err(WagerRequestFailure::Conflict)
            } else if status == 401 {
                Err(WagerRequestFailure::Unauthorized)
            } else {
                Err(WagerRequestFailure::ServerSide)
            }
        },
    }
}

/// Relies on `chrono::Utc::now`, rendered by `DateTime::to_rfc3339`: the
/// current time as an RFC 3339 timestamp. The result depends on the clock, so
/// nothing is promised of it.
#[verifier::external_body]
pub fn now_rfc3339() -> String {
    chrono::Utc::now().to_rfc3339()
}

} // verus!
