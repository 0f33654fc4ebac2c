//! The spin settlement protocol, strictly in this order:
//!
//! 1. authenticate the player;
//! 2. generate the spin id;
//! 3. reserve the wager at the currency ledger;
//! 4. spin the machine;
//! 5. settle the payout at the currency ledger;
//! 6. respond.
//!
//! Each step is a potential failure point. The wager must be accepted before
//! the machine spins, and the payout is only attempted after the spin.
//!
//! The two ledger calls of one settlement are correlated by a single spin id,
//! generated once per settlement attempt ([`lemma_requests_share_spin_id`]).
//! A failure before the wager is debited moves no funds and records no spin
//! ([`lemma_wager_failure_means_no_spin`]); a failure after it is the one
//! fatal case and is surfaced as the distinct
//! [`SpinFailure::Settlement`] variant so that operators can reconcile via
//! the spin-id-tagged audit trail.

use vstd::prelude::*;

verus! {

use crate::binary_byte::{bitstring_spec, to_bitstring, BinaryByte};
use crate::byte_builder::{event_of, payout_of, spin_transition, ByteBuilder, SpinEvent};
use crate::currency::{
    now_rfc3339,
    payout_reason_spec,
    wager_reason_spec,
    TransactionRequestBody,
    WagerRequestFailure,
};
use crate::failure::Failure;
use crate::helper::AuthHeaderFailure;
use crate::machines::SlotMachine;
use crate::player::{PlayerId, TokenAuthnFailure};
use crate::responses::SpinByteBuilderResponse;

/// Why the player could not be authenticated: the token never left the
/// headers, or the player service would not accept it.
#[derive(Clone, Copy, Debug, PartialEq, Eq, Structural)]
pub enum AuthFailureKind {
    /// No usable bearer token was found in the request headers.
    Header(AuthHeaderFailure),
    /// The player service rejected the token or could not be reached.
    Token(TokenAuthnFailure),
}

/// Why a spin settlement could not complete.
#[derive(Clone, Copy, Debug, PartialEq, Eq, Structural)]
pub enum SpinFailure {
    /// Authentication failed: no funds have moved.
    Auth(AuthFailureKind),
    /// The wager debit failed: no funds have moved and no spin happened.
    Wager(WagerRequestFailure),
    /// The payout credit failed *after* a successful wager debit: funds are
    /// debited with no compensating action. Surfaced distinctly from
    /// [`SpinFailure::Wager`] so that operators can reconcile by spin id.
    Settlement(WagerRequestFailure),
}

impl SpinFailure {
    /// The HTTP status this failure maps to.
    pub open spec fn http_status_spec(&self) -> int {
        match self {
            SpinFailure::Auth(_) => 401,
            SpinFailure::Wager(_) => 409,
            SpinFailure::Settlement(_) => 500,
        }
    }

    /// The HTTP status this failure maps to: 401 for an authentication
    /// failure, 409 for a failed wager (insufficient funds), 500 for a
    /// payout-settlement failure (funds already debited).
    pub fn http_status(&self) -> (r: u16)
        ensures
            r as int == self.http_status_spec(),
    {
        match self {
            SpinFailure::Auth(_) => 401,
            SpinFailure::Wager(_) => 409,
            SpinFailure::Settlement(_) => 500,
        }
    }
}

impl Failure for SpinFailure {
    open spec fn message_spec(&self) -> Seq<char> {
        match self {
            SpinFailure::Auth(_) => "Token authentication failed."@,
            SpinFailure::Wager(_) => "You do not have enough money."@,
            SpinFailure::Settlement(_) => "The machine ate your bits! Oh no!"@,
        }
    }

    fn message(&self) -> (r: String) {
        let text = match self {
            SpinFailure::Auth(_) => "Token authentication failed.",
            SpinFailure::Wager(_) => "You do not have enough money.",
            SpinFailure::Settlement(_) => "The machine ate your bits! Oh no!",
        };
        text.to_owned()
    }
}

/// Where one settlement stands. The steps are strictly sequential: the wager
/// must be accepted before the machine spins, and the payout is only
/// attempted after the spin.
#[derive(Clone, Debug, PartialEq, Eq)]
pub enum SettlementPhase {
    /// Waiting for the player to be authenticated; no funds have moved.
    AwaitingAuth,
    /// The player is known; waiting for the wager debit to be accepted.
    AwaitingWager { player: PlayerId },
    /// The wager is debited and the machine has spun; waiting for the payout
    /// credit.
    AwaitingPayout,
    /// The payout credit was applied: the spin is fully settled.
    Settled { balance: u128 },
    /// The settlement failed; which step failed is recorded in the failure.
    Failed { failure: SpinFailure },
}

/// One spin settlement: the supplied multiplier, the spin id correlating the
/// two ledger calls, the machine that spins, and the protocol phase.
pub struct SpinSettlement {
    /// The multiplier the caller supplied, applied as-is to both transaction
    /// amounts (the machine normalizes its own copy).
    pub multiplier: u32,
    /// The idempotency and audit correlation key, generated once per
    /// settlement attempt and reused for both ledger calls.
    pub spin_id: String,
    /// The machine that runs this settlement's spin.
    pub machine: ByteBuilder,
    /// Where the settlement stands.
    pub phase: SettlementPhase,
}

impl SpinSettlement {
    /// A machine on which nothing has happened yet: no spin recorded, no
    /// payout priced, headroom for the one spin this settlement runs.
    pub open spec fn fresh_machine(&self) -> bool {
        &&& self.machine.total_spins == 0
        &&& self.machine.total_free_spins == 0
        &&& self.machine.total_payout == 0
        &&& self.machine.curr_payout == 0
        &&& self.machine.remaining_free_spins == 0
        &&& self.machine.total_null_bytes == 0
        &&& self.machine.can_spin()
    }

    /// The machine has recorded exactly one spin, and its payout and event
    /// are the classification of its displayed byte.
    pub open spec fn spun_once(&self) -> bool {
        &&& self.machine.total_spins + self.machine.total_free_spins == 1
        &&& self.machine.curr_payout == payout_of(
            self.machine.byte@,
            self.machine.multiplier as int,
        )
        &&& self.machine.last_event == event_of(self.machine.byte@)
    }

    /// The protocol invariant: the machine is well-formed with the normalized
    /// multiplier, no spin is recorded until the wager debit succeeded, and
    /// exactly one spin is recorded from then on. In particular a settlement
    /// that failed before or at the wager step has recorded no spin.
    pub open spec fn wf(&self) -> bool {
        &&& self.machine.wf()
        &&& self.machine.multiplier == (if self.multiplier == 0 {
            1u32
        } else {
            self.multiplier
        })
        &&& match self.phase {
            SettlementPhase::AwaitingAuth => self.fresh_machine(),
            SettlementPhase::AwaitingWager { .. } => self.fresh_machine(),
            SettlementPhase::AwaitingPayout => self.spun_once(),
            SettlementPhase::Settled { .. } => self.spun_once(),
            SettlementPhase::Failed { failure } => match failure {
                SpinFailure::Settlement(_) => self.spun_once(),
                _ => self.fresh_machine(),
            },
        }
    }

    /// Start a settlement for one spin request, with a caller-supplied spin
    /// id (the idempotency and audit correlation key).
    pub fn new(multiplier: u32, spin_id: String) -> (r: Self)
        ensures
            r.wf(),
            r.multiplier == multiplier,
            r.spin_id == spin_id,
            r.phase is AwaitingAuth,
    {
        let mut machine = <ByteBuilder as SlotMachine>::new();
        machine.set_mult(multiplier);
        SpinSettlement { multiplier, spin_id, machine, phase: SettlementPhase::AwaitingAuth }
    }

    /// Start a settlement with a freshly generated spin id.
    pub fn begin(multiplier: u32) -> (r: Self)
        ensures
            r.wf(),
            r.multiplier == multiplier,
            r.phase is AwaitingAuth,
    {
        let spin_id = fresh_spin_id();
        SpinSettlement::new(multiplier, spin_id)
    }

    /// Record the outcome of authenticating the player (protocol step 1). A
    /// failure rejects the spin before any funds move.
    pub fn on_auth(&mut self, outcome: Result<PlayerId, AuthFailureKind>)
        requires
            old(self).wf(),
            old(self).phase is AwaitingAuth,
        ensures
            final(self).wf(),
            final(self).multiplier == old(self).multiplier,
            final(self).spin_id == old(self).spin_id,
            final(self).machine == old(self).machine,
            match outcome {
                Ok(p) => final(self).phase == (SettlementPhase::AwaitingWager { player: p }),
                Err(k) => final(self).phase == (SettlementPhase::Failed {
                    failure: SpinFailure::Auth(k),
                }),
            },
    {
        match outcome {
            Ok(player) => {
                self.phase = SettlementPhase::AwaitingWager { player };
            },
            Err(kind) => {
                self.phase = SettlementPhase::Failed { failure: SpinFailure::Auth(kind) };
            },
        }
    }

    /// The wager debit for this spin (protocol step 3): `-128 × multiplier`,
    /// tagged with this settlement's spin id and the supplied timestamp.
    pub fn wager_request(&self, timestamp: &str) -> (r: TransactionRequestBody)
        requires
            self.wf(),
            self.phase is AwaitingWager,
        ensures
            r.amount == -128 * self.multiplier as int,
            r.reason@ == wager_reason_spec(timestamp@, self.spin_id@),
    {
        TransactionRequestBody::wager(self.multiplier, self.spin_id.as_str(), timestamp)
    }

    /// The wager debit stamped with the current time.
    pub fn wager_request_now(&self) -> (r: TransactionRequestBody)
        requires
            self.wf(),
            self.phase is AwaitingWager,
        ensures
            r.amount == -128 * self.multiplier as int,
            exists|ts: Seq<char>| r.reason@ == wager_reason_spec(ts, self.spin_id@),
    {
        let timestamp = now_rfc3339();
        let r = self.wager_request(timestamp.as_str());
        proof {
            assert(r.reason@ == wager_reason_spec(timestamp@, self.spin_id@));
        }
        r
    }

    /// Record the ledger's reply to the wager debit and, on success, run the
    /// spin (protocol steps 3 and 4). On failure the spin is rejected: no
    /// funds have moved and the machine records no spin.
    pub fn on_wager(&mut self, reply: Result<u128, WagerRequestFailure>)
        requires
            old(self).wf(),
            old(self).phase is AwaitingWager,
        ensures
            final(self).wf(),
            final(self).multiplier == old(self).multiplier,
            final(self).spin_id == old(self).spin_id,
            match reply {
                Ok(_) => {
                    &&& final(self).phase is AwaitingPayout
                    &&& <ByteBuilder as SlotMachine>::spin_ens(
                        old(self).machine,
                        final(self).machine,
                    )
                },
                Err(f) => {
                    &&& final(self).phase == (SettlementPhase::Failed {
                        failure: SpinFailure::Wager(f),
                    })
                    &&& final(self).machine == old(self).machine
                },
            },
    {
        let ghost pre = *self;
        match reply {
            Ok(_) => {
                self.machine.spin();
                self.phase = SettlementPhase::AwaitingPayout;
                proof {
                    let bits = choose|bits: Seq<bool>|
                        {
                            &&& #[trigger] spin_transition(pre.machine, self.machine, bits)
                            &&& bits.len() == 8
                            &&& (pre.machine.remaining_free_spins > 0 ==> !bits[0])
                        };
                    assert(spin_transition(pre.machine, self.machine, bits));
                }
            },
            Err(f) => {
                self.phase = SettlementPhase::Failed { failure: SpinFailure::Wager(f) };
            },
        }
    }

    /// Record the ledger's reply to the wager debit and, on success, run the
    /// spin on a given byte (protocol steps 3 and 4, with the randomness
    /// supplied by the caller so that a spin can be replayed
    /// deterministically).
    pub fn on_wager_outcome(&mut self, reply: Result<u128, WagerRequestFailure>, bits: BinaryByte)
        requires
            old(self).wf(),
            old(self).phase is AwaitingWager,
        ensures
            final(self).wf(),
            final(self).multiplier == old(self).multiplier,
            final(self).spin_id == old(self).spin_id,
            match reply {
                Ok(_) => {
                    &&& final(self).phase is AwaitingPayout
                    &&& spin_transition(old(self).machine, final(self).machine, bits@)
                },
                Err(f) => {
                    &&& final(self).phase == (SettlementPhase::Failed {
                        failure: SpinFailure::Wager(f),
                    })
                    &&& final(self).machine == old(self).machine
                },
            },
    {
        match reply {
            Ok(_) => {
                self.machine.spin_with_bits(bits);
                self.phase = SettlementPhase::AwaitingPayout;
            },
            Err(f) => {
                self.phase = SettlementPhase::Failed { failure: SpinFailure::Wager(f) };
            },
        }
    }

    /// The payout credit for this spin (protocol step 5): the wager returned
    /// plus the net result, tagged with the **same** spin id as the wager.
    pub fn payout_request(&self, timestamp: &str) -> (r: TransactionRequestBody)
        requires
            self.wf(),
            self.phase is AwaitingPayout,
        ensures
            r.amount == 128 * self.multiplier as int + self.machine.curr_payout,
            r.reason@ == payout_reason_spec(timestamp@, self.spin_id@),
    {
        let net = self.machine.payout();
        TransactionRequestBody::payout(self.multiplier, net, self.spin_id.as_str(), timestamp)
    }

    /// The payout credit stamped with the current time.
    pub fn payout_request_now(&self) -> (r: TransactionRequestBody)
        requires
            self.wf(),
            self.phase is AwaitingPayout,
        ensures
            r.amount == 128 * self.multiplier as int + self.machine.curr_payout,
            exists|ts: Seq<char>| r.reason@ == payout_reason_spec(ts, self.spin_id@),
    {
        let timestamp = now_rfc3339();
        let r = self.payout_request(timestamp.as_str());
        proof {
            assert(r.reason@ == payout_reason_spec(timestamp@, self.spin_id@));
        }
        r
    }

    /// Record the ledger's reply to the payout credit (protocol step 5). A
    /// failure here is the one fatal case: the wager is already debited and
    /// the design has no automatic remediation, so it is surfaced as the
    /// distinct [`SpinFailure::Settlement`] variant.
    pub fn on_payout(&mut self, reply: Result<u128, WagerRequestFailure>)
        requires
            old(self).wf(),
            old(self).phase is AwaitingPayout,
        ensures
            final(self).wf(),
            final(self).multiplier == old(self).multiplier,
            final(self).spin_id == old(self).spin_id,
            final(self).machine == old(self).machine,
            match reply {
                Ok(balance) => final(self).phase == (SettlementPhase::Settled { balance }),
                Err(f) => final(self).phase == (SettlementPhase::Failed {
                    failure: SpinFailure::Settlement(f),
                }),
            },
    {
        match reply {
            Ok(balance) => {
                self.phase = SettlementPhase::Settled { balance };
            },
            Err(f) => {
                self.phase = SettlementPhase::Failed { failure: SpinFailure::Settlement(f) };
            },
        }
    }

    /// The response for a settled spin (protocol step 6): the net payout, the
    /// rendered outcome bitstring, the event tag if any, and the balance
    /// reported by the final ledger call.
    pub fn success_response(&self) -> (r: SpinByteBuilderResponse)
        requires
            self.wf(),
            self.phase is Settled,
        ensures
            r.payout == self.machine.curr_payout,
            r.byte@ == bitstring_spec(self.machine.byte@),
            match self.machine.last_event {
                None => r.event is None,
                Some(SpinEvent::NullByte) => r.event matches Some(s) && s@ == "NullByte"@,
                Some(SpinEvent::PowerOfTwo) => r.event matches Some(s) && s@ == "PowerOfTwo"@,
            },
            self.phase matches SettlementPhase::Settled { balance } ==> r.balance == balance,
    {
        let balance = match &self.phase {
            SettlementPhase::Settled { balance } => *balance,
            _ => {
                proof {
                    assert(false);
                }
                0
            },
        };
        SpinByteBuilderResponse {
            payout: self.machine.payout(),
            byte: to_bitstring(&self.machine.byte),
            event: self.machine.event(),
            balance,
        }
    }
}

/// A failed wager aborts the settlement before any spin: in a settlement that
/// failed at the wager step (or earlier, at authentication) the machine has
/// recorded no spins and no payout, and the protocol offers no payout request
/// in a failed phase.
pub proof fn lemma_wager_failure_means_no_spin(s: SpinSettlement)
    requires
        s.wf(),
        s.phase matches SettlementPhase::Failed { failure } && !(failure is Settlement),
    ensures
        s.machine.total_spins == 0,
        s.machine.total_free_spins == 0,
        s.machine.total_payout == 0,
{
}

/// Both ledger calls of one settlement carry the same spin id: whatever
/// timestamps the two calls are stamped with, each reason string ends with
/// the settlement's one spin id.
pub proof fn lemma_requests_share_spin_id(id: Seq<char>, t1: Seq<char>, t2: Seq<char>)
    ensures
        wager_reason_spec(t1, id).skip(wager_reason_spec(t1, id).len() - id.len()) == id,
        payout_reason_spec(t2, id).skip(payout_reason_spec(t2, id).len() - id.len()) == id,
{
    assert(wager_reason_spec(t1, id).skip(wager_reason_spec(t1, id).len() - id.len()) =~= id);
    assert(payout_reason_spec(t2, id).skip(payout_reason_spec(t2, id).len() - id.len()) =~= id);
}

/// Relies on `uuid::Uuid::new_v4`, rendered in the hyphenated form: a fresh
/// random (version 4) identifier. The result is random, so nothing is
/// promised of it.
#[verifier::external_body]
fn fresh_spin_id() -> String {
    uuid::Uuid::new_v4().to_string()
}

} // verus!
