//! Game-logic core of the Bit Casino slot-machine service.
//!
//! The heart of the crate is the Byte Builder payout engine: a two's-complement
//! bit-outcome codec ([`binary_byte`]), a stateful machine that turns a spin
//! into a payout, free-spin grants and rare events ([`byte_builder`]), and the
//! spin settlement protocol that sequences a wager debit and a payout credit
//! against an external currency ledger under a per-spin idempotency key
//! ([`settlement`]).

pub mod binary_byte;
pub mod byte_builder;
pub mod currency;
pub mod failure;
pub mod helper;
pub mod machines;
pub mod player;
pub mod responses;
pub mod settlement;
