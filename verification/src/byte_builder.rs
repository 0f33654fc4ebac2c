//! The [`ByteBuilder`] struct: the machine behind Bit Casino's first slot
//! machine, Byte Builder.
//!
//! # How it works
//! - The screen has a single row with 8 columns. When spun, the machine
//!   generates either a `1` or a `0` in each column.
//! - To spin, the player wagers 128 bits. The net gain or loss of the wager is
//!   the **two's complement** value of the displayed byte, scaled by the
//!   multiplier.
//! - A byte with exactly one set bit is a *power of two* event and grants one
//!   free spin; the all-zero byte is a *null byte* event and pays a fixed
//!   bonus of `256 × multiplier` instead of zero.
//! - A free spin is consumed before paid spins resume; its sign bit is forced
//!   clear, so a free spin never decodes to a negative outcome.

use vstd::prelude::*;

verus! {

use crate::binary_byte::{
    bit_int,
    decode_spec,
    lemma_decode_form,
    lemma_unsigned_value_bounds,
    to_decimal,
    BinaryByte,
};
use crate::machines::SlotMachine;

broadcast use vstd::array::group_array_axioms;

/// A special condition detected on the most recent spin.
#[derive(Clone, Copy, Debug, PartialEq, Eq, Structural)]
pub enum SpinEvent {
    /// The displayed byte was all zeros: a fixed bonus is paid.
    NullByte,
    /// Exactly one bit was set: one additional free spin is granted.
    PowerOfTwo,
}

/// The number of set bits in a bit sequence.
pub open spec fn set_bit_count(s: Seq<bool>) -> int
    decreases s.len(),
{
    if s.len() == 0 {
        0
    } else {
        set_bit_count(s.drop_last()) + bit_int(s.last())
    }
}

/// The sum of a sequence of integers.
pub open spec fn sum_seq(s: Seq<int>) -> int
    decreases s.len(),
{
    if s.len() == 0 {
        0
    } else {
        sum_seq(s.drop_last()) + s.last()
    }
}

/// The event a drawn byte is classified as: the all-zero byte is a null byte,
/// a byte with exactly one set bit is a power of two, anything else is no
/// event. (The two can never coincide: see
/// [`lemma_power_of_two_classification`].)
pub open spec fn event_of(bits: Seq<bool>) -> Option<SpinEvent> {
    if decode_spec(bits) == 0 {
        Some(SpinEvent::NullByte)
    } else if set_bit_count(bits) == 1 {
        Some(SpinEvent::PowerOfTwo)
    } else {
        None
    }
}

/// The payout of a drawn byte under a multiplier: the fixed bonus
/// `256 × multiplier` for the null byte, otherwise the decoded value times the
/// multiplier (negative when the byte decodes negative).
pub open spec fn payout_of(bits: Seq<bool>, multiplier: int) -> int {
    if decode_spec(bits) == 0 {
        256 * multiplier
    } else {
        decode_spec(bits) * multiplier
    }
}

/// This is the struct storing all of the data for a ByteBuilder machine.
pub struct ByteBuilder {
    /// The 8 "bits" representing the value used to determine the payout.
    pub byte: BinaryByte,
    /// The multiplier used to calculate payout; always at least 1.
    pub multiplier: u32,
    /// The payout for the currently displayed byte.
    pub curr_payout: i128,
    /// The special event detected on the most recent spin, if any.
    pub last_event: Option<SpinEvent>,
    /// The amount of spins that this machine has done (NOT including free
    /// spins).
    pub total_spins: u128,
    /// This machine's running total payout.
    pub total_payout: i128,
    /// The amount of free spins this machine has done.
    pub total_free_spins: u128,
    /// The amount of null byte events.
    pub total_null_bytes: u128,
    /// The amount of remaining free spins available.
    pub remaining_free_spins: u32,
    /// The payout of every spin so far, in order; the running totals are
    /// proved against this record.
    pub payout_history: Ghost<Seq<int>>,
}

/// How one spin that displayed `bits` relates the machine after the spin to
/// the machine before it: the mode (paid or free) is chosen by the free spins
/// remaining beforehand, the byte is classified and priced, and every counter
/// moves exactly as the mode and the classification dictate.
pub open spec fn spin_transition(pre: ByteBuilder, post: ByteBuilder, bits: Seq<bool>) -> bool {
    let free = pre.remaining_free_spins > 0;
    let pay = payout_of(bits, pre.multiplier as int);
    let grant: int = if set_bit_count(bits) == 1 {
        1
    } else {
        0
    };
    &&& post.byte@ == bits
    &&& post.multiplier == pre.multiplier
    &&& post.curr_payout == pay
    &&& post.last_event == event_of(bits)
    &&& post.total_null_bytes == pre.total_null_bytes + (if decode_spec(bits) == 0 {
        1int
    } else {
        0int
    })
    &&& post.total_spins == pre.total_spins + (if free {
        0int
    } else {
        1int
    })
    &&& post.total_free_spins == pre.total_free_spins + (if free {
        1int
    } else {
        0int
    })
    &&& post.remaining_free_spins == pre.remaining_free_spins - (if free {
        1int
    } else {
        0int
    }) + grant
    &&& post.payout_history@ == pre.payout_history@.push(pay)
    &&& post.total_payout == pre.total_payout + pay
}

impl ByteBuilder {
    /// View the byte that is currently displayed.
    pub fn byte(&self) -> (r: BinaryByte)
        ensures
            r == self.byte,
    {
        self.byte
    }

    /// The textual tag of the special event detected on the most recent spin,
    /// if any.
    pub fn event(&self) -> (r: Option<String>)
        ensures
            match self.last_event {
                None => r is None,
                Some(SpinEvent::NullByte) => r matches Some(s) && s@ == "NullByte"@,
                Some(SpinEvent::PowerOfTwo) => r matches Some(s) && s@ == "PowerOfTwo"@,
            },
    {
        match self.last_event {
            None => None,
            Some(SpinEvent::NullByte) => Some("NullByte".to_owned()),
            Some(SpinEvent::PowerOfTwo) => Some("PowerOfTwo".to_owned()),
        }
    }

    /// Classify the displayed byte and price it: grant a free spin on a power
    /// of two, pay the fixed bonus on a null byte, otherwise pay the decoded
    /// value scaled by the multiplier.
    fn determine_payout(&mut self)
        requires
            old(self).remaining_free_spins < u32::MAX,
            old(self).total_null_bytes < u128::MAX,
        ensures
            final(self).curr_payout == payout_of(old(self).byte@, old(self).multiplier as int),
            final(self).last_event == event_of(old(self).byte@),
            final(self).remaining_free_spins == old(self).remaining_free_spins + (
            if set_bit_count(old(self).byte@) == 1 {
                1int
            } else {
                0int
            }),
            final(self).total_null_bytes == old(self).total_null_bytes + (if decode_spec(
                old(self).byte@,
            ) == 0 {
                1int
            } else {
                0int
            }),
            final(self).byte == old(self).byte,
            final(self).multiplier == old(self).multiplier,
            final(self).total_spins == old(self).total_spins,
            final(self).total_free_spins == old(self).total_free_spins,
            final(self).total_payout == old(self).total_payout,
            final(self).payout_history == old(self).payout_history,
    {
        self.last_event = None;
        // find out if any special events are happening.
        let mut count: u32 = 0;
        let mut i: usize = 0;
        while i < 8
            invariant
                i <= 8,
                count <= i,
                count == set_bit_count(self.byte@.take(i as int)),
                *self == (ByteBuilder { last_event: None, ..*old(self) }),
            decreases 8 - i,
        {
            proof {
                assert(self.byte@.take(i as int + 1).drop_last() =~= self.byte@.take(i as int));
                assert(self.byte@.take(i as int + 1).last() == self.byte@[i as int]);
            }
            if self.byte[i] {
                count = count + 1;
            }
            i += 1;
        }
        proof {
            assert(self.byte@.take(8) =~= self.byte@);
        }
        if count == 1 {
            // Power of Two event:
            self.remaining_free_spins = self.remaining_free_spins + 1;
            self.last_event = Some(SpinEvent::PowerOfTwo);
        }
        let byte_val = to_decimal(&self.byte);
        proof {
            lemma_decode_form(self.byte@);
            assert((byte_val as int) * (self.multiplier as int) <= 127 * 0xffff_ffff
                && (byte_val as int) * (self.multiplier as int) >= -128 * 0xffff_ffff)
                by (nonlinear_arith)
                requires
                    -128 <= byte_val as int <= 127,
                    0 <= self.multiplier as int <= 0xffff_ffff,
            ;
        }
        if byte_val == 0 {
            // Null Byte event:
            self.total_null_bytes = self.total_null_bytes + 1;
            self.last_event = Some(SpinEvent::NullByte);
            self.curr_payout = 256 * self.multiplier as i128;
        } else {
            self.curr_payout = byte_val as i128 * self.multiplier as i128;
        }
    }

    /// Run one spin whose displayed byte is `bits`, consuming a free spin if
    /// one is owed. The drawing of random bits is separated from this step so
    /// that a spin can be replayed deterministically.
    pub fn spin_with_bits(&mut self, bits: BinaryByte)
        requires
            old(self).wf(),
            old(self).can_spin(),
        ensures
            final(self).wf(),
            spin_transition(*old(self), *final(self), bits@),
    {
        let free = self.remaining_free_spins > 0;
        self.byte = bits;
        self.determine_payout();
        if free {
            self.total_free_spins = self.total_free_spins + 1;
            self.remaining_free_spins = self.remaining_free_spins - 1;
        } else {
            self.total_spins = self.total_spins + 1;
        }
        proof {
            lemma_payout_in_range(bits@, old(self).multiplier as int);
        }
        self.total_payout = self.total_payout + self.curr_payout;
        proof {
            let h = self.payout_history@;
            let p = self.curr_payout as int;
            assert(h.push(p).drop_last() =~= h);
            assert(h.push(p).last() == p);
        }
        self.payout_history = Ghost(self.payout_history@.push(self.curr_payout as int));
    }

    /// Run one free spin: draw eight bits at even odds with the sign bit
    /// forced clear, then spin on them.
    pub fn free_spin(&mut self)
        requires
            old(self).wf(),
            old(self).can_spin(),
            old(self).remaining_free_spins > 0,
        ensures
            final(self).wf(),
            <ByteBuilder as SlotMachine>::spin_ens(*old(self), *final(self)),
            final(self).curr_payout >= 0,
            old(self).remaining_free_spins - 1 <= final(self).remaining_free_spins <= old(
                self,
            ).remaining_free_spins,
            final(self).multiplier == old(self).multiplier,
    {
        let bits = draw_byte(50, true);
        self.spin_with_bits(bits);
        proof {
            lemma_clear_sign_payout_nonneg(bits@, old(self).multiplier as int);
        }
    }

    /// This machine's average payout: the running total payout divided by the
    /// number of spins recorded (paid and free together), truncated toward
    /// zero, and 0 before the first spin.
    pub fn average_payout(&self) -> (r: i128)
        requires
            self.wf(),
        ensures
            r as int == avg_of(sum_seq(self.payout_history@), self.payout_history@.len() as int),
    {
        let spins = self.total_spins + self.total_free_spins;
        if spins == 0 {
            0
        } else {
            let neg = self.total_payout < 0;
            let mag = magnitude_of(self.total_payout);
            let q = mag / spins;
            proof {
                vstd::arithmetic::div_mod::lemma_div_basics_5(mag as int, spins as int);
            }
            if neg {
                if q > i128::MAX as u128 {
                    i128::MIN
                } else {
                    -(q as i128)
                }
            } else {
                q as i128
            }
        }
    }
}

/// The average of a total over a count, truncated toward zero; 0 for an empty
/// count.
pub open spec fn avg_of(total: int, count: int) -> int {
    if count == 0 {
        0
    } else if total >= 0 {
        total / count
    } else {
        -((-total) / count)
    }
}

/// The payout of any eight-bit byte under a multiplier below `2^32` stays
/// within fixed bounds, small against `i128`.
pub proof fn lemma_payout_in_range(bits: Seq<bool>, multiplier: int)
    requires
        bits.len() == 8,
        0 <= multiplier <= 0xffff_ffff,
    ensures
        -128 * 0xffff_ffff <= payout_of(bits, multiplier) <= 256 * 0xffff_ffff,
{
    lemma_decode_form(bits);
    let v = decode_spec(bits);
    assert(-128 * 0xffff_ffff <= v * multiplier <= 127 * 0xffff_ffff) by (nonlinear_arith)
        requires
            -128 <= v <= 127,
            0 <= multiplier <= 0xffff_ffff,
    ;
}

/// A byte whose sign bit is clear decodes to a non-negative value, so any
/// payout priced from it under a positive multiplier is non-negative. Free
/// spins force the sign bit clear, so a free spin always produces a
/// non-negative outcome.
pub proof fn lemma_clear_sign_payout_nonneg(bits: Seq<bool>, multiplier: int)
    requires
        bits.len() == 8,
        !bits[0],
        multiplier >= 1,
    ensures
        decode_spec(bits) >= 0,
        payout_of(bits, multiplier) >= 0,
{
    lemma_unsigned_value_bounds(bits);
    let v = decode_spec(bits);
    assert(v * multiplier >= 0 && 256 * multiplier >= 0) by (nonlinear_arith)
        requires
            v >= 0,
            multiplier >= 1,
    ;
}

/// A sequence is all clear exactly when its unsigned numeral is zero.
proof fn lemma_unsigned_value_zero(s: Seq<bool>)
    ensures
        (crate::binary_byte::unsigned_value(s) == 0) <==> (forall|i: int|
            0 <= i < s.len() ==> !s[i]),
    decreases s.len(),
{
    if s.len() == 0 {
    } else {
        lemma_unsigned_value_zero(s.drop_last());
        lemma_unsigned_value_bounds(s.drop_last());
        if crate::binary_byte::unsigned_value(s) == 0 {
            assert forall|i: int| 0 <= i < s.len() implies !s[i] by {
                if i < s.len() - 1 {
                    assert(s.drop_last()[i] == s[i]);
                } else {
                    assert(s.last() == s[i]);
                }
            }
        } else {
            if forall|i: int| 0 <= i < s.len() ==> !s[i] {
                assert forall|i: int| 0 <= i < s.len() - 1 implies !s.drop_last()[i] by {
                    assert(s.drop_last()[i] == s[i]);
                }
                assert(!s.last());
            }
        }
    }
}

/// A sequence is all clear exactly when it has no set bits; the count is never
/// negative.
proof fn lemma_set_bit_count_zero(s: Seq<bool>)
    ensures
        0 <= set_bit_count(s) <= s.len(),
        (set_bit_count(s) == 0) <==> (forall|i: int| 0 <= i < s.len() ==> !s[i]),
    decreases s.len(),
{
    if s.len() == 0 {
    } else {
        lemma_set_bit_count_zero(s.drop_last());
        if set_bit_count(s) == 0 {
            assert forall|i: int| 0 <= i < s.len() implies !s[i] by {
                if i < s.len() - 1 {
                    assert(s.drop_last()[i] == s[i]);
                } else {
                    assert(s.last() == s[i]);
                }
            }
        } else {
            if forall|i: int| 0 <= i < s.len() ==> !s[i] {
                assert forall|i: int| 0 <= i < s.len() - 1 implies !s.drop_last()[i] by {
                    assert(s.drop_last()[i] == s[i]);
                }
                assert(!s.last());
            }
        }
    }
}

/// The all-zero byte decodes to 0 and is always classified as the null-byte
/// event, never as a power of two; no other byte decodes to 0.
pub proof fn lemma_null_byte_classification(s: Seq<bool>)
    requires
        s.len() == 8,
    ensures
        (decode_spec(s) == 0) <==> (forall|i: int| 0 <= i < 8 ==> !s[i]),
        decode_spec(s) == 0 ==> event_of(s) == Some(SpinEvent::NullByte) && set_bit_count(s) == 0,
{
    lemma_decode_form(s);
    lemma_unsigned_value_zero(s);
    lemma_set_bit_count_zero(s);
}

/// A byte with exactly one set bit is always classified as the power-of-two
/// event — it cannot also be the null byte, so the two events are mutually
/// exclusive. One spin classified this way grants exactly one additional free
/// spin: see [`spin_transition`].
pub proof fn lemma_power_of_two_classification(s: Seq<bool>)
    requires
        s.len() == 8,
        set_bit_count(s) == 1,
    ensures
        event_of(s) == Some(SpinEvent::PowerOfTwo),
        decode_spec(s) != 0,
{
    lemma_null_byte_classification(s);
    lemma_set_bit_count_zero(s);
}

/// Relies on `rand::random_range` over the range `0..100`: the result is
/// drawn from that (non-empty) range by the thread-local generator, so it is
/// always below 100. Nothing else can be promised of a random draw.
#[verifier::external_body]
fn draw_percent() -> (r: u8)
    ensures
        r < 100,
{
    rand::random_range(0..100u8)
}

/// Draw the eight bits of one spin: each bit is set when an independent draw
/// from `0..100` lands below `threshold` (so `threshold` is the chance, in
/// percent, of a set bit). On a free-spin draw the sign bit is forced clear.
fn draw_byte(threshold: u8, force_sign_clear: bool) -> (r: BinaryByte)
    ensures
        force_sign_clear ==> !r@[0],
{
    let mut bits: BinaryByte = [false, false, false, false, false, false, false, false];
    let mut i: usize = 0;
    while i < 8
        invariant
            i <= 8,
            force_sign_clear ==> !bits@[0],
        decreases 8 - i,
    {
        if i == 0 && force_sign_clear {
            bits[0] = false;
        } else {
            bits[i] = draw_percent() < threshold;
        }
        i += 1;
    }
    bits
}

impl SlotMachine for ByteBuilder {
    /// The bookkeeping invariant: the multiplier is normalized, the running
    /// totals agree with the recorded payout history, and the current payout
    /// is within the range any single spin can price.
    open spec fn wf(&self) -> bool {
        &&& self.multiplier >= 1
        &&& self.payout_history@.len() == self.total_spins + self.total_free_spins
        &&& self.total_spins + self.total_free_spins <= u128::MAX
        &&& self.total_payout == sum_seq(self.payout_history@)
        &&& -128 * 0xffff_ffff <= self.curr_payout <= 256 * 0xffff_ffff
    }

    open spec fn can_spin(&self) -> bool {
        &&& self.total_spins + self.total_free_spins < u128::MAX
        &&& self.total_null_bytes < u128::MAX
        &&& self.remaining_free_spins < u32::MAX
        &&& self.total_payout <= i128::MAX - 256 * 0xffff_ffff
        &&& self.total_payout >= i128::MIN + 128 * 0xffff_ffff
    }

    open spec fn multiplier_spec(&self) -> int {
        self.multiplier as int
    }

    open spec fn free_spins_spec(&self) -> int {
        self.remaining_free_spins as int
    }

    open spec fn payout_spec(&self) -> int {
        self.curr_payout as int
    }

    open spec fn new_ens(r: Self) -> bool {
        &&& r.byte@ == Seq::new(8, |i: int| false)
        &&& r.multiplier == 1
        &&& r.curr_payout == 0
        &&& r.last_event is None
        &&& r.total_spins == 0
        &&& r.total_payout == 0
        &&& r.total_free_spins == 0
        &&& r.total_null_bytes == 0
        &&& r.remaining_free_spins == 0
        &&& r.payout_history@ == Seq::<int>::empty()
    }

    open spec fn set_mult_ens(pre: Self, post: Self, mult: u32) -> bool {
        post == (ByteBuilder {
            multiplier: if mult == 0 {
                1u32
            } else {
                mult
            },
            ..pre
        })
    }

    /// One spin happened: some eight-bit byte was displayed and the machine
    /// moved by [`spin_transition`] on it; on a free spin the drawn byte's
    /// sign bit was forced clear.
    open spec fn spin_ens(pre: Self, post: Self) -> bool {
        exists|bits: Seq<bool>|
            {
                &&& #[trigger] spin_transition(pre, post, bits)
                &&& bits.len() == 8
                &&& (pre.remaining_free_spins > 0 ==> !bits[0])
            }
    }

    fn new() -> (r: Self) {
        let r = ByteBuilder {
            byte: [false, false, false, false, false, false, false, false],
            multiplier: 1,
            curr_payout: 0,
            last_event: None,
            total_spins: 0,
            total_payout: 0,
            total_free_spins: 0,
            total_null_bytes: 0,
            remaining_free_spins: 0,
            payout_history: Ghost(Seq::empty()),
        };
        proof {
            assert(r.byte@ =~= Seq::new(8, |i: int| false));
        }
        r
    }

    fn set_mult(&mut self, mult: u32) {
        self.multiplier = match mult {
            0 => 1,
            _ => mult,
        };
    }

    fn spin(&mut self) {
        let ghost pre = *self;
        if self.remaining_free_spins == 0 {
            let bits = draw_byte(65, false);
            self.spin_with_bits(bits);
            proof {
                assert(spin_transition(pre, *self, bits@));
            }
        } else {
            self.free_spin();
        }
    }

    fn payout(&self) -> (r: i128) {
        self.curr_payout
    }
}

/// Setting a multiplier of zero behaves identically to setting a multiplier
/// of one: both normalize to a multiplier of 1 and change nothing else about
/// the machine.
pub proof fn lemma_set_mult_zero_is_one(
    pre: ByteBuilder,
    with_zero: ByteBuilder,
    with_one: ByteBuilder,
)
    requires
        <ByteBuilder as SlotMachine>::set_mult_ens(pre, with_zero, 0),
        <ByteBuilder as SlotMachine>::set_mult_ens(pre, with_one, 1),
    ensures
        with_zero == with_one,
{
}

/// Relies on `i128::unsigned_abs`: the absolute value of the argument, as an
/// unsigned integer wide enough to hold even the absolute value of the
/// minimum.
#[verifier::external_body]
fn magnitude_of(x: i128) -> (r: u128)
    ensures
        r as int == (if x >= 0 {
            x as int
        } else {
            -(x as int)
        }),
{
    x.unsigned_abs()
}

} // verus!
