//! The [`SlotMachine`] trait, which all slot machines of this crate implement,
//! regardless of their complexity.

use vstd::prelude::*;

verus! {

/// This trait must be implemented by any slot machine struct defined within
/// this crate. Each machine supplies its own bookkeeping invariant [`wf`] and
/// the exact meaning of its operations through the `*_ens` predicates, so that
/// callers that know the concrete machine see its full behaviour.
///
/// [`wf`]: SlotMachine::wf
pub trait SlotMachine: Sized {
    /// The machine's bookkeeping invariant, established by [`new`] and kept by
    /// every operation.
    ///
    /// [`new`]: SlotMachine::new
    spec fn wf(&self) -> bool;

    /// Whether the machine's counters and totals have headroom for one more
    /// spin.
    spec fn can_spin(&self) -> bool;

    /// The multiplier currently applied to wager and winnings.
    spec fn multiplier_spec(&self) -> int;

    /// Free spins currently owed to the player.
    spec fn free_spins_spec(&self) -> int;

    /// The payout attributable to the most recent spin.
    spec fn payout_spec(&self) -> int;

    /// What [`new`] guarantees of the machine it returns.
    ///
    /// [`new`]: SlotMachine::new
    spec fn new_ens(r: Self) -> bool;

    /// How [`set_mult`] relates the machine after the call to the one before.
    ///
    /// [`set_mult`]: SlotMachine::set_mult
    spec fn set_mult_ens(pre: Self, post: Self, mult: u32) -> bool;

    /// How [`spin`] relates the machine after the call to the one before.
    ///
    /// [`spin`]: SlotMachine::spin
    spec fn spin_ens(pre: Self, post: Self) -> bool;

    /// Construct a new slot machine.
    fn new() -> (r: Self)
        ensures
            r.wf(),
            r.can_spin(),
            r.multiplier_spec() == 1,
            r.free_spins_spec() == 0,
            r.payout_spec() == 0,
            Self::new_ens(r),
    ;

    /// Set the multiplier on the slot machine. A supplied multiplier of 0 is
    /// normalized to 1 rather than rejected.
    fn set_mult(&mut self, mult: u32)
        requires
            old(self).wf(),
        ensures
            final(self).wf(),
            final(self).multiplier_spec() == (if mult == 0 {
                1int
            } else {
                mult as int
            }),
            final(self).free_spins_spec() == old(self).free_spins_spec(),
            final(self).payout_spec() == old(self).payout_spec(),
            Self::set_mult_ens(*old(self), *final(self), mult),
    ;

    /// Spin the slot machine and calculate the payout. A free spin, if one is
    /// owed, is consumed before paid spins resume and always yields a
    /// non-negative payout.
    fn spin(&mut self)
        requires
            old(self).wf(),
            old(self).can_spin(),
        ensures
            final(self).wf(),
            final(self).multiplier_spec() == old(self).multiplier_spec(),
            old(self).free_spins_spec() > 0 ==> {
                &&& final(self).payout_spec() >= 0
                &&& old(self).free_spins_spec() - 1 <= final(self).free_spins_spec()
                    <= old(self).free_spins_spec()
            },
            old(self).free_spins_spec() == 0 ==> old(self).free_spins_spec() <= final(self).free_spins_spec() <= old(self).free_spins_spec() + 1,
            Self::spin_ens(*old(self), *final(self)),
    ;

    /// Return the most recent payout calculated by this slot machine. Before
    /// any spin the payout is 0 by convention.
    fn payout(&self) -> (r: i128)
        requires
            self.wf(),
        ensures
            r as int == self.payout_spec(),
    ;
}

} // verus!
