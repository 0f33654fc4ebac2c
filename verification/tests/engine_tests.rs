use bit_casino_slots::byte_builder::{ByteBuilder, SpinEvent};
use bit_casino_slots::machines::SlotMachine;

const ZERO: [bool; 8] = [false; 8];
const ONE: [bool; 8] = [false, false, false, false, false, false, false, true];
const FOUR: [bool; 8] = [false, false, false, false, false, true, false, false];
const MINUS_ONE: [bool; 8] = [true; 8];
const MINUS_TWO: [bool; 8] = [true, true, true, true, true, true, true, false];
const MINUS_THREE: [bool; 8] = [true, true, true, true, true, true, false, true];

#[test]
fn new_machine_is_fresh() {
    let m = ByteBuilder::new();
    assert_eq!(m.multiplier, 1);
    assert_eq!(m.payout(), 0);
    assert_eq!(m.total_spins, 0);
    assert_eq!(m.total_free_spins, 0);
    assert_eq!(m.total_null_bytes, 0);
    assert_eq!(m.remaining_free_spins, 0);
    assert_eq!(m.event(), None);
    assert_eq!(m.average_payout(), 0);
}

#[test]
fn set_mult_zero_normalizes_to_one() {
    let mut with_zero = ByteBuilder::new();
    with_zero.set_mult(0);
    let mut with_one = ByteBuilder::new();
    with_one.set_mult(1);
    assert_eq!(with_zero.multiplier, 1);
    assert_eq!(with_one.multiplier, 1);
    with_zero.spin_with_bits(FOUR);
    with_one.spin_with_bits(FOUR);
    assert_eq!(with_zero.payout(), with_one.payout());
    assert_eq!(with_zero.remaining_free_spins, with_one.remaining_free_spins);
}

#[test]
fn set_mult_keeps_a_positive_multiplier() {
    let mut m = ByteBuilder::new();
    m.set_mult(64);
    assert_eq!(m.multiplier, 64);
}

#[test]
fn ordinary_spin_pays_decoded_value_times_multiplier() {
    let mut m = ByteBuilder::new();
    m.set_mult(1);
    m.spin_with_bits([false, false, false, false, false, false, true, true]);
    assert_eq!(m.payout(), 3);
    assert_eq!(m.event(), None);
    assert_eq!(m.last_event, None);
    assert_eq!(m.total_spins, 1);
    assert_eq!(m.remaining_free_spins, 0);
}

#[test]
fn single_set_bit_pays_its_value_and_grants_a_spin() {
    let mut m = ByteBuilder::new();
    m.set_mult(1);
    m.spin_with_bits(ONE);
    assert_eq!(m.payout(), 1);
    assert_eq!(m.event(), Some("PowerOfTwo".to_string()));
    assert_eq!(m.total_spins, 1);
    assert_eq!(m.remaining_free_spins, 1);
}

#[test]
fn negative_spin_pays_negative() {
    let mut m = ByteBuilder::new();
    m.set_mult(3);
    m.spin_with_bits(MINUS_TWO);
    assert_eq!(m.payout(), -6);
    assert_eq!(m.event(), None);
    assert_eq!(m.remaining_free_spins, 0);
}

#[test]
fn null_byte_event_pays_fixed_bonus() {
    let mut m = ByteBuilder::new();
    m.set_mult(2);
    m.spin_with_bits(ZERO);
    assert_eq!(m.payout(), 512);
    assert_eq!(m.event(), Some("NullByte".to_string()));
    assert_eq!(m.last_event, Some(SpinEvent::NullByte));
    assert_eq!(m.total_null_bytes, 1);
    // the all-zero byte has no set bit, so it grants no free spin
    assert_eq!(m.remaining_free_spins, 0);
}

#[test]
fn power_of_two_event_grants_exactly_one_free_spin() {
    let mut m = ByteBuilder::new();
    m.set_mult(2);
    m.spin_with_bits(FOUR);
    assert_eq!(m.event(), Some("PowerOfTwo".to_string()));
    assert_eq!(m.last_event, Some(SpinEvent::PowerOfTwo));
    assert_eq!(m.remaining_free_spins, 1);
    assert_eq!(m.payout(), 8); // payout still computed normally from the decode
    assert_eq!(m.total_null_bytes, 0);
}

#[test]
fn free_spin_is_consumed_before_paid_spins() {
    let mut m = ByteBuilder::new();
    m.spin_with_bits(FOUR); // grants one free spin
    assert_eq!(m.remaining_free_spins, 1);
    assert_eq!(m.total_spins, 1);
    m.spin_with_bits(MINUS_THREE); // consumed as the free spin
    assert_eq!(m.remaining_free_spins, 0);
    assert_eq!(m.total_spins, 1);
    assert_eq!(m.total_free_spins, 1);
}

#[test]
fn free_spin_outcome_is_never_negative() {
    for _ in 0..50 {
        let mut m = ByteBuilder::new();
        m.spin_with_bits(FOUR); // grants one free spin
        m.free_spin();
        assert!(m.payout() >= 0);
        assert_eq!(m.total_free_spins, 1);
    }
}

#[test]
fn spin_draws_and_records_one_paid_spin() {
    let mut m = ByteBuilder::new();
    m.set_mult(2);
    m.spin();
    assert_eq!(m.total_spins, 1);
    assert_eq!(m.total_free_spins, 0);
    assert!(m.payout() >= -256);
    assert!(m.payout() <= 512);
}

#[test]
fn spin_consumes_an_owed_free_spin() {
    let mut m = ByteBuilder::new();
    m.spin_with_bits(FOUR); // grants one free spin
    m.spin(); // must run as a free spin
    assert_eq!(m.total_spins, 1);
    assert_eq!(m.total_free_spins, 1);
    assert!(m.payout() >= 0);
}

#[test]
fn average_payout_is_total_over_spin_count() {
    let mut m = ByteBuilder::new();
    m.spin_with_bits(ONE); // payout 1
    assert_eq!(m.average_payout(), 1);
    m.spin_with_bits([false, false, false, false, false, false, true, true]); // payout 3
    assert_eq!(m.total_payout, 4);
    assert_eq!(m.average_payout(), 2);
}

#[test]
fn average_payout_counts_free_spins() {
    let mut m = ByteBuilder::new();
    m.spin_with_bits(FOUR); // paid, payout 4, grants a free spin
    m.spin_with_bits(MINUS_TWO); // free, payout -2
    assert_eq!(m.total_payout, 2);
    assert_eq!(m.total_spins, 1);
    assert_eq!(m.total_free_spins, 1);
    assert_eq!(m.average_payout(), 1);
}

#[test]
fn largest_multiplier_scales_without_overflow() {
    let mut m = ByteBuilder::new();
    m.set_mult(u32::MAX);
    m.spin_with_bits(MINUS_ONE);
    assert_eq!(m.payout(), -(u32::MAX as i128));
    let mut n = ByteBuilder::new();
    n.set_mult(u32::MAX);
    n.spin_with_bits(ZERO);
    assert_eq!(n.payout(), 256 * u32::MAX as i128);
}

#[test]
fn average_payout_truncates_toward_zero() {
    let mut m = ByteBuilder::new();
    m.spin_with_bits(MINUS_ONE); // payout -1
    m.spin_with_bits(MINUS_TWO); // payout -2, total -3 over 2 spins
    assert_eq!(m.average_payout(), -1);
}
