use bit_casino_slots::binary_byte::{sign_change, to_binary, to_bitstring, to_decimal, BinaryByte};

fn bits_of(pattern: u8) -> BinaryByte {
    let mut bits: BinaryByte = [false; 8];
    for (i, bit) in bits.iter_mut().enumerate() {
        *bit = pattern & (1 << (7 - i)) != 0;
    }
    bits
}

#[test]
fn decode_of_encode_is_identity_for_all_values() {
    for v in -128i16..=127 {
        let v = v as i8;
        assert_eq!(to_decimal(&to_binary(v)), v);
    }
}

#[test]
fn encode_of_decode_is_identity_for_all_bytes() {
    for pattern in 0u16..=255 {
        let bits = bits_of(pattern as u8);
        assert_eq!(to_binary(to_decimal(&bits)), bits);
    }
}

#[test]
fn decode_known_values() {
    assert_eq!(to_decimal(&[false, false, false, false, false, false, false, false]), 0);
    assert_eq!(to_decimal(&[false, false, false, false, false, false, false, true]), 1);
    assert_eq!(to_decimal(&[false, false, false, false, false, true, false, false]), 4);
    assert_eq!(to_decimal(&[false, true, true, true, true, true, true, true]), 127);
    assert_eq!(to_decimal(&[true, false, false, false, false, false, false, false]), -128);
    assert_eq!(to_decimal(&[true, true, true, true, true, true, true, true]), -1);
    assert_eq!(to_decimal(&[true, true, true, true, true, true, false, true]), -3);
}

#[test]
fn encode_known_values() {
    assert_eq!(to_binary(0), [false; 8]);
    assert_eq!(to_binary(1), [false, false, false, false, false, false, false, true]);
    assert_eq!(to_binary(-1), [true; 8]);
    assert_eq!(to_binary(-128), [true, false, false, false, false, false, false, false]);
    assert_eq!(to_binary(127), [false, true, true, true, true, true, true, true]);
}

#[test]
fn sign_change_flips_every_bit() {
    let mut bits = [false, true, false, true, false, true, false, true];
    sign_change(&mut bits);
    assert_eq!(bits, [true, false, true, false, true, false, true, false]);
    sign_change(&mut bits);
    assert_eq!(bits, [false, true, false, true, false, true, false, true]);
}

#[test]
fn bitstring_has_nibble_separator() {
    assert_eq!(to_bitstring(&[false; 8]), "0000 0000");
    assert_eq!(
        to_bitstring(&[false, false, false, false, false, false, false, true]),
        "0000 0001"
    );
    assert_eq!(to_bitstring(&[true; 8]), "1111 1111");
    assert_eq!(
        to_bitstring(&[true, false, true, true, false, true, false, false]),
        "1011 0100"
    );
}
