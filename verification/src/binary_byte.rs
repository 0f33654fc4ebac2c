//! The `BinaryByte` codec: an ordered, fixed-length sequence of eight boolean
//! bits, most-significant bit first, read as a two's-complement signed integer
//! in the range `[-128, 127]`.
//!
//! The codec is total over its domain and round-trips in both directions:
//! [`lemma_decode_encode`] and [`lemma_encode_decode`] prove
//! `decode(encode(v)) == v` and `encode(decode(b)) == b`.

use vstd::prelude::*;

verus! {

use vstd::arithmetic::div_mod::{
    lemma_div_denominator,
    lemma_fundamental_div_mod,
    lemma_fundamental_div_mod_converse,
};
use vstd::arithmetic::power2::{lemma2_to64, lemma_pow2_pos, lemma_pow2_unfold, pow2};
use vstd::string::StringExecFns;

/// The eight bits shown on the Byte Builder screen, most significant first.
pub type BinaryByte = [bool; 8];

/// A bit as the integer it contributes: `1` for a set bit, `0` otherwise.
pub open spec fn bit_int(b: bool) -> int {
    if b {
        1
    } else {
        0
    }
}

/// The value of a bit sequence read as an unsigned binary numeral,
/// most significant bit first.
pub open spec fn unsigned_value(s: Seq<bool>) -> int
    decreases s.len(),
{
    if s.len() == 0 {
        0
    } else {
        2 * unsigned_value(s.drop_last()) + bit_int(s.last())
    }
}

/// Every bit flipped: the one's complement.
pub open spec fn flip_bits(s: Seq<bool>) -> Seq<bool> {
    s.map_values(|b: bool| !b)
}

/// Two's-complement reading of eight bits. If the sign bit (index 0) is clear,
/// the value is the unsigned numeral; otherwise every bit is flipped, the
/// result is read as an unsigned numeral, and the value is `-(1 + that)`.
pub open spec fn decode_spec(s: Seq<bool>) -> int {
    if s[0] {
        -1 - unsigned_value(flip_bits(s))
    } else {
        unsigned_value(s)
    }
}

/// The eight-bit two's-complement encoding of a value in `[-128, 127]`:
/// bit `i` carries weight `2^(7-i)` of the representative `v + 256` (for
/// negative `v`) or `v` itself.
pub open spec fn encode_spec(v: int) -> Seq<bool> {
    let x = if v < 0 {
        v + 256
    } else {
        v
    };
    Seq::new(8, |i: int| x / (pow2((7 - i) as nat) as int) % 2 == 1)
}

/// An unsigned numeral over `n` bits lies in `[0, 2^n)`.
pub proof fn lemma_unsigned_value_bounds(s: Seq<bool>)
    ensures
        0 <= unsigned_value(s) < pow2(s.len()),
    decreases s.len(),
{
    if s.len() == 0 {
        lemma2_to64();
    } else {
        lemma_unsigned_value_bounds(s.drop_last());
        lemma_pow2_unfold(s.len());
    }
}

/// Flipping every bit of an `n`-bit numeral yields `2^n - 1` minus the numeral.
pub proof fn lemma_unsigned_value_flip(s: Seq<bool>)
    ensures
        unsigned_value(flip_bits(s)) == pow2(s.len()) - 1 - unsigned_value(s),
    decreases s.len(),
{
    if s.len() == 0 {
        assert(flip_bits(s) =~= Seq::<bool>::empty());
        lemma2_to64();
    } else {
        assert(flip_bits(s).drop_last() =~= flip_bits(s.drop_last()));
        assert(flip_bits(s).last() == !s.last());
        lemma_unsigned_value_flip(s.drop_last());
        lemma_pow2_unfold(s.len());
    }
}

/// The leading bit of an `n`-bit numeral carries weight `2^(n-1)`.
pub proof fn lemma_unsigned_value_first(s: Seq<bool>)
    requires
        s.len() >= 1,
    ensures
        unsigned_value(s) == bit_int(s[0]) * pow2((s.len() - 1) as nat) + unsigned_value(
            s.drop_first(),
        ),
    decreases s.len(),
{
    if s.len() == 1 {
        assert(s.drop_last() =~= Seq::<bool>::empty());
        assert(s.drop_first() =~= Seq::<bool>::empty());
        assert(s.last() == s[0]);
        lemma2_to64();
    } else {
        lemma_unsigned_value_first(s.drop_last());
        assert(s.drop_last()[0] == s[0]);
        assert(s.drop_last().drop_first() =~= s.drop_first().drop_last());
        assert(s.drop_first().last() == s.last());
        lemma_pow2_unfold((s.len() - 1) as nat);
    }
}

/// The two's-complement reading of eight bits equals the unsigned numeral
/// less `256` when the sign bit is set, and lies in `[-128, 127]`; the sign
/// bit is set exactly when the unsigned numeral reaches `128`.
pub proof fn lemma_decode_form(s: Seq<bool>)
    requires
        s.len() == 8,
    ensures
        decode_spec(s) == unsigned_value(s) - 256 * bit_int(s[0]),
        -128 <= decode_spec(s) <= 127,
        0 <= unsigned_value(s) < 256,
        s[0] <==> unsigned_value(s) >= 128,
{
    lemma2_to64();
    lemma_unsigned_value_flip(s);
    lemma_unsigned_value_bounds(s);
    lemma_unsigned_value_first(s);
    lemma_unsigned_value_bounds(s.drop_first());
}

/// Bit `i` of an `n`-bit numeral is recovered by dividing by `2^(n-1-i)` and
/// taking the parity.
pub proof fn lemma_bit_extraction(s: Seq<bool>, i: int)
    requires
        0 <= i < s.len(),
    ensures
        unsigned_value(s) / (pow2((s.len() - 1 - i) as nat) as int) % 2 == bit_int(s[i]),
    decreases s.len(),
{
    let n = s.len() as int;
    let v = unsigned_value(s);
    let v1 = unsigned_value(s.drop_last());
    let b = bit_int(s.last());
    lemma_unsigned_value_bounds(s);
    lemma_unsigned_value_bounds(s.drop_last());
    if i == n - 1 {
        lemma2_to64();
        assert(v / 1 == v);
        lemma_fundamental_div_mod_converse(v, 2, v1, b);
    } else {
        let k = (n - 1 - i) as nat;
        lemma_pow2_pos((k - 1) as nat);
        lemma_pow2_unfold(k);
        // v / 2 == v1, since v == 2 * v1 + b with 0 <= b < 2
        lemma_fundamental_div_mod_converse(v, 2, v1, b);
        // (v / 2) / 2^(k-1) == v / 2^k
        lemma_div_denominator(v, 2, pow2((k - 1) as nat) as int);
        lemma_bit_extraction(s.drop_last(), i);
        assert(s.drop_last()[i] == s[i]);
    }
}

/// Reading the binary digits of `x` back as an `n`-bit numeral yields `x`.
proof fn lemma_value_of_digits(x: int, n: nat)
    requires
        0 <= x < pow2(n),
    ensures
        unsigned_value(Seq::new(n, |i: int| x / (pow2((n - 1 - i) as nat) as int) % 2 == 1))
            == x,
    decreases n,
{
    let s = Seq::new(n, |i: int| x / (pow2((n - 1 - i) as nat) as int) % 2 == 1);
    if n == 0 {
        lemma2_to64();
        assert(s =~= Seq::<bool>::empty());
    } else {
        let x1 = x / 2;
        let s1 = Seq::new(
            (n - 1) as nat,
            |i: int| x1 / (pow2((n - 2 - i) as nat) as int) % 2 == 1,
        );
        assert forall|i: int| 0 <= i < n - 1 implies s.drop_last()[i] == s1[i] by {
            let k = (n - 1 - i) as nat;
            lemma_pow2_pos((k - 1) as nat);
            lemma_pow2_unfold(k);
            lemma_div_denominator(x, 2, pow2((k - 1) as nat) as int);
        }
        assert(s.drop_last() =~= s1);
        lemma_pow2_unfold(n);
        assert(0 <= x1 < pow2((n - 1) as nat)) by {
            lemma_fundamental_div_mod(x, 2);
        }
        lemma_value_of_digits(x1, (n - 1) as nat);
        // s.last() is the parity of x
        lemma2_to64();
        assert(s.last() == (x / 1 % 2 == 1));
        assert(x / 1 == x);
        lemma_fundamental_div_mod(x, 2);
        assert(unsigned_value(s) == 2 * x1 + bit_int(s.last()));
    }
}

/// Decoding inverts encoding: for every value in `[-128, 127]`, the
/// two's-complement reading of its eight-bit encoding is the value itself.
pub proof fn lemma_decode_encode(v: int)
    requires
        -128 <= v <= 127,
    ensures
        encode_spec(v).len() == 8,
        decode_spec(encode_spec(v)) == v,
{
    let x = if v < 0 {
        v + 256
    } else {
        v
    };
    lemma2_to64();
    lemma_value_of_digits(x, 8);
    let s = encode_spec(v);
    assert(s =~= Seq::new(8, |i: int| x / (pow2((7 - i) as nat) as int) % 2 == 1));
    assert(unsigned_value(s) == x);
    lemma_decode_form(s);
}

/// Encoding inverts decoding: every eight-bit sequence is the encoding of its
/// own two's-complement reading.
pub proof fn lemma_encode_decode(s: Seq<bool>)
    requires
        s.len() == 8,
    ensures
        encode_spec(decode_spec(s)) == s,
{
    lemma_decode_form(s);
    let v = decode_spec(s);
    let x = if v < 0 {
        v + 256
    } else {
        v
    };
    assert(x == unsigned_value(s));
    let e = encode_spec(v);
    assert forall|i: int| 0 <= i < 8 implies e[i] == s[i] by {
        lemma_bit_extraction(s, i);
    }
    assert(e =~= s);
}

/// Convert the binary byte **in place** to its one's complement, flipping
/// every bit. The codec reads a negative byte by flipping and offsetting, so
/// this is the sign-handling step shared by encoding and decoding.
pub fn sign_change(bin: &mut BinaryByte)
    ensures
        final(bin)@ == flip_bits(old(bin)@),
{
    let mut i: usize = 0;
    while i < 8
        invariant
            i <= 8,
            forall|j: int| 0 <= j < i ==> bin@[j] == !old(bin)@[j],
            forall|j: int| i <= j < 8 ==> bin@[j] == old(bin)@[j],
        decreases 8 - i,
    {
        bin[i] = !bin[i];
        i += 1;
    }
    proof {
        assert(bin@ =~= flip_bits(old(bin)@));
    }
}

/// Convert an integer into a binary byte: the two's-complement binary
/// equivalent of `dec`, most significant bit first.
pub fn to_binary(dec: i8) -> (r: BinaryByte)
    ensures
        r@ == encode_spec(dec as int),
{
    let x: u8 = if dec >= 0 {
        dec as u8
    } else {
        ((dec as i16) + 256) as u8
    };
    proof {
        lemma2_to64();
    }
    let mut bin: BinaryByte = [false; 8];
    let mut i: usize = 0;
    let mut place: u8 = 128;
    while i < 8
        invariant
            i <= 8,
            i < 8 ==> place as int == pow2((7 - i) as nat),
            x as int == (if dec < 0 {
                dec + 256
            } else {
                dec as int
            }),
            forall|j: int|
                0 <= j < i ==> bin@[j] == (x as int / (pow2((7 - j) as nat) as int) % 2 == 1),
        decreases 8 - i,
    {
        proof {
            lemma_pow2_pos((7 - i) as nat);
        }
        bin[i] = (x / place) % 2 == 1;
        proof {
            if i < 7 {
                lemma_pow2_unfold((7 - i) as nat);
            }
        }
        place = place / 2;
        i += 1;
    }
    proof {
        assert(bin@ =~= encode_spec(dec as int));
    }
    bin
}

/// Convert a binary byte into the integer it represents in two's complement.
pub fn to_decimal(bin: &BinaryByte) -> (r: i8)
    ensures
        r as int == decode_spec(bin@),
{
    let neg = bin[0];
    let ghost m: Seq<bool> = if neg {
        flip_bits(bin@)
    } else {
        bin@
    };
    let mut dec: u8 = 0;
    let mut i: usize = 0;
    proof {
        lemma2_to64();
    }
    while i < 8
        invariant
            i <= 8,
            neg == bin@[0],
            m == (if neg {
                flip_bits(bin@)
            } else {
                bin@
            }),
            dec as int == unsigned_value(m.take(i as int)),
        decreases 8 - i,
    {
        let b = if neg {
            !bin[i]
        } else {
            bin[i]
        };
        proof {
            assert(b == m[i as int]);
            assert(m.take(i as int + 1).drop_last() =~= m.take(i as int));
            assert(m.take(i as int + 1).last() == m[i as int]);
            lemma_unsigned_value_bounds(m.take(i as int));
            lemma2_to64();
            vstd::arithmetic::power2::lemma_pow2_strictly_increases(i as nat, 8);
            if i < 7 {
                vstd::arithmetic::power2::lemma_pow2_strictly_increases(i as nat, 7);
            }
        }
        dec = dec * 2 + (if b {
            1
        } else {
            0
        });
        i += 1;
    }
    proof {
        assert(m.take(8) =~= m);
        lemma_unsigned_value_first(m);
        lemma_unsigned_value_bounds(m.drop_first());
        assert(!m[0]) by {
            if neg {
                assert(flip_bits(bin@)[0] == !bin@[0]);
            }
        }
        lemma2_to64();
    }
    if neg {
        -1 - (dec as i8)
    } else {
        dec as i8
    }
}

/// The characters of the rendered bitstring: `'0'`/`'1'` per bit, with a
/// single space after the fourth bit (the nibble boundary).
pub open spec fn bitstring_spec(s: Seq<bool>) -> Seq<char> {
    Seq::new(4, |i: int| bit_char(s[i])) + seq![' '] + Seq::new(4, |i: int| bit_char(s[i + 4]))
}

/// The character rendering one bit.
pub open spec fn bit_char(b: bool) -> char {
    if b {
        '1'
    } else {
        '0'
    }
}

/// Convert a byte into a bitstring of `'0'`/`'1'` characters with a space at
/// the nibble boundary, usually for display purposes.
pub fn to_bitstring(bin: &BinaryByte) -> (r: String)
    ensures
        r@ == bitstring_spec(bin@),
{
    let mut bits = String::new();
    let mut i: usize = 0;
    proof {
        reveal_strlit("0");
        reveal_strlit("1");
        reveal_strlit(" ");
    }
    while i < 8
        invariant
            i <= 8,
            i < 4 ==> bits@ =~= Seq::new(i as nat, |j: int| bit_char(bin@[j])),
            i >= 4 ==> bits@ =~= Seq::new(4, |j: int| bit_char(bin@[j])) + seq![' '] + Seq::new(
                (i - 4) as nat,
                |j: int| bit_char(bin@[j + 4]),
            ),
        decreases 8 - i,
    {
        proof {
            reveal_strlit("0");
            reveal_strlit("1");
            reveal_strlit(" ");
        }
        bits.append(if bin[i] {
            "1"
        } else {
            "0"
        });
        if i == 3 {
            bits.append(" ");
        }
        i += 1;
    }
    proof {
        assert(bits@ =~= bitstring_spec(bin@));
    }
    bits
}

} // verus!
