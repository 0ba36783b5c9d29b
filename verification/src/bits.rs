//! Bit positions and bit ranges of a byte, stated arithmetically, together with
//! the `bitfield` operations that compute them.

use vstd::prelude::*;

verus! {

/// Two to the power `n`, for the exponents that occur within a byte.
pub open spec fn two_to(n: int) -> int {
    if n <= 0 {
        1
    } else if n == 1 {
        2
    } else if n == 2 {
        4
    } else if n == 3 {
        8
    } else if n == 4 {
        16
    } else if n == 5 {
        32
    } else if n == 6 {
        64
    } else if n == 7 {
        128
    } else {
        256
    }
}

/// The number held in bits `msb..=lsb` of `value`.
pub open spec fn bits_of(value: u8, msb: int, lsb: int) -> int {
    (value as int / two_to(lsb)) % two_to(msb - lsb + 1)
}

/// Whether bit `index` of `value` is set.
pub open spec fn bit_of(value: u8, index: int) -> bool {
    (value as int / two_to(index)) % 2 == 1
}

/// `x` times two to the power `n`.
pub open spec fn scaled(x: int, n: int) -> int {
    if n <= 0 {
        x
    } else if n == 1 {
        x * 2
    } else if n == 2 {
        x * 4
    } else if n == 3 {
        x * 8
    } else if n == 4 {
        x * 16
    } else if n == 5 {
        x * 32
    } else if n == 6 {
        x * 64
    } else if n == 7 {
        x * 128
    } else {
        x * 256
    }
}

/// `value` with bits `msb..=lsb` replaced by the low bits of `field`.
pub open spec fn with_bits(value: u8, msb: int, lsb: int, field: u8) -> int {
    value as int - scaled(bits_of(value, msb, lsb), lsb) + scaled(
        field as int % two_to(msb - lsb + 1),
        lsb,
    )
}

/// `value` with bit `index` made equal to `on`.
pub open spec fn with_bit(value: u8, index: int, on: bool) -> int {
    value as int - (if bit_of(value, index) {
        two_to(index)
    } else {
        0
    }) + (if on {
        two_to(index)
    } else {
        0
    })
}

/// Calls `bitfield::BitRange::<u8>::bit_range` on a `u8`. The contract claims
/// that the result is the number formed by bits `msb..=lsb` of `value`, moved
/// down to bit 0. Not proved: the shifts are those of the `bitfield` crate.
#[verifier::external_body]
pub(crate) fn bit_range(value: u8, msb: usize, lsb: usize) -> (r: u8)
    requires
        lsb <= msb < 8,
    ensures
        r == bits_of(value, msb as int, lsb as int),
{
    bitfield::BitRange::<u8>::bit_range(&value, msb, lsb)
}

/// Calls `bitfield::BitRange::<u8>::set_bit_range` on a `u8`. The contract
/// claims that bits `msb..=lsb` of `value` become the low bits of `field` and
/// that every other bit stays as it was. Not proved.
#[verifier::external_body]
pub(crate) fn set_bit_range(value: &mut u8, msb: usize, lsb: usize, field: u8)
    requires
        lsb <= msb < 8,
    ensures
        *final(value) == with_bits(*old(value), msb as int, lsb as int, field),
{
    bitfield::BitRange::<u8>::set_bit_range(value, msb, lsb, field)
}

/// Calls `bitfield::Bit::bit` on a `u8`. The contract claims that the result
/// tells whether bit `index` of `value` is set. Not proved.
#[verifier::external_body]
pub(crate) fn bit(value: u8, index: usize) -> (r: bool)
    requires
        index < 8,
    ensures
        r == bit_of(value, index as int),
{
    bitfield::Bit::bit(&value, index)
}

/// Calls `bitfield::Bit::set_bit` on a `u8`. The contract claims that bit
/// `index` of `value` becomes `on` and that every other bit stays as it was.
/// Not proved.
#[verifier::external_body]
pub(crate) fn set_bit(value: &mut u8, index: usize, on: bool)
    requires
        index < 8,
    ensures
        *final(value) == with_bit(*old(value), index as int, on),
{
    bitfield::Bit::set_bit(value, index, on)
}

/// Shifts and masks on one bit of a byte, as arithmetic.
pub proof fn lemma_single_bit(x: u8, n: u8)
    by (bit_vector)
    requires
        n < 8,
    ensures
        (x >> n) & 1 == 1 ==> x | (1u8 << n) == x,
        (x >> n) & 1 == 1 ==> x & !(1u8 << n) == (x - (1u8 << n)) as u8,
        (x >> n) & 1 != 1 ==> x | (1u8 << n) == (x + (1u8 << n)) as u8,
        (x >> n) & 1 != 1 ==> x & !(1u8 << n) == x,
        n == 0 ==> (x >> n) & 1 == (x % 2) as u8,
        n == 1 ==> (x >> n) & 1 == ((x / 2) % 2) as u8,
        n == 2 ==> (x >> n) & 1 == ((x / 4) % 2) as u8,
        n == 3 ==> (x >> n) & 1 == ((x / 8) % 2) as u8,
        n == 4 ==> (x >> n) & 1 == ((x / 16) % 2) as u8,
        n == 5 ==> (x >> n) & 1 == ((x / 32) % 2) as u8,
        n == 6 ==> (x >> n) & 1 == ((x / 64) % 2) as u8,
        n == 7 ==> (x >> n) & 1 == ((x / 128) % 2) as u8,
{
}

/// The weight of one bit of a byte.
pub proof fn lemma_bit_weight(x: u8, n: u8)
    by (bit_vector)
    requires
        n < 8,
    ensures
        (x >> n) & 1 != 1 ==> (x + (1u8 << n)) < 256,
        (x >> n) & 1 == 1 ==> x >= (1u8 << n),
        n == 0 ==> 1u8 << n == 1,
        n == 1 ==> 1u8 << n == 2,
        n == 2 ==> 1u8 << n == 4,
        n == 3 ==> 1u8 << n == 8,
        n == 4 ==> 1u8 << n == 16,
        n == 5 ==> 1u8 << n == 32,
        n == 6 ==> 1u8 << n == 64,
        n == 7 ==> 1u8 << n == 128,
{
}

proof fn lemma_bit_frame(x: u8, n: u8, j: u8)
    by (bit_vector)
    requires
        n < 8,
        j < 8,
    ensures
        ((x | (1u8 << n)) >> j) & 1 == (if j == n {
            1u8
        } else {
            (x >> j) & 1
        }),
        ((x & !(1u8 << n)) >> j) & 1 == (if j == n {
            0u8
        } else {
            (x >> j) & 1
        }),
{
}

/// Changing one bit of a byte gives a byte, in which that bit is as asked and
/// every other bit is as it was.
pub proof fn lemma_with_bit(value: u8, index: int, on: bool, other: int)
    requires
        0 <= index < 8,
        0 <= other < 8,
    ensures
        0 <= with_bit(value, index, on) < 256,
        bit_of(with_bit(value, index, on) as u8, other) == (if other == index {
            on
        } else {
            bit_of(value, other)
        }),
{
    let n = index as u8;
    let j = other as u8;
    lemma_single_bit(value, n);
    lemma_bit_weight(value, n);
    lemma_bit_frame(value, n, j);
    lemma_single_bit(value, j);
    let set = value | (1u8 << n);
    let clear = value & !(1u8 << n);
    lemma_single_bit(set, j);
    lemma_single_bit(clear, j);
    assert(((value >> n) & 1 == 1) == bit_of(value, index));
    assert(((value >> j) & 1 == 1) == bit_of(value, other));
    assert(((set >> j) & 1 == 1) == bit_of(set, other));
    assert(((clear >> j) & 1 == 1) == bit_of(clear, other));
    assert((1u8 << n) == two_to(index));
    if on {
        assert(with_bit(value, index, on) == set);
    } else {
        assert(with_bit(value, index, on) == clear);
    }
}

} // verus!
