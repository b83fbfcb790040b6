//! Single bits of a byte, stated by division so that contracts can speak of
//! them in plain arithmetic.
use vstd::prelude::*;

verus! {

/// Whether bit `k` of `value` is set, for `k` from 0 to 7: the value
/// divided by the weight of the bit is odd.
pub open spec fn bit(value: u8, k: int) -> bool {
    if k == 0 {
        value % 2 == 1
    } else if k == 1 {
        (value / 2) % 2 == 1
    } else if k == 2 {
        (value / 4) % 2 == 1
    } else if k == 3 {
        (value / 8) % 2 == 1
    } else if k == 4 {
        (value / 16) % 2 == 1
    } else if k == 5 {
        (value / 32) % 2 == 1
    } else if k == 6 {
        (value / 64) % 2 == 1
    } else {
        (value / 128) % 2 == 1
    }
}

/// The byte whose bit `k` is `bits[k]`.
pub open spec fn byte_of(
    b7: bool,
    b6: bool,
    b5: bool,
    b4: bool,
    b3: bool,
    b2: bool,
    b1: bool,
    b0: bool,
) -> u8 {
    ((if b7 { 128int } else { 0 }) + (if b6 { 64int } else { 0 }) + (if b5 { 32int } else { 0 })
        + (if b4 { 16int } else { 0 }) + (if b3 { 8int } else { 0 }) + (if b2 { 4int } else { 0 })
        + (if b1 { 2int } else { 0 }) + (if b0 { 1int } else { 0 })) as u8
}

proof fn lemma_masks(value: u8)
    by (bit_vector)
    ensures
        (value & 0x01 > 0) == (value % 2 == 1),
        (value & 0x02 > 0) == ((value / 2) % 2 == 1),
        (value & 0x04 > 0) == ((value / 4) % 2 == 1),
        (value & 0x08 > 0) == ((value / 8) % 2 == 1),
        (value & 0x10 > 0) == ((value / 16) % 2 == 1),
        (value & 0x20 > 0) == ((value / 32) % 2 == 1),
        (value & 0x40 > 0) == ((value / 64) % 2 == 1),
        (value & 0x80 > 0) == ((value / 128) % 2 == 1),
{
}

proof fn lemma_sum_of_bits(value: u8)
    by (bit_vector)
    ensures
        value == (if (value / 128) % 2 == 1 { 128u8 } else { 0u8 }) + (if (value / 64) % 2 == 1 {
            64u8
        } else {
            0u8
        }) + (if (value / 32) % 2 == 1 { 32u8 } else { 0u8 }) + (if (value / 16) % 2 == 1 {
            16u8
        } else {
            0u8
        }) + (if (value / 8) % 2 == 1 { 8u8 } else { 0u8 }) + (if (value / 4) % 2 == 1 {
            4u8
        } else {
            0u8
        }) + (if (value / 2) % 2 == 1 { 2u8 } else { 0u8 }) + (if value % 2 == 1 {
            1u8
        } else {
            0u8
        }),
{
}

/// Whether bit `k` of `value` is set.
pub fn is_set(value: u8, k: u8) -> (set: bool)
    requires
        k < 8,
    ensures
        set == bit(value, k as int),
{
    proof {
        lemma_masks(value);
    }
    if k == 0 {
        value & 0x01 > 0
    } else if k == 1 {
        value & 0x02 > 0
    } else if k == 2 {
        value & 0x04 > 0
    } else if k == 3 {
        value & 0x08 > 0
    } else if k == 4 {
        value & 0x10 > 0
    } else if k == 5 {
        value & 0x20 > 0
    } else if k == 6 {
        value & 0x40 > 0
    } else {
        value & 0x80 > 0
    }
}

/// A byte is the sum of the weights of its set bits.
pub proof fn lemma_byte_of_bits(value: u8)
    ensures
        byte_of(
            bit(value, 7),
            bit(value, 6),
            bit(value, 5),
            bit(value, 4),
            bit(value, 3),
            bit(value, 2),
            bit(value, 1),
            bit(value, 0),
        ) == value,
{
    lemma_sum_of_bits(value);
}

} // verus!
