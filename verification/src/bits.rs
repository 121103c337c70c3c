//! Facts about setting and clearing flag bits in a byte.

use vstd::prelude::*;
use bit_field::BitField;

verus! {

/// Setting or clearing the bits of `flag` in `x` makes them all set or all clear, and leaves
/// every bit outside `flag` as it was.
pub proof fn lemma_u8_flag_update(x: u8, flag: u8, other: u8)
    by (bit_vector)
    ensures
        (x | flag) & flag == flag,
        (x & !flag) & flag == 0,
        flag & other == 0 ==> (x | flag) & other == x & other,
        flag & other == 0 ==> (x & !flag) & other == x & other,
{
}

/// Whether bit `bit` of `byte` is set, counting from the least significant bit.
pub open spec fn bit_set(byte: u8, bit: u8) -> bool {
    byte & (1u8 << bit) != 0
}

/// `BitField::get_bit` of the bit_field crate on a byte: whether bit `bit` is set. It panics
/// for a bit past the byte, so `bit` must be below 8.
#[verifier::external_body]
pub(crate) fn get_bit(byte: u8, bit: usize) -> (set: bool)
    requires
        bit < 8,
    ensures
        set == bit_set(byte, bit as u8),
{
    byte.get_bit(bit)
}

/// `BitField::set_bit` of the bit_field crate on a byte: sets bit `bit` to `value` and leaves
/// the others. It panics for a bit past the byte, so `bit` must be below 8.
#[verifier::external_body]
pub(crate) fn set_bit(byte: &mut u8, bit: usize, value: bool)
    requires
        bit < 8,
    ensures
        *final(byte) == (if value {
            *old(byte) | (1u8 << bit as u8)
        } else {
            *old(byte) & !(1u8 << bit as u8)
        }),
{
    byte.set_bit(bit, value);
}

/// Setting a bit to a value makes it read back as that value and leaves the other bits as they
/// were.
pub proof fn lemma_set_bit(byte: u8, bit: u8, value: bool, other: u8)
    requires
        bit < 8,
        other < 8,
    ensures
        bit_set(
            if value {
                byte | (1u8 << bit)
            } else {
                byte & !(1u8 << bit)
            },
            bit,
        ) == value,
        other != bit ==> bit_set(
            if value {
                byte | (1u8 << bit)
            } else {
                byte & !(1u8 << bit)
            },
            other,
        ) == bit_set(byte, other),
{
    assert((byte | (1u8 << bit)) & (1u8 << bit) != 0 && (byte & !(1u8 << bit)) & (1u8 << bit) == 0
        && (other != bit ==> ((byte | (1u8 << bit)) & (1u8 << other) != 0) == (byte & (1u8 << other)
        != 0)) && (other != bit ==> ((byte & !(1u8 << bit)) & (1u8 << other) != 0) == (byte & (1u8
        << other) != 0))) by (bit_vector)
        requires
            bit < 8,
            other < 8,
    ;
}

/// No bit of a zero byte is set.
pub proof fn lemma_zero_byte(bit: u8)
    requires
        bit < 8,
    ensures
        !bit_set(0, bit),
{
    assert(0u8 & (1u8 << bit) == 0) by (bit_vector);
}

} // verus!
