//! Byte and bit helpers shared by the register file, the bus and the ALU.
use vstd::prelude::*;

verus! {

/// The high byte of a 16-bit word.
pub open spec fn hi_byte(n: u16) -> u8 {
    (n / 256) as u8
}

/// The low byte of a 16-bit word.
pub open spec fn lo_byte(n: u16) -> u8 {
    (n % 256) as u8
}

/// The 16-bit word whose high byte is `hi` and whose low byte is `lo`.
pub open spec fn word_of(hi: u8, lo: u8) -> u16 {
    (hi as int * 256 + lo as int) as u16
}

/// Bit `index` of `n` (0 is the least significant bit), as 0 or 1.
pub open spec fn bit_u16(n: u16, index: u16) -> u16 {
    (n >> index) & 1
}

/// Bit `index` of `n` (0 is the least significant bit), as 0 or 1.
pub open spec fn bit_u8(n: u8, index: u8) -> u8 {
    (n >> index) & 1
}

/// A word built from two bytes splits back into them.
pub proof fn lemma_word_parts(hi: u8, lo: u8)
    ensures
        hi_byte(word_of(hi, lo)) == hi,
        lo_byte(word_of(hi, lo)) == lo,
        word_of(hi, lo) as int == hi as int * 256 + lo as int,
{
}

/// A word is rebuilt from its two bytes.
pub proof fn lemma_word_split(n: u16)
    ensures
        word_of(hi_byte(n), lo_byte(n)) == n,
{
}

/// The high byte of `n`.
pub fn get_hi(n: u16) -> (r: u8)
    ensures
        r == hi_byte(n),
{
    (n / 256) as u8
}

/// The low byte of `n`.
pub fn get_lo(n: u16) -> (r: u8)
    ensures
        r == lo_byte(n),
{
    (n % 256) as u8
}

/// Replaces the high byte of `n`, keeping the low byte.
pub fn set_hi(n: &mut u16, hi: u8)
    ensures
        *final(n) == word_of(hi, lo_byte(*old(n))),
{
    *n = (*n % 256) + (hi as u16) * 256;
}

/// Replaces the low byte of `n`, keeping the high byte.
pub fn set_lo(n: &mut u16, lo: u8)
    ensures
        *final(n) == word_of(hi_byte(*old(n)), lo),
{
    *n = (*n / 256) * 256 + lo as u16;
}

/// Combines two bytes into a word, `hi` in the upper half.
pub fn combine(hi: u8, lo: u8) -> (r: u16)
    ensures
        r == word_of(hi, lo),
{
    (hi as u16) * 256 + lo as u16
}

/// Splits a word into its (high, low) bytes.
pub fn split(n: u16) -> (r: (u8, u8))
    ensures
        r == (hi_byte(n), lo_byte(n)),
{
    (get_hi(n), get_lo(n))
}

/// Bit `index` of `n`, counted from the least significant bit.
pub fn get_bit_u16(n: u16, index: u8) -> (r: u8)
    requires
        index < 16,
    ensures
        r as u16 == bit_u16(n, index as u16),
        r <= 1,
{
    let b: u16 = (n >> (index as u16)) & 1;
    assert(b <= 1) by (bit_vector)
        requires
            b == (n >> (index as u16)) & 1,
    ;
    b as u8
}

/// Bit `index` of `n`, counted from the least significant bit.
pub fn get_bit_u8(n: u8, index: u8) -> (r: u8)
    requires
        index < 8,
    ensures
        r == bit_u8(n, index),
        r <= 1,
{
    let b: u8 = (n >> index) & 1;
    assert(b <= 1) by (bit_vector)
        requires
            b == (n >> index) & 1,
    ;
    b
}

/// `n` with bit `index` set to `value` (0 or 1).
pub open spec fn with_bit_u8(n: u8, index: u8, value: u8) -> u8 {
    if value == 1 {
        n | (1u8 << index)
    } else {
        n & !(1u8 << index)
    }
}

/// Sets bit `index` of `n` to `value`, leaving every other bit as it was.
pub fn set_bit_u8(n: &mut u8, index: u8, value: u8)
    requires
        index < 8,
        value <= 1,
    ensures
        *final(n) == with_bit_u8(*old(n), index, value),
        forall|j: u8|
            j < 8 ==> #[trigger] bit_u8(*final(n), j) == if j == index {
                value
            } else {
                bit_u8(*old(n), j)
            },
{
    let before: u8 = *n;
    let after: u8 = if value == 1 {
        before | (1u8 << index)
    } else {
        before & !(1u8 << index)
    };
    assert forall|j: u8| j < 8 implies #[trigger] bit_u8(after, j) == if j == index {
        value
    } else {
        bit_u8(before, j)
    } by {
        assert(((after >> j) & 1) == if j == index {
            value
        } else {
            (before >> j) & 1
        }) by (bit_vector)
            requires
                j < 8,
                index < 8,
                value <= 1,
                after == if value == 1 {
                    before | (1u8 << index)
                } else {
                    before & !(1u8 << index)
                },
        ;
    }
    *n = after;
}

/// Sets bit `index` of `n` to `value`, leaving every other bit as it was.
pub fn set_bit_u16(n: &mut u16, index: u8, value: u8)
    requires
        index < 16,
        value <= 1,
    ensures
        forall|j: u16|
            j < 16 ==> #[trigger] bit_u16(*final(n), j) == if j == index as u16 {
                value as u16
            } else {
                bit_u16(*old(n), j)
            },
{
    let before: u16 = *n;
    let i: u16 = index as u16;
    let v: u16 = value as u16;
    let after: u16 = if v == 1 {
        before | (1u16 << i)
    } else {
        before & !(1u16 << i)
    };
    assert forall|j: u16| j < 16 implies #[trigger] bit_u16(after, j) == if j == i {
        v
    } else {
        bit_u16(before, j)
    } by {
        assert(((after >> j) & 1) == if j == i {
            v
        } else {
            (before >> j) & 1
        }) by (bit_vector)
            requires
                j < 16,
                i < 16,
                v <= 1,
                after == if v == 1 {
                    before | (1u16 << i)
                } else {
                    before & !(1u16 << i)
                },
        ;
    }
    *n = after;
}

/// 1 when adding the low nibbles of `left` and `right` carries out of bit 3, else 0.
pub fn half_carry_u8_add(left: u8, right: u8) -> (r: u8)
    ensures
        r == if left % 16 + right % 16 > 15 {
            1u8
        } else {
            0u8
        },
{
    if left % 16 + right % 16 > 15 {
        1
    } else {
        0
    }
}

/// 1 when `left + right` does not fit in a byte, else 0.
pub fn carry_u8_add(left: u8, right: u8) -> (r: u8)
    ensures
        r == if left + right > 255 {
            1u8
        } else {
            0u8
        },
{
    if (left as u16) + (right as u16) > 0xFF {
        1
    } else {
        0
    }
}

/// 1 when `left + right` does not fit in 16 bits, else 0.
pub fn carry_u16_add(left: u16, right: u16) -> (r: u16)
    ensures
        r == if left + right > 65535 {
            1u16
        } else {
            0u16
        },
{
    if (left as u32) + (right as u32) > 0xFFFF {
        1
    } else {
        0
    }
}

/// 1 when adding the low 12 bits of `left` and `right` carries out of bit 11, else 0.
pub fn half_carry_u16_add(left: u16, right: u16) -> (r: u16)
    ensures
        r == if left % 4096 + right % 4096 > 4095 {
            1u16
        } else {
            0u16
        },
{
    if left % 0x1000 + right % 0x1000 > 0xFFF {
        1
    } else {
        0
    }
}

} // verus!
