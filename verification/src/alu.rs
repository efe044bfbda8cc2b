//! Arithmetic on bytes and the layout of the status register.
use vstd::prelude::*;

verus! {

/// Bit 0 of the status register: carry.
pub const FLAG_CARRY: u8 = 0x01;

/// Bit 1: the last result was zero.
pub const FLAG_ZERO: u8 = 0x02;

/// Bit 2: maskable interrupts are held off.
pub const FLAG_INTERRUPT: u8 = 0x04;

/// Bit 3: decimal mode. It can be set and cleared and changes no result.
pub const FLAG_DECIMAL: u8 = 0x08;

/// Bit 4: break. It tells a software interrupt from a hardware one in the
/// copy of the register that an interrupt pushes.
pub const FLAG_BREAK: u8 = 0x10;

/// Bit 5: wired to nothing; every pushed copy shows it set.
pub const FLAG_UNUSED: u8 = 0x20;

/// Bit 6: signed overflow.
pub const FLAG_OVERFLOW: u8 = 0x40;

/// Bit 7: the last result was negative.
pub const FLAG_NEGATIVE: u8 = 0x80;

/// Whether the bits of `flag` that `p` holds include a set one.
pub open spec fn has_flag(p: u8, flag: u8) -> bool {
    p & flag != 0
}

/// `p` with the bits of `flag` set or cleared.
pub open spec fn with_flag(p: u8, flag: u8, on: bool) -> u8 {
    if on {
        p | flag
    } else {
        p & !flag
    }
}

/// `flag` is one of the eight bits of the status register.
pub open spec fn is_flag(flag: u8) -> bool {
    flag == FLAG_CARRY || flag == FLAG_ZERO || flag == FLAG_INTERRUPT || flag == FLAG_DECIMAL
        || flag == FLAG_BREAK || flag == FLAG_UNUSED || flag == FLAG_OVERFLOW || flag
        == FLAG_NEGATIVE
}

/// Writing a flag gives it the value written and leaves every other flag as
/// it was.
pub proof fn lemma_flag_written(p: u8, flag: u8, on: bool, other: u8)
    requires
        is_flag(flag),
        is_flag(other),
    ensures
        has_flag(with_flag(p, flag, on), other) == if other == flag {
            on
        } else {
            has_flag(p, other)
        },
{
    assert(flag == 0x01 || flag == 0x02 || flag == 0x04 || flag == 0x08 || flag == 0x10 || flag
        == 0x20 || flag == 0x40 || flag == 0x80);
    assert(other == 0x01 || other == 0x02 || other == 0x04 || other == 0x08 || other == 0x10
        || other == 0x20 || other == 0x40 || other == 0x80);
    assert(((p | flag) & other != 0) == (other == flag || p & other != 0)) by (bit_vector)
        requires
            flag == 0x01 || flag == 0x02 || flag == 0x04 || flag == 0x08 || flag == 0x10 || flag
                == 0x20 || flag == 0x40 || flag == 0x80,
            other == 0x01 || other == 0x02 || other == 0x04 || other == 0x08 || other == 0x10
                || other == 0x20 || other == 0x40 || other == 0x80,
    ;
    assert(((p & !flag) & other != 0) == (other != flag && p & other != 0)) by (bit_vector)
        requires
            flag == 0x01 || flag == 0x02 || flag == 0x04 || flag == 0x08 || flag == 0x10 || flag
                == 0x20 || flag == 0x40 || flag == 0x80,
            other == 0x01 || other == 0x02 || other == 0x04 || other == 0x08 || other == 0x10
                || other == 0x20 || other == 0x40 || other == 0x80,
    ;
}

/// After Zero and Negative were taken from a byte, Zero is set exactly where
/// the byte is zero, Negative exactly where its bit 7 is set, and the other
/// flags are as they were.
pub proof fn lemma_zn_written(p: u8, value: u8, other: u8)
    requires
        is_flag(other),
    ensures
        has_flag(with_zn(p, value), other) == if other == FLAG_ZERO {
            value == 0
        } else if other == FLAG_NEGATIVE {
            value >= 0x80
        } else {
            has_flag(p, other)
        },
{
    let zero = with_flag(p, FLAG_ZERO, value == 0);
    lemma_flag_written(p, FLAG_ZERO, value == 0, other);
    lemma_flag_written(zero, FLAG_NEGATIVE, value >= 0x80, other);
}

/// `p` with Zero and Negative taken from `value`.
pub open spec fn with_zn(p: u8, value: u8) -> u8 {
    with_flag(with_flag(p, FLAG_ZERO, value == 0), FLAG_NEGATIVE, value >= 0x80)
}

/// `value` read as a signed number: bit 7 counts for minus 128.
pub open spec fn signed(value: u8) -> int {
    if value >= 0x80 {
        value - 0x100
    } else {
        value as int
    }
}

/// The byte that `i` wraps to.
pub open spec fn wrap8(i: int) -> u8 {
    (i % 0x100) as u8
}

/// The 16-bit value that `i` wraps to.
pub open spec fn wrap16(i: int) -> u16 {
    (i % 0x10000) as u16
}

/// Wrapping a sum is the same whether or not its first term was wrapped.
pub proof fn lemma_wrap16_sum(i: int, j: int)
    ensures
        wrap16(wrap16(i) + j) == wrap16(i + j),
{
}

/// Wrapping a sum is the same whether or not its first term was wrapped.
pub proof fn lemma_wrap8_sum(i: int, j: int)
    ensures
        wrap8(wrap8(i) + j) == wrap8(i + j),
{
}

/// Two numbers less than 256 apart wrap to different bytes.
pub proof fn lemma_wrap8_apart(i: int, j: int)
    requires
        0 < j - i < 0x100,
    ensures
        wrap8(i) != wrap8(j),
{
}

/// One for a set carry, zero for a clear one.
pub open spec fn bit(on: bool) -> int {
    if on {
        1
    } else {
        0
    }
}

/// A result byte with the carry and the signed overflow of the operation
/// that made it.
#[derive(PartialEq, Eq, Copy, Clone, Debug, Structural)]
pub struct Sum {
    pub value: u8,
    pub carry: bool,
    pub overflow: bool,
}

/// `a + m + carry`: the sum wrapped to a byte, whether it passed 255, and
/// whether the sum of the signed readings left the range of a signed byte.
pub open spec fn add_with_carry(a: u8, m: u8, carry: bool) -> Sum {
    let total = a + m + bit(carry);
    let signed_total = signed(a) + signed(m) + bit(carry);
    Sum {
        value: wrap8(total),
        carry: total > 0xff,
        overflow: signed_total < -128 || signed_total > 127,
    }
}

/// `a - m - (1 - carry)`: the difference wrapped to a byte, carry set where
/// nothing was borrowed, and whether the difference of the signed readings
/// left the range of a signed byte.
pub open spec fn sub_with_borrow(a: u8, m: u8, carry: bool) -> Sum {
    let total = a - m - (1 - bit(carry));
    let signed_total = signed(a) - signed(m) - (1 - bit(carry));
    Sum {
        value: wrap8(total),
        carry: total >= 0,
        overflow: signed_total < -128 || signed_total > 127,
    }
}

/// What a shift or rotation gives: the new byte and the bit that left it.
#[derive(PartialEq, Eq, Copy, Clone, Debug, Structural)]
pub struct Shifted {
    pub value: u8,
    pub carry: bool,
}

/// One position to the left; `carry_in` enters at bit 0.
pub open spec fn shift_left(value: u8, carry_in: bool) -> Shifted {
    Shifted { value: wrap8(2 * value + bit(carry_in)), carry: value >= 0x80 }
}

/// One position to the right; `carry_in` enters at bit 7.
pub open spec fn shift_right(value: u8, carry_in: bool) -> Shifted {
    Shifted { value: (value / 2 + 0x80 * bit(carry_in)) as u8, carry: value % 2 == 1 }
}

/// `p` after `register` was compared with `m`: Carry where the register is
/// not below, Zero where they are equal, Negative from bit 7 of the wrapped
/// difference.
pub open spec fn with_comparison(p: u8, register: u8, m: u8) -> u8 {
    with_zn(with_flag(p, FLAG_CARRY, register >= m), wrap8(register - m))
}

/// `p` after a bit test of `m` against `a`: Zero where they share no bit,
/// Overflow and Negative copied from bits 6 and 7 of `m`.
pub open spec fn with_bit_test(p: u8, a: u8, m: u8) -> u8 {
    with_flag(
        with_flag(with_flag(p, FLAG_ZERO, a & m == 0), FLAG_OVERFLOW, m & 0x40 != 0),
        FLAG_NEGATIVE,
        m & 0x80 != 0,
    )
}

/// After a comparison, Carry is set exactly where the register is not below
/// the operand, Zero exactly where they are equal, Negative exactly where
/// bit 7 of the wrapped difference is set, and the other flags are as they
/// were.
pub proof fn lemma_comparison_written(p: u8, register: u8, m: u8, other: u8)
    requires
        is_flag(other),
    ensures
        has_flag(with_comparison(p, register, m), other) == if other == FLAG_CARRY {
            register >= m
        } else if other == FLAG_ZERO {
            register == m
        } else if other == FLAG_NEGATIVE {
            wrap8(register - m) >= 0x80
        } else {
            has_flag(p, other)
        },
{
    lemma_flag_written(p, FLAG_CARRY, register >= m, other);
    lemma_zn_written(with_flag(p, FLAG_CARRY, register >= m), wrap8(register - m), other);
}

/// After a bit test, Zero is set exactly where the accumulator and the
/// operand share no bit, Overflow and Negative are bits 6 and 7 of the
/// operand, and the other flags are as they were.
pub proof fn lemma_bit_test_written(p: u8, a: u8, m: u8, other: u8)
    requires
        is_flag(other),
    ensures
        has_flag(with_bit_test(p, a, m), other) == if other == FLAG_ZERO {
            a & m == 0
        } else if other == FLAG_OVERFLOW {
            m & 0x40 != 0
        } else if other == FLAG_NEGATIVE {
            m & 0x80 != 0
        } else {
            has_flag(p, other)
        },
{
    let zero = with_flag(p, FLAG_ZERO, a & m == 0);
    let overflow = with_flag(zero, FLAG_OVERFLOW, m & 0x40 != 0);
    lemma_flag_written(p, FLAG_ZERO, a & m == 0, other);
    lemma_flag_written(zero, FLAG_OVERFLOW, m & 0x40 != 0, other);
    lemma_flag_written(overflow, FLAG_NEGATIVE, m & 0x80 != 0, other);
}

/// Whether a flag of `p` is set.
pub fn test_flag(p: u8, flag: u8) -> (on: bool)
    ensures
        on == has_flag(p, flag),
{
    (p & flag) != 0
}

/// Sets or clears a flag of `p`.
pub fn set_flag(p: u8, flag: u8, on: bool) -> (q: u8)
    ensures
        q == with_flag(p, flag, on),
{
    if on {
        p | flag
    } else {
        p & !flag
    }
}

/// Takes Zero and Negative from `value`.
pub fn update_zn(p: u8, value: u8) -> (q: u8)
    ensures
        q == with_zn(p, value),
{
    set_flag(set_flag(p, FLAG_ZERO, value == 0), FLAG_NEGATIVE, value >= 0x80)
}

/// Adds `m` and the carry to `a`.
pub fn adc(a: u8, m: u8, carry: bool) -> (sum: Sum)
    ensures
        sum == add_with_carry(a, m, carry),
{
    let c: u16 = if carry {
        1
    } else {
        0
    };
    let total: u16 = a as u16 + m as u16 + c;
    let value: u8 = (total & 0xff) as u8;
    let overflow = ((a ^ value) & (m ^ value) & 0x80) != 0;
    proof {
        assert(total & 0xff == total % 0x100) by (bit_vector);
        assert(((a ^ value) & (m ^ value) & 0x80 != 0) == ((a < 0x80) == (m < 0x80) && (a < 0x80)
            != (value < 0x80))) by (bit_vector);
    }
    Sum { value, carry: total > 0xff, overflow }
}

/// Subtracts `m` and the borrow from `a`, as the sum of `a`, the complement
/// of `m` and the carry.
pub fn sbc(a: u8, m: u8, carry: bool) -> (sum: Sum)
    ensures
        sum == sub_with_borrow(a, m, carry),
        sum == add_with_carry(a, !m, carry),
{
    proof {
        assert(!m == 0xff - m) by (bit_vector);
    }
    adc(a, !m, carry)
}

/// Compares `register` with `m` and records the outcome in `p`.
pub fn compare(p: u8, register: u8, m: u8) -> (q: u8)
    ensures
        q == with_comparison(p, register, m),
{
    let difference = register.wrapping_sub(m);
    update_zn(set_flag(p, FLAG_CARRY, register >= m), difference)
}

/// Tests the bits of `m` against `a` and records the outcome in `p`.
pub fn bit_test(p: u8, a: u8, m: u8) -> (q: u8)
    ensures
        q == with_bit_test(p, a, m),
{
    let zero = set_flag(p, FLAG_ZERO, (a & m) == 0);
    let overflow = set_flag(zero, FLAG_OVERFLOW, (m & 0x40) != 0);
    set_flag(overflow, FLAG_NEGATIVE, (m & 0x80) != 0)
}

/// Shifts or rotates one position to the left.
pub fn shl(value: u8, carry_in: bool) -> (r: Shifted)
    ensures
        r == shift_left(value, carry_in),
{
    let c: u8 = if carry_in {
        1
    } else {
        0
    };
    let shifted: u8 = (value << 1) | c;
    proof {
        assert(c <= 1 ==> ((value << 1) | c) == (2 * value + c) % 0x100) by (bit_vector);
    }
    Shifted { value: shifted, carry: value >= 0x80 }
}

/// Shifts or rotates one position to the right.
pub fn shr(value: u8, carry_in: bool) -> (r: Shifted)
    ensures
        r == shift_right(value, carry_in),
{
    let c: u8 = if carry_in {
        0x80
    } else {
        0
    };
    let shifted: u8 = (value >> 1) | c;
    proof {
        assert((c == 0 || c == 0x80) ==> ((value >> 1) | c) == value / 2 + c) by (bit_vector);
        assert((value & 1 != 0) == (value % 2 == 1)) by (bit_vector);
    }
    Shifted { value: shifted, carry: (value & 1) != 0 }
}

} // verus!
