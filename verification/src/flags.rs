//! The status byte: one bit per flag, and the rule shared by every
//! instruction that reports on its result.

use vstd::prelude::*;

verus! {

/// Carry, bit 0.
pub const CARRY: u8 = 0x01;

/// Zero, bit 1.
pub const ZERO: u8 = 0x02;

/// Interrupt-disable, bit 2.
pub const INTERRUPT_DISABLE: u8 = 0x04;

/// Decimal, bit 3. No instruction reads it: arithmetic is always binary.
pub const DECIMAL: u8 = 0x08;

/// Break, bit 4.
pub const BREAK: u8 = 0x10;

/// Bit 5, which has no meaning.
pub const UNUSED: u8 = 0x20;

/// Overflow, bit 6.
pub const OVERFLOW: u8 = 0x40;

/// Negative, bit 7.
pub const NEGATIVE: u8 = 0x80;

/// `flag` is one of the eight single-bit masks.
pub open spec fn is_flag(flag: u8) -> bool {
    flag == CARRY || flag == ZERO || flag == INTERRUPT_DISABLE || flag == DECIMAL || flag == BREAK
        || flag == UNUSED || flag == OVERFLOW || flag == NEGATIVE
}

/// Whether `flag` is set in `status`.
pub open spec fn flag_is_set(status: u8, flag: u8) -> bool {
    status & flag != 0
}

/// `status` with `flag` set (`on`) or cleared, and every other bit as it was.
pub open spec fn with_flag(status: u8, flag: u8, on: bool) -> u8 {
    if on {
        status | flag
    } else {
        status & !flag
    }
}

/// `status` after an instruction that reports on `result`: Zero says that
/// `result` is zero, Negative that its bit 7 is set.
pub open spec fn with_zero_negative(status: u8, result: u8) -> u8 {
    with_flag(with_flag(status, ZERO, result == 0), NEGATIVE, result >= 0x80)
}

/// Bit 7 of a byte is set exactly when the byte is at least 0x80.
pub proof fn lemma_bit7(value: u8)
    by (bit_vector)
    ensures
        (value & 0x80 != 0) == (value >= 0x80),
{
}

/// Writing one flag makes that flag read as written and leaves each of the
/// other seven as it was.
pub proof fn lemma_with_flag(status: u8, flag: u8, on: bool, other: u8)
    requires
        is_flag(flag),
        is_flag(other),
    ensures
        flag_is_set(with_flag(status, flag, on), flag) == on,
        other != flag ==> flag_is_set(with_flag(status, flag, on), other) == flag_is_set(
            status,
            other,
        ),
{
    let set: u8 = status | flag;
    let cleared: u8 = status & !flag;
    assert((set & flag != 0) && (cleared & flag == 0) && (other != flag ==> ((set & other != 0)
        == (status & other != 0)) && ((cleared & other != 0) == (status & other != 0))))
        by (bit_vector)
        requires
            set == status | flag,
            cleared == status & !flag,
            flag == 0x01u8 || flag == 0x02u8 || flag == 0x04u8 || flag == 0x08u8 || flag == 0x10u8
                || flag == 0x20u8 || flag == 0x40u8 || flag == 0x80u8,
            other == 0x01u8 || other == 0x02u8 || other == 0x04u8 || other == 0x08u8 || other
                == 0x10u8 || other == 0x20u8 || other == 0x40u8 || other == 0x80u8,
    ;
}

/// After the shared rule, Zero and Negative describe `result` and the other
/// six flags are as they were.
pub proof fn lemma_zero_negative(status: u8, result: u8, other: u8)
    requires
        is_flag(other),
    ensures
        flag_is_set(with_zero_negative(status, result), ZERO) == (result == 0),
        flag_is_set(with_zero_negative(status, result), NEGATIVE) == (result & 0x80 != 0),
        other != ZERO && other != NEGATIVE ==> flag_is_set(
            with_zero_negative(status, result),
            other,
        ) == flag_is_set(status, other),
{
    let first = with_flag(status, ZERO, result == 0);
    lemma_bit7(result);
    lemma_with_flag(status, ZERO, result == 0, ZERO);
    lemma_with_flag(status, ZERO, result == 0, other);
    lemma_with_flag(first, NEGATIVE, result >= 0x80, ZERO);
    lemma_with_flag(first, NEGATIVE, result >= 0x80, NEGATIVE);
    lemma_with_flag(first, NEGATIVE, result >= 0x80, other);
}

/// Tests one flag of a status byte.
pub fn test_flag(status: u8, flag: u8) -> (set: bool)
    ensures
        set == flag_is_set(status, flag),
{
    status & flag != 0
}

/// Sets or clears one flag of a status byte.
pub fn assign_flag(status: u8, flag: u8, on: bool) -> (next: u8)
    ensures
        next == with_flag(status, flag, on),
{
    if on {
        status | flag
    } else {
        status & !flag
    }
}

/// Applies the shared Zero/Negative rule for `result` to a status byte.
pub fn zero_negative(status: u8, result: u8) -> (next: u8)
    ensures
        next == with_zero_negative(status, result),
{
    proof {
        lemma_bit7(result);
    }
    assign_flag(assign_flag(status, ZERO, result == 0), NEGATIVE, result & 0x80 != 0)
}

} // verus!
