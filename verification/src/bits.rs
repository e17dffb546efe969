use vstd::prelude::*;

verus! {

// The packed status register, one bit per flag:
// bit 0 Carry, bit 1 Zero, bit 2 InterruptDisable, bit 3 DecimalMode,
// bit 4 Break, bit 5 Overflow, bit 6 Negative, bit 7 unused.
pub const CARRY: u8 = 0x01;
pub const ZERO: u8 = 0x02;
pub const INTERRUPT_DISABLE: u8 = 0x04;
pub const DECIMAL_MODE: u8 = 0x08;
pub const BREAK_COMMAND: u8 = 0x10;
pub const OVERFLOW: u8 = 0x20;
pub const NEGATIVE: u8 = 0x40;

/// True when at least one of the bits selected by `mask` is set in `f`.
pub open spec fn flag_set(f: u8, mask: u8) -> bool {
    f & mask != 0
}

/// `f` with the bits of `mask` forced on (`on == true`) or off (`on == false`);
/// every other bit keeps its value.
pub open spec fn with_flag(f: u8, mask: u8, on: bool) -> u8 {
    if on {
        f | mask
    } else {
        f & !mask
    }
}

/// The carry-in that an addition takes from the status byte: 1 when the
/// Carry flag is set, else 0.
pub open spec fn carry_in(f: u8) -> u8 {
    f & CARRY
}

/// The carry-in is a single bit.
pub proof fn lemma_carry_in_bound(f: u8)
    ensures
        carry_in(f) <= 1,
{
    assert(f & 0x01 <= 1) by (bit_vector);
}

/// `f` with Zero set iff `v == 0` and Negative set iff bit 7 of `v` is set,
/// as every load, transfer and arithmetic result update demands.
pub open spec fn with_zn(f: u8, v: u8) -> u8 {
    with_flag(with_flag(f, ZERO, v == 0), NEGATIVE, v & 0x80 != 0)
}

/// Updating Zero and Negative reads back exactly as written: Zero iff the
/// value was zero, Negative iff its bit 7 was set, and the Carry and
/// Overflow bits are untouched.
pub proof fn lemma_zn_flags(f: u8, v: u8)
    by (bit_vector)
    ensures
        flag_set(with_zn(f, v), ZERO) <==> v == 0,
        flag_set(with_zn(f, v), NEGATIVE) <==> v & 0x80 != 0,
        flag_set(with_zn(f, v), CARRY) == flag_set(f, CARRY),
        flag_set(with_zn(f, v), OVERFLOW) == flag_set(f, OVERFLOW),
{
}

/// Writing Carry and Overflow and then Zero/Negative reads back exactly as
/// written.
pub proof fn lemma_carry_overflow_flags(f: u8, carry: bool, over: bool, v: u8)
    by (bit_vector)
    ensures
        flag_set(with_zn(with_flag(with_flag(f, CARRY, carry), OVERFLOW, over), v), CARRY)
            == carry,
        flag_set(with_zn(with_flag(with_flag(f, CARRY, carry), OVERFLOW, over), v), OVERFLOW)
            == over,
{
}

/// The little-endian 16-bit word built from a low and a high byte.
pub open spec fn word(lo: u8, hi: u8) -> u16 {
    (lo + 256 * hi) as u16
}

/// Low byte of a 16-bit word.
pub open spec fn lo_byte(w: u16) -> u8 {
    (w % 256) as u8
}

/// High byte of a 16-bit word.
pub open spec fn hi_byte(w: u16) -> u8 {
    (w / 256) as u8
}

/// 16-bit addition that wraps around at 0x10000.
pub open spec fn wrap_add16(x: u16, y: u16) -> u16 {
    if x + y > 0xFFFF {
        (x + y - 0x10000) as u16
    } else {
        (x + y) as u16
    }
}

/// 16-bit subtraction that wraps around below zero.
pub open spec fn wrap_sub16(x: u16, y: u16) -> u16 {
    if x - y < 0 {
        (x - y + 0x10000) as u16
    } else {
        (x - y) as u16
    }
}

/// 8-bit addition that wraps around at 0x100.
pub open spec fn wrap_add8(x: u8, y: u8) -> u8 {
    if x + y > 0xFF {
        (x + y - 0x100) as u8
    } else {
        (x + y) as u8
    }
}

/// 8-bit subtraction that wraps around below zero.
pub open spec fn wrap_sub8(x: u8, y: u8) -> u8 {
    if x - y < 0 {
        (x - y + 0x100) as u8
    } else {
        (x - y) as u8
    }
}

/// The branch offset byte read as a signed displacement, widened to the
/// 16 bits it is added to: bytes 0x80..=0xFF stand for -128..=-1.
pub open spec fn sign_extend(b: u8) -> u16 {
    if b >= 0x80 {
        (0xFF00 + b) as u16
    } else {
        b as u16
    }
}

} // verus!
