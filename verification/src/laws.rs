use vstd::prelude::*;

use crate::bits::{
    carry_in, flag_set, wrap_add8, wrap_sub8, wrap_add16, wrap_sub16, lemma_zn_flags,
    lemma_carry_in_bound, lemma_carry_overflow_flags, CARRY, ZERO, NEGATIVE, OVERFLOW,
};
use crate::instructions::Mode;
use crate::semantics::{
    CpuView, spec_lda, spec_ldx, spec_ldy, spec_pha, spec_pla, spec_jsr, spec_rts, spec_consume,
    spec_resolve, read_operand, adc_result, adc_carry, adc_overflow, adc_flags, stack_addr,
    pull_word,
};

verus! {

/// The signed value an 8-bit byte stands for in two's complement.
pub open spec fn signed(b: u8) -> int {
    if b < 0x80 {
        b as int
    } else {
        b - 256
    }
}

/// Every load sets Zero exactly when the loaded value is zero and Negative
/// exactly when its bit 7 is set, whatever the addressing mode and whatever
/// flags were held before; Carry and Overflow are untouched.
pub proof fn lemma_load_flags(c: CpuView, mode: Mode)
    ensures
        flag_set(spec_lda(c, mode).flags, ZERO) <==> spec_lda(c, mode).a == 0,
        flag_set(spec_lda(c, mode).flags, NEGATIVE) <==> spec_lda(c, mode).a & 0x80 != 0,
        flag_set(spec_ldx(c, mode).flags, ZERO) <==> spec_ldx(c, mode).x == 0,
        flag_set(spec_ldx(c, mode).flags, NEGATIVE) <==> spec_ldx(c, mode).x & 0x80 != 0,
        flag_set(spec_ldy(c, mode).flags, ZERO) <==> spec_ldy(c, mode).y == 0,
        flag_set(spec_ldy(c, mode).flags, NEGATIVE) <==> spec_ldy(c, mode).y & 0x80 != 0,
{
    reveal(crate::semantics::spec_lda);
    reveal(crate::semantics::spec_ldx);
    reveal(crate::semantics::spec_ldy);
    let v = read_operand(spec_consume(c, mode), spec_resolve(c, mode));
    lemma_zn_flags(c.flags, v);
}

/// Stack round-trip: PHA then PLA restores the accumulator and leaves the
/// stack index unchanged, for every stack index, including wraparound at
/// 0x00 and 0xFF.
pub proof fn lemma_push_pull_round_trip(c: CpuView)
    requires
        c.wf(),
    ensures
        spec_pla(spec_pha(c)).a == c.a,
        spec_pla(spec_pha(c)).sp == c.sp,
{
    reveal(crate::semantics::spec_pha);
    reveal(crate::semantics::spec_pla);
    assert(wrap_add8(wrap_sub8(c.sp, 1), 1) == c.sp);
}

/// SBC computed as ADC of the operand's one's complement — A + !x + C, the
/// formulation the execution unit uses — produces exactly the reference
/// subtraction semantics, for every accumulator, operand and carry-in: the
/// new accumulator is the wrapped difference A - x - (1 - C); Carry means
/// no borrow, that is A >= x + (1 - C); and Overflow is signed overflow of
/// that difference. The Carry and Overflow claims are read back out of the
/// final status byte itself.
pub proof fn lemma_sbc_matches_reference(a: u8, x: u8, f: u8)
    ensures
        ({
            let borrow: int = if flag_set(f, CARRY) {
                0
            } else {
                1
            };
            let d = a - x - borrow;
            let nx = (!x) as u8;
            adc_result(a, nx, f) as int == d % 0x100
                && (flag_set(adc_flags(f, a, nx), CARRY) <==> d >= 0)
                && (flag_set(adc_flags(f, a, nx), OVERFLOW) <==> (signed(a) - signed(x) - borrow
                < -128 || signed(a) - signed(x) - borrow > 127))
        }),
{
    let nx = (!x) as u8;
    let cin = carry_in(f) as int;
    lemma_carry_in_bound(f);
    assert(!x == 255 - x) by (bit_vector);
    let borrow: int = 1 - cin;
    let d = a - x - borrow;
    let sum = a + nx + cin;
    let r = adc_result(a, nx, f);
    assert(sum == d + 256);
    assert(r == sum % 256);
    assert(sum % 256 == if sum > 255 {
        sum - 256
    } else {
        sum
    });
    assert(d % 256 == if d >= 0 {
        d
    } else {
        d + 256
    });
    lemma_carry_overflow_flags(f, adc_carry(a, nx, f), adc_overflow(a, nx, f), r);
    // The bitwise overflow test, read as sign comparisons: set exactly when
    // the addends agree in sign and the result disagrees.
    assert(((nx ^ r) & (r ^ a) & 0x80 != 0) == (((a ^ nx) & 0x80) == 0 && ((a ^ r) & 0x80 != 0)))
        by (bit_vector);
    assert((((a ^ nx) & 0x80) == 0) == ((a < 0x80) == (nx < 0x80))) by (bit_vector);
    assert((((a ^ r) & 0x80) != 0) == ((a < 0x80) != (r < 0x80))) by (bit_vector);
}

/// Call round-trip: with the PC at JSR's 2-byte operand, executing JSR and
/// then RTS puts the PC at the instruction immediately after the 3-byte JSR
/// — the opcode's address plus 3, that is the operand's address plus 2 —
/// for every 16-bit target address and every stack index.
pub proof fn lemma_jsr_rts_round_trip(c: CpuView)
    requires
        c.wf(),
    ensures
        spec_rts(spec_jsr(c, Mode::Absolute)).pc == wrap_add16(c.pc, 2),
{
    reveal(crate::semantics::spec_jsr);
    reveal(crate::semantics::spec_rts);
    let ret = wrap_sub16(wrap_add16(c.pc, 2), 1);
    let c1 = spec_jsr(c, Mode::Absolute);
    assert(stack_addr(c.sp) != stack_addr(wrap_sub8(c.sp, 1)));
    assert(pull_word(c1).1 == ret);
    assert(wrap_add16(ret, 1) == wrap_add16(c.pc, 2));
}

} // verus!
