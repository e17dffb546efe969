use vstd::prelude::*;

use crate::bits::{
    carry_in, sign_extend, with_flag, with_zn, flag_set, word, lo_byte, hi_byte, wrap_add16,
    wrap_sub16, wrap_add8, wrap_sub8, CARRY, ZERO, INTERRUPT_DISABLE, OVERFLOW, NEGATIVE,
    BREAK_COMMAND,
};
use crate::instructions::{Mode, Instruction, Operand, Fault, operand_len, spec_decode};

verus! {

/// The two machine states: `Running` steps; `Halted` is terminal until an
/// explicit reset. An illegal opcode or BRK halts the machine.
#[derive(Clone, Copy, PartialEq, Eq, Structural, Debug)]
pub enum CpuState {
    Running,
    Halted,
}

/// The mathematical machine state: the registers as plain integers, the
/// 64KB store as a byte sequence, and the run/halt state with the fault
/// descriptor of the illegal opcode that halted it, if one did. Every
/// contract of the executable engine is stated over this view.
#[verifier::ext_equal]
pub ghost struct CpuView {
    pub pc: u16,
    pub sp: u8,
    pub a: u8,
    pub x: u8,
    pub y: u8,
    pub flags: u8,
    pub mem: Seq<u8>,
    pub state: CpuState,
    pub fault: Option<Fault>,
}

impl CpuView {
    /// Well-formed: the store covers the full 16-bit address space, so every
    /// address is in range by construction.
    pub open spec fn wf(self) -> bool {
        self.mem.len() == 0x10000
    }

    /// The byte at `a`.
    pub open spec fn read(self, a: u16) -> u8 {
        self.mem[a as int]
    }

    /// The little-endian word at `a`; the high byte sits at `a + 1`, wrapping
    /// around the top of the address space.
    pub open spec fn word_at(self, a: u16) -> u16 {
        word(self.read(a), self.read(wrap_add16(a, 1)))
    }

    /// The little-endian word read from a zero-page pointer `b`, with the
    /// high byte at `(b + 1) mod 256`: the pointer wraps within the zero
    /// page and never rolls into page 1.
    pub open spec fn zp_word_at(self, b: u8) -> u16 {
        word(self.read(b as u16), self.read(wrap_add8(b, 1) as u16))
    }
}

/// Where in memory the stack cell for stack index `sp` lies: the stack page
/// is fixed at 0x0100..=0x01FF.
pub open spec fn stack_addr(sp: u8) -> u16 {
    (0x0100 + sp) as u16
}

/// Push: write at the stack page cell indexed by SP, then decrement SP with
/// 8-bit wraparound.
pub open spec fn push_byte(c: CpuView, v: u8) -> CpuView {
    CpuView { mem: c.mem.update(stack_addr(c.sp) as int, v), sp: wrap_sub8(c.sp, 1), ..c }
}

/// Pull: increment SP with 8-bit wraparound, then read the stack page cell
/// it now indexes.
pub open spec fn pull_byte(c: CpuView) -> (CpuView, u8) {
    let sp1 = wrap_add8(c.sp, 1);
    (CpuView { sp: sp1, ..c }, c.read(stack_addr(sp1)))
}

/// Push a 16-bit word, high byte first, so that the low byte sits at the
/// lower stack cell.
pub open spec fn push_word(c: CpuView, w: u16) -> CpuView {
    push_byte(push_byte(c, hi_byte(w)), lo_byte(w))
}

/// Pull a 16-bit word: low byte first, then high.
pub open spec fn pull_word(c: CpuView) -> (CpuView, u16) {
    let (c1, lo) = pull_byte(c);
    let (c2, hi) = pull_byte(c1);
    (c2, word(lo, hi))
}

/// Indexed absolute addressing adds the index register to the low byte only:
/// the sum wraps within the page and deliberately does not carry into the
/// high byte. (Real hardware carries across the page boundary; this engine
/// keeps the simpler non-carrying form, stated here and covered by tests.)
pub open spec fn indexed_same_page(base: u16, idx: u8) -> u16 {
    word(wrap_add8(lo_byte(base), idx), hi_byte(base))
}

/// The address resolver: with the PC at the first operand byte, classify the
/// operand for `mode` without consuming anything. Indirect JMP pointers are
/// read as a clean little-endian word (the hardware page-wrap defect is not
/// reproduced); the IndirectY effective address adds Y as a full 16-bit sum,
/// carrying across pages.
pub open spec fn spec_resolve(c: CpuView, mode: Mode) -> Operand {
    match mode {
        Mode::Implicit => Operand::Implicit,
        Mode::Accumulator => Operand::Accumulator,
        Mode::Immediate => Operand::Immediate(c.read(c.pc)),
        Mode::ZeroPage => Operand::Address(c.read(c.pc) as u16),
        Mode::ZeroPageX => Operand::Address(wrap_add8(c.read(c.pc), c.x) as u16),
        Mode::ZeroPageY => Operand::Address(wrap_add8(c.read(c.pc), c.y) as u16),
        Mode::Relative => Operand::Immediate(c.read(c.pc)),
        Mode::Absolute => Operand::Address(c.word_at(c.pc)),
        Mode::AbsoluteX => Operand::Address(indexed_same_page(c.word_at(c.pc), c.x)),
        Mode::AbsoluteY => Operand::Address(indexed_same_page(c.word_at(c.pc), c.y)),
        Mode::Indirect => Operand::Address(c.word_at(c.word_at(c.pc))),
        Mode::IndirectX => Operand::Address(c.zp_word_at(wrap_add8(c.read(c.pc), c.x))),
        Mode::IndirectY => Operand::Address(wrap_add16(c.word_at(c.read(c.pc) as u16), c.y as u16)),
    }
}

/// Advance the PC past the operand bytes of `mode`.
pub open spec fn spec_consume(c: CpuView, mode: Mode) -> CpuView {
    CpuView { pc: wrap_add16(c.pc, operand_len(mode)), ..c }
}

/// The value an operand classification stands for, read uniformly by every
/// handler that consumes a value.
pub open spec fn read_operand(c: CpuView, op: Operand) -> u8 {
    match op {
        Operand::Implicit => 0,
        Operand::Accumulator => c.a,
        Operand::Immediate(v) => v,
        Operand::Address(a) => c.read(a),
    }
}

/// Write a result back to whichever location supplied the operand: the
/// accumulator or a memory cell; immediate and implied operands take no
/// write-back.
pub open spec fn write_operand(c: CpuView, op: Operand, v: u8) -> CpuView {
    match op {
        Operand::Accumulator => CpuView { a: v, ..c },
        Operand::Address(a) => CpuView { mem: c.mem.update(a as int, v), ..c },
        _ => c,
    }
}

// Loads: destination register takes the operand value; Zero and Negative
// follow the value; nothing else changes.

#[verifier::opaque]
pub open spec fn spec_lda(c0: CpuView, mode: Mode) -> CpuView {
    let op = spec_resolve(c0, mode);
    let c = spec_consume(c0, mode);
    let v = read_operand(c, op);
    CpuView { a: v, flags: with_zn(c.flags, v), ..c }
}

#[verifier::opaque]
pub open spec fn spec_ldx(c0: CpuView, mode: Mode) -> CpuView {
    let op = spec_resolve(c0, mode);
    let c = spec_consume(c0, mode);
    let v = read_operand(c, op);
    CpuView { x: v, flags: with_zn(c.flags, v), ..c }
}

#[verifier::opaque]
pub open spec fn spec_ldy(c0: CpuView, mode: Mode) -> CpuView {
    let op = spec_resolve(c0, mode);
    let c = spec_consume(c0, mode);
    let v = read_operand(c, op);
    CpuView { y: v, flags: with_zn(c.flags, v), ..c }
}

// Stores: the register value goes to the resolved address; flags unaffected.

#[verifier::opaque]
pub open spec fn spec_sta(c0: CpuView, mode: Mode) -> CpuView {
    let op = spec_resolve(c0, mode);
    let c = spec_consume(c0, mode);
    write_operand(c, op, c.a)
}

#[verifier::opaque]
pub open spec fn spec_stx(c0: CpuView, mode: Mode) -> CpuView {
    let op = spec_resolve(c0, mode);
    let c = spec_consume(c0, mode);
    write_operand(c, op, c.x)
}

#[verifier::opaque]
pub open spec fn spec_sty(c0: CpuView, mode: Mode) -> CpuView {
    let op = spec_resolve(c0, mode);
    let c = spec_consume(c0, mode);
    write_operand(c, op, c.y)
}

// Transfers: copy, then Zero/Negative from the copied value; TXS alone
// leaves the flags untouched.

#[verifier::opaque]
pub open spec fn spec_tax(c: CpuView) -> CpuView {
    CpuView { x: c.a, flags: with_zn(c.flags, c.a), ..c }
}

#[verifier::opaque]
pub open spec fn spec_tay(c: CpuView) -> CpuView {
    CpuView { y: c.a, flags: with_zn(c.flags, c.a), ..c }
}

#[verifier::opaque]
pub open spec fn spec_txa(c: CpuView) -> CpuView {
    CpuView { a: c.x, flags: with_zn(c.flags, c.x), ..c }
}

#[verifier::opaque]
pub open spec fn spec_tya(c: CpuView) -> CpuView {
    CpuView { a: c.y, flags: with_zn(c.flags, c.y), ..c }
}

#[verifier::opaque]
pub open spec fn spec_tsx(c: CpuView) -> CpuView {
    CpuView { x: c.sp, flags: with_zn(c.flags, c.sp), ..c }
}

#[verifier::opaque]
pub open spec fn spec_txs(c: CpuView) -> CpuView {
    CpuView { sp: c.x, ..c }
}

// Stack operations.

#[verifier::opaque]
pub open spec fn spec_pha(c: CpuView) -> CpuView {
    push_byte(c, c.a)
}

#[verifier::opaque]
pub open spec fn spec_php(c: CpuView) -> CpuView {
    push_byte(c, c.flags)
}

#[verifier::opaque]
pub open spec fn spec_pla(c: CpuView) -> CpuView {
    let (c1, v) = pull_byte(c);
    CpuView { a: v, flags: with_zn(c1.flags, v), ..c1 }
}

#[verifier::opaque]
pub open spec fn spec_plp(c: CpuView) -> CpuView {
    let (c1, v) = pull_byte(c);
    CpuView { flags: v, ..c1 }
}

// Logic: the accumulator combines with the operand; Zero/Negative follow.

#[verifier::opaque]
pub open spec fn spec_and(c0: CpuView, mode: Mode) -> CpuView {
    let op = spec_resolve(c0, mode);
    let c = spec_consume(c0, mode);
    let r = (c.a & read_operand(c, op)) as u8;
    CpuView { a: r, flags: with_zn(c.flags, r), ..c }
}

#[verifier::opaque]
pub open spec fn spec_eor(c0: CpuView, mode: Mode) -> CpuView {
    let op = spec_resolve(c0, mode);
    let c = spec_consume(c0, mode);
    let r = (c.a ^ read_operand(c, op)) as u8;
    CpuView { a: r, flags: with_zn(c.flags, r), ..c }
}

#[verifier::opaque]
pub open spec fn spec_ora(c0: CpuView, mode: Mode) -> CpuView {
    let op = spec_resolve(c0, mode);
    let c = spec_consume(c0, mode);
    let r = (c.a | read_operand(c, op)) as u8;
    CpuView { a: r, flags: with_zn(c.flags, r), ..c }
}

/// BIT: Zero from A AND the operand, Overflow from bit 6 of the operand,
/// Negative from bit 7 of the operand; A itself is unchanged.
#[verifier::opaque]
pub open spec fn spec_bit(c0: CpuView, mode: Mode) -> CpuView {
    let op = spec_resolve(c0, mode);
    let c = spec_consume(c0, mode);
    let m = read_operand(c, op);
    CpuView {
        flags: with_flag(
            with_flag(with_flag(c.flags, ZERO, c.a & m == 0), OVERFLOW, m & 0x40 != 0),
            NEGATIVE,
            m & 0x80 != 0,
        ),
        ..c
    }
}

// Add with carry, and subtract as add-with-complement.

/// The 9-bit sum of the accumulator, the operand and the carry-in.
pub open spec fn adc_sum(a: u8, v: u8, f: u8) -> int {
    a + v + carry_in(f)
}

/// The low 8 bits of the 9-bit sum: the new accumulator.
pub open spec fn adc_result(a: u8, v: u8, f: u8) -> u8 {
    (adc_sum(a, v, f) % 256) as u8
}

/// Carry out: the 9-bit sum exceeded 0xFF.
pub open spec fn adc_carry(a: u8, v: u8, f: u8) -> bool {
    adc_sum(a, v, f) > 0xFF
}

/// Signed overflow, evaluated against the pre-update accumulator: set when
/// the operands agree in sign and the result disagrees.
pub open spec fn adc_overflow(a: u8, v: u8, f: u8) -> bool {
    (v ^ adc_result(a, v, f)) & (adc_result(a, v, f) ^ a) & 0x80 != 0
}

/// The status byte after an add: Carry and Overflow from the sum, then
/// Zero/Negative from the new accumulator.
pub open spec fn adc_flags(f: u8, a: u8, v: u8) -> u8 {
    with_zn(
        with_flag(with_flag(f, CARRY, adc_carry(a, v, f)), OVERFLOW, adc_overflow(a, v, f)),
        adc_result(a, v, f),
    )
}

#[verifier::opaque]
pub open spec fn spec_adc(c0: CpuView, mode: Mode) -> CpuView {
    let op = spec_resolve(c0, mode);
    let c = spec_consume(c0, mode);
    let v = read_operand(c, op);
    CpuView { a: adc_result(c.a, v, c.flags), flags: adc_flags(c.flags, c.a, v), ..c }
}

/// SBC is ADC of the operand's one's complement: A + !v + C, which makes the
/// borrow-via-carry semantics automatic.
#[verifier::opaque]
pub open spec fn spec_sbc(c0: CpuView, mode: Mode) -> CpuView {
    let op = spec_resolve(c0, mode);
    let c = spec_consume(c0, mode);
    let v = (!read_operand(c, op)) as u8;
    CpuView { a: adc_result(c.a, v, c.flags), flags: adc_flags(c.flags, c.a, v), ..c }
}

// Compares: a wrapping subtraction that only sets flags. Carry means the
// register is at least the operand, Zero means equality, Negative follows
// bit 7 of the wrapped difference.

pub open spec fn compare_flags(f: u8, reg: u8, v: u8) -> u8 {
    with_zn(with_flag(f, CARRY, reg >= v), wrap_sub8(reg, v))
}

/// The shared shape of the three compares: only the flags change.
#[verifier::opaque]
pub open spec fn spec_compare(c0: CpuView, mode: Mode, reg: u8) -> CpuView {
    let op = spec_resolve(c0, mode);
    let c = spec_consume(c0, mode);
    CpuView { flags: compare_flags(c.flags, reg, read_operand(c, op)), ..c }
}

pub open spec fn spec_cmp(c0: CpuView, mode: Mode) -> CpuView {
    spec_compare(c0, mode, c0.a)
}

pub open spec fn spec_cpx(c0: CpuView, mode: Mode) -> CpuView {
    spec_compare(c0, mode, c0.x)
}

pub open spec fn spec_cpy(c0: CpuView, mode: Mode) -> CpuView {
    spec_compare(c0, mode, c0.y)
}

// Increment and decrement, with 8-bit wraparound and Zero/Negative updates.

#[verifier::opaque]
pub open spec fn spec_inc(c0: CpuView, mode: Mode) -> CpuView {
    let op = spec_resolve(c0, mode);
    let c = spec_consume(c0, mode);
    let r = wrap_add8(read_operand(c, op), 1);
    let c1 = write_operand(c, op, r);
    CpuView { flags: with_zn(c1.flags, r), ..c1 }
}

#[verifier::opaque]
pub open spec fn spec_dec(c0: CpuView, mode: Mode) -> CpuView {
    let op = spec_resolve(c0, mode);
    let c = spec_consume(c0, mode);
    let r = wrap_sub8(read_operand(c, op), 1);
    let c1 = write_operand(c, op, r);
    CpuView { flags: with_zn(c1.flags, r), ..c1 }
}

#[verifier::opaque]
pub open spec fn spec_inx(c: CpuView) -> CpuView {
    let r = wrap_add8(c.x, 1);
    CpuView { x: r, flags: with_zn(c.flags, r), ..c }
}

#[verifier::opaque]
pub open spec fn spec_iny(c: CpuView) -> CpuView {
    let r = wrap_add8(c.y, 1);
    CpuView { y: r, flags: with_zn(c.flags, r), ..c }
}

#[verifier::opaque]
pub open spec fn spec_dex(c: CpuView) -> CpuView {
    let r = wrap_sub8(c.x, 1);
    CpuView { x: r, flags: with_zn(c.flags, r), ..c }
}

#[verifier::opaque]
pub open spec fn spec_dey(c: CpuView) -> CpuView {
    let r = wrap_sub8(c.y, 1);
    CpuView { y: r, flags: with_zn(c.flags, r), ..c }
}

// Shifts and rotates: Carry receives the bit shifted out; the rotates
// inject the previous Carry into the vacated bit; the result goes back to
// whichever location supplied the operand.

pub open spec fn asl_result(v: u8) -> u8 {
    (2 * v % 256) as u8
}

pub open spec fn lsr_result(v: u8) -> u8 {
    v / 2
}

pub open spec fn rol_result(v: u8, f: u8) -> u8 {
    (2 * v % 256 + carry_in(f)) as u8
}

pub open spec fn ror_result(v: u8, f: u8) -> u8 {
    (v / 2 + 128 * carry_in(f)) as u8
}

/// Shared shape of the four shift and rotate instructions: write `r` back to
/// the operand's location, set Carry to the bit shifted out, then
/// Zero/Negative from `r`.
pub open spec fn shift_effect(c: CpuView, op: Operand, r: u8, carry_out: bool) -> CpuView {
    let c1 = write_operand(c, op, r);
    CpuView { flags: with_zn(with_flag(c1.flags, CARRY, carry_out), r), ..c1 }
}

#[verifier::opaque]
pub open spec fn spec_asl(c0: CpuView, mode: Mode) -> CpuView {
    let op = spec_resolve(c0, mode);
    let c = spec_consume(c0, mode);
    let v = read_operand(c, op);
    shift_effect(c, op, asl_result(v), v >= 0x80)
}

#[verifier::opaque]
pub open spec fn spec_lsr(c0: CpuView, mode: Mode) -> CpuView {
    let op = spec_resolve(c0, mode);
    let c = spec_consume(c0, mode);
    let v = read_operand(c, op);
    shift_effect(c, op, lsr_result(v), v % 2 == 1)
}

#[verifier::opaque]
pub open spec fn spec_rol(c0: CpuView, mode: Mode) -> CpuView {
    let op = spec_resolve(c0, mode);
    let c = spec_consume(c0, mode);
    let v = read_operand(c, op);
    shift_effect(c, op, rol_result(v, c.flags), v >= 0x80)
}

#[verifier::opaque]
pub open spec fn spec_ror(c0: CpuView, mode: Mode) -> CpuView {
    let op = spec_resolve(c0, mode);
    let c = spec_consume(c0, mode);
    let v = read_operand(c, op);
    shift_effect(c, op, ror_result(v, c.flags), v % 2 == 1)
}

// Control transfer.

#[verifier::opaque]
pub open spec fn spec_jmp(c0: CpuView, mode: Mode) -> CpuView {
    let op = spec_resolve(c0, mode);
    let c = spec_consume(c0, mode);
    match op {
        Operand::Address(a) => CpuView { pc: a, ..c },
        _ => c,
    }
}

/// JSR pushes PC - 1, with the PC already past the 2-byte operand, so that
/// RTS recovers the next instruction by adding 1; then jumps.
#[verifier::opaque]
pub open spec fn spec_jsr(c0: CpuView, mode: Mode) -> CpuView {
    let op = spec_resolve(c0, mode);
    let c = spec_consume(c0, mode);
    match op {
        Operand::Address(a) => {
            let c1 = push_word(c, wrap_sub16(c.pc, 1));
            CpuView { pc: a, ..c1 }
        },
        _ => c,
    }
}

#[verifier::opaque]
pub open spec fn spec_rts(c: CpuView) -> CpuView {
    let (c1, w) = pull_word(c);
    CpuView { pc: wrap_add16(w, 1), ..c1 }
}

/// A taken branch adds the sign-extended offset byte to the PC with 16-bit
/// wraparound; the offset byte is consumed either way; flags never change.
#[verifier::opaque]
pub open spec fn spec_branch(c0: CpuView, mode: Mode, taken: bool) -> CpuView {
    let op = spec_resolve(c0, mode);
    let c = spec_consume(c0, mode);
    if taken {
        CpuView { pc: wrap_add16(c.pc, sign_extend(read_operand(c, op))), ..c }
    } else {
        c
    }
}

// Flag sets and clears: exactly one named bit, all others preserved.

pub open spec fn spec_set_flag(c: CpuView, mask: u8, on: bool) -> CpuView {
    CpuView { flags: with_flag(c.flags, mask, on), ..c }
}

/// BRK: push the PC and the flags with the Break bit forced set, set
/// InterruptDisable, and halt. Interrupt vectors are out of scope, so BRK is
/// a documented halt rather than an interrupt entry; no fault is recorded.
#[verifier::opaque]
pub open spec fn spec_brk(c: CpuView) -> CpuView {
    let c1 = push_word(c, c.pc);
    let c2 = push_byte(c1, (c1.flags | BREAK_COMMAND) as u8);
    CpuView {
        flags: (c2.flags | INTERRUPT_DISABLE) as u8,
        state: CpuState::Halted,
        ..c2
    }
}

/// RTI: the flags byte is pulled and restored wholesale, then the PC, with
/// no +1 adjustment (unlike RTS).
#[verifier::opaque]
pub open spec fn spec_rti(c: CpuView) -> CpuView {
    let (c1, f) = pull_byte(c);
    let (c2, w) = pull_word(c1);
    CpuView { flags: f, pc: w, ..c2 }
}

/// The effect of one decoded instruction on the machine state, with the PC
/// already past the opcode byte. Kept opaque so that uses go through
/// `lemma_execute_cases` case by case instead of unfolding all at once.
#[verifier::opaque]
pub open spec fn spec_execute(c: CpuView, inst: Instruction) -> CpuView {
    match inst {
        Instruction::LDA(m) => spec_lda(c, m),
        Instruction::LDX(m) => spec_ldx(c, m),
        Instruction::LDY(m) => spec_ldy(c, m),
        Instruction::STA(m) => spec_sta(c, m),
        Instruction::STX(m) => spec_stx(c, m),
        Instruction::STY(m) => spec_sty(c, m),
        Instruction::TAX(_) => spec_tax(c),
        Instruction::TAY(_) => spec_tay(c),
        Instruction::TXA(_) => spec_txa(c),
        Instruction::TYA(_) => spec_tya(c),
        Instruction::TSX(_) => spec_tsx(c),
        Instruction::TXS(_) => spec_txs(c),
        Instruction::PHA(_) => spec_pha(c),
        Instruction::PHP(_) => spec_php(c),
        Instruction::PLA(_) => spec_pla(c),
        Instruction::PLP(_) => spec_plp(c),
        Instruction::AND(m) => spec_and(c, m),
        Instruction::EOR(m) => spec_eor(c, m),
        Instruction::ORA(m) => spec_ora(c, m),
        Instruction::BIT(m) => spec_bit(c, m),
        Instruction::ADC(m) => spec_adc(c, m),
        Instruction::SBC(m) => spec_sbc(c, m),
        Instruction::CMP(m) => spec_cmp(c, m),
        Instruction::CPX(m) => spec_cpx(c, m),
        Instruction::CPY(m) => spec_cpy(c, m),
        Instruction::INC(m) => spec_inc(c, m),
        Instruction::INX(_) => spec_inx(c),
        Instruction::INY(_) => spec_iny(c),
        Instruction::DEC(m) => spec_dec(c, m),
        Instruction::DEX(_) => spec_dex(c),
        Instruction::DEY(_) => spec_dey(c),
        Instruction::ASL(m) => spec_asl(c, m),
        Instruction::LSR(m) => spec_lsr(c, m),
        Instruction::ROL(m) => spec_rol(c, m),
        Instruction::ROR(m) => spec_ror(c, m),
        Instruction::JMP(m) => spec_jmp(c, m),
        Instruction::JSR(m) => spec_jsr(c, m),
        Instruction::RTS(_) => spec_rts(c),
        Instruction::BCC(m) => spec_branch(c, m, !flag_set(c.flags, CARRY)),
        Instruction::BCS(m) => spec_branch(c, m, flag_set(c.flags, CARRY)),
        Instruction::BEQ(m) => spec_branch(c, m, flag_set(c.flags, ZERO)),
        Instruction::BMI(m) => spec_branch(c, m, flag_set(c.flags, NEGATIVE)),
        Instruction::BNE(m) => spec_branch(c, m, !flag_set(c.flags, ZERO)),
        Instruction::BPL(m) => spec_branch(c, m, !flag_set(c.flags, NEGATIVE)),
        Instruction::BVC(m) => spec_branch(c, m, !flag_set(c.flags, OVERFLOW)),
        Instruction::BVS(m) => spec_branch(c, m, flag_set(c.flags, OVERFLOW)),
        Instruction::CLC(_) => spec_set_flag(c, CARRY, false),
        Instruction::CLD(_) => spec_set_flag(c, crate::bits::DECIMAL_MODE, false),
        Instruction::CLI(_) => spec_set_flag(c, INTERRUPT_DISABLE, false),
        Instruction::CLV(_) => spec_set_flag(c, OVERFLOW, false),
        Instruction::SEC(_) => spec_set_flag(c, CARRY, true),
        Instruction::SED(_) => spec_set_flag(c, crate::bits::DECIMAL_MODE, true),
        Instruction::SEI(_) => spec_set_flag(c, INTERRUPT_DISABLE, true),
        Instruction::BRK(_) => spec_brk(c),
        Instruction::NOP(_) => c,
        Instruction::RTI(_) => spec_rti(c),
    }
}

/// What `spec_execute` comes to on each mnemonic: its per-mnemonic
/// transition function.
#[verifier::rlimit(100)]
pub proof fn lemma_execute_cases(c: CpuView, inst: Instruction)
    ensures
        inst matches Instruction::LDA(m) ==> spec_execute(c, inst) == spec_lda(c, m),
        inst matches Instruction::LDX(m) ==> spec_execute(c, inst) == spec_ldx(c, m),
        inst matches Instruction::LDY(m) ==> spec_execute(c, inst) == spec_ldy(c, m),
        inst matches Instruction::STA(m) ==> spec_execute(c, inst) == spec_sta(c, m),
        inst matches Instruction::STX(m) ==> spec_execute(c, inst) == spec_stx(c, m),
        inst matches Instruction::STY(m) ==> spec_execute(c, inst) == spec_sty(c, m),
        inst matches Instruction::TAX(_) ==> spec_execute(c, inst) == spec_tax(c),
        inst matches Instruction::TAY(_) ==> spec_execute(c, inst) == spec_tay(c),
        inst matches Instruction::TXA(_) ==> spec_execute(c, inst) == spec_txa(c),
        inst matches Instruction::TYA(_) ==> spec_execute(c, inst) == spec_tya(c),
        inst matches Instruction::TSX(_) ==> spec_execute(c, inst) == spec_tsx(c),
        inst matches Instruction::TXS(_) ==> spec_execute(c, inst) == spec_txs(c),
        inst matches Instruction::PHA(_) ==> spec_execute(c, inst) == spec_pha(c),
        inst matches Instruction::PHP(_) ==> spec_execute(c, inst) == spec_php(c),
        inst matches Instruction::PLA(_) ==> spec_execute(c, inst) == spec_pla(c),
        inst matches Instruction::PLP(_) ==> spec_execute(c, inst) == spec_plp(c),
        inst matches Instruction::AND(m) ==> spec_execute(c, inst) == spec_and(c, m),
        inst matches Instruction::EOR(m) ==> spec_execute(c, inst) == spec_eor(c, m),
        inst matches Instruction::ORA(m) ==> spec_execute(c, inst) == spec_ora(c, m),
        inst matches Instruction::BIT(m) ==> spec_execute(c, inst) == spec_bit(c, m),
        inst matches Instruction::ADC(m) ==> spec_execute(c, inst) == spec_adc(c, m),
        inst matches Instruction::SBC(m) ==> spec_execute(c, inst) == spec_sbc(c, m),
        inst matches Instruction::CMP(m) ==> spec_execute(c, inst) == spec_cmp(c, m),
        inst matches Instruction::CPX(m) ==> spec_execute(c, inst) == spec_cpx(c, m),
        inst matches Instruction::CPY(m) ==> spec_execute(c, inst) == spec_cpy(c, m),
        inst matches Instruction::INC(m) ==> spec_execute(c, inst) == spec_inc(c, m),
        inst matches Instruction::INX(_) ==> spec_execute(c, inst) == spec_inx(c),
        inst matches Instruction::INY(_) ==> spec_execute(c, inst) == spec_iny(c),
        inst matches Instruction::DEC(m) ==> spec_execute(c, inst) == spec_dec(c, m),
        inst matches Instruction::DEX(_) ==> spec_execute(c, inst) == spec_dex(c),
        inst matches Instruction::DEY(_) ==> spec_execute(c, inst) == spec_dey(c),
        inst matches Instruction::ASL(m) ==> spec_execute(c, inst) == spec_asl(c, m),
        inst matches Instruction::LSR(m) ==> spec_execute(c, inst) == spec_lsr(c, m),
        inst matches Instruction::ROL(m) ==> spec_execute(c, inst) == spec_rol(c, m),
        inst matches Instruction::ROR(m) ==> spec_execute(c, inst) == spec_ror(c, m),
        inst matches Instruction::JMP(m) ==> spec_execute(c, inst) == spec_jmp(c, m),
        inst matches Instruction::JSR(m) ==> spec_execute(c, inst) == spec_jsr(c, m),
        inst matches Instruction::RTS(_) ==> spec_execute(c, inst) == spec_rts(c),
        inst matches Instruction::BCC(m) ==> spec_execute(c, inst) == spec_branch(c, m, !flag_set(c.flags, CARRY)),
        inst matches Instruction::BCS(m) ==> spec_execute(c, inst) == spec_branch(c, m, flag_set(c.flags, CARRY)),
        inst matches Instruction::BEQ(m) ==> spec_execute(c, inst) == spec_branch(c, m, flag_set(c.flags, ZERO)),
        inst matches Instruction::BMI(m) ==> spec_execute(c, inst) == spec_branch(c, m, flag_set(c.flags, NEGATIVE)),
        inst matches Instruction::BNE(m) ==> spec_execute(c, inst) == spec_branch(c, m, !flag_set(c.flags, ZERO)),
        inst matches Instruction::BPL(m) ==> spec_execute(c, inst) == spec_branch(c, m, !flag_set(c.flags, NEGATIVE)),
        inst matches Instruction::BVC(m) ==> spec_execute(c, inst) == spec_branch(c, m, !flag_set(c.flags, OVERFLOW)),
        inst matches Instruction::BVS(m) ==> spec_execute(c, inst) == spec_branch(c, m, flag_set(c.flags, OVERFLOW)),
        inst matches Instruction::CLC(_) ==> spec_execute(c, inst) == spec_set_flag(c, CARRY, false),
        inst matches Instruction::CLD(_) ==> spec_execute(c, inst) == spec_set_flag(c, crate::bits::DECIMAL_MODE, false),
        inst matches Instruction::CLI(_) ==> spec_execute(c, inst) == spec_set_flag(c, INTERRUPT_DISABLE, false),
        inst matches Instruction::CLV(_) ==> spec_execute(c, inst) == spec_set_flag(c, OVERFLOW, false),
        inst matches Instruction::SEC(_) ==> spec_execute(c, inst) == spec_set_flag(c, CARRY, true),
        inst matches Instruction::SED(_) ==> spec_execute(c, inst) == spec_set_flag(c, crate::bits::DECIMAL_MODE, true),
        inst matches Instruction::SEI(_) ==> spec_execute(c, inst) == spec_set_flag(c, INTERRUPT_DISABLE, true),
        inst matches Instruction::BRK(_) ==> spec_execute(c, inst) == spec_brk(c),
        inst matches Instruction::NOP(_) ==> spec_execute(c, inst) == c,
        inst matches Instruction::RTI(_) ==> spec_execute(c, inst) == spec_rti(c),
{
    reveal(spec_execute);
}

/// One whole fetch-decode-execute step. A halted machine does not move. An
/// unmapped opcode byte halts the machine and records the fault descriptor:
/// the byte and the address it was fetched from.
pub open spec fn spec_step(c: CpuView) -> CpuView {
    if !(c.state is Running) {
        c
    } else {
        let opcode = c.read(c.pc);
        let fetched = CpuView { pc: wrap_add16(c.pc, 1), ..c };
        match spec_decode(opcode) {
            Option::None => CpuView {
                state: CpuState::Halted,
                fault: Option::Some(Fault { opcode, pc: c.pc }),
                ..fetched
            },
            Option::Some(inst) => spec_execute(fetched, inst),
        }
    }
}

/// Up to `n` fetch-decode-execute steps: stepping stops early once the
/// machine halts, and a halted machine stays exactly as it is.
pub open spec fn spec_run(c: CpuView, n: nat) -> CpuView
    decreases n,
{
    if n == 0 || !(c.state is Running) {
        c
    } else {
        spec_run(spec_step(c), (n - 1) as nat)
    }
}

/// The machine after a reset: everything zeroed and running; the zero
/// program counter points at a zero byte, which decodes as BRK.
pub open spec fn spec_reset() -> CpuView {
    CpuView {
        pc: 0,
        sp: 0,
        a: 0,
        x: 0,
        y: 0,
        flags: 0,
        mem: Seq::new(0x10000, |i: int| 0u8),
        state: CpuState::Running,
        fault: Option::None,
    }
}

} // verus!
