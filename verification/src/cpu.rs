use vstd::prelude::*;

use crate::bits::{
    with_flag, with_zn, flag_set, wrap_add16, wrap_add8, CARRY, ZERO, INTERRUPT_DISABLE,
    DECIMAL_MODE, BREAK_COMMAND, OVERFLOW, NEGATIVE,
};
use crate::instructions::{Mode, Instruction, Operand, Fault, spec_decode, valid_instruction,
    decode_opcode};
use crate::memory::Memory;
use crate::semantics::{
    CpuState, CpuView, spec_resolve, spec_consume, read_operand, write_operand, push_byte,
    pull_byte, push_word, pull_word, spec_reset, spec_lda, spec_ldx, spec_ldy, spec_sta, spec_stx,
    spec_sty, spec_tax, spec_tay, spec_txa, spec_tya, spec_tsx, spec_txs, spec_pha, spec_php,
    spec_pla, spec_plp, spec_and, spec_eor, spec_ora, spec_bit, spec_adc, spec_sbc, adc_result,
    adc_flags, spec_compare, spec_cmp, spec_cpx, spec_cpy, spec_inc, spec_dec, spec_inx, spec_iny,
    spec_dex, spec_dey, spec_asl, spec_lsr, spec_rol, spec_ror, spec_jmp, spec_jsr, spec_rts,
    spec_branch, spec_set_flag, spec_brk, spec_rti, spec_execute, spec_step, spec_run,
};

verus! {

/// The register file: program counter, stack index into the fixed stack
/// page, the three 8-bit registers, and the packed status byte.
pub struct Registers {
    pub PC: u16,
    pub SP: u8,
    pub A: u8,
    pub X: u8,
    pub Y: u8,
    pub Flags: u8,
}

impl Registers {
    /// All registers zeroed.
    pub fn new() -> (r: Registers)
        ensures
            r.PC == 0 && r.SP == 0 && r.A == 0 && r.X == 0 && r.Y == 0 && r.Flags == 0,
    {
        Registers { PC: 0, SP: 0, A: 0, X: 0, Y: 0, Flags: 0 }
    }
}

/// The machine: registers, the flat 64KB store that also holds the loaded
/// program, and the run/halt state with the fault that halted it, if any.
/// The loaded program and the addressable memory are one backing store, so
/// fetches and data reads can never diverge; running past the end of the
/// loaded bytes reads zeros, and a zero byte decodes as BRK, which halts.
pub struct CPU {
    pub registers: Registers,
    pub memory: Memory,
    pub state: CpuState,
    pub fault: Option<Fault>,
}

impl View for CPU {
    type V = CpuView;

    open spec fn view(&self) -> CpuView {
        CpuView {
            pc: self.registers.PC,
            sp: self.registers.SP,
            a: self.registers.A,
            x: self.registers.X,
            y: self.registers.Y,
            flags: self.registers.Flags,
            mem: self.memory@,
            state: self.state,
            fault: self.fault,
        }
    }
}

impl CPU {
    /// Well-formed: the store spans the whole 16-bit address space.
    pub open spec fn wf(&self) -> bool {
        self@.wf()
    }

    /// A fresh machine with the program bytes loaded at address 0, the rest
    /// of memory zeroed, and every register clear.
    pub fn new(program: Vec<u8>) -> (cpu: CPU)
        requires
            program@.len() <= 0x10000,
        ensures
            cpu.wf(),
            cpu@.pc == 0 && cpu@.sp == 0 && cpu@.a == 0 && cpu@.x == 0 && cpu@.y == 0
                && cpu@.flags == 0,
            cpu@.state is Running,
            cpu@.fault is None,
            forall|i: int| 0 <= i < program@.len() ==> cpu@.mem[i] == program@[i],
            forall|i: int| program@.len() <= i < 0x10000 ==> cpu@.mem[i] == 0u8,
    {
        let mut memory = Memory::new(0x10000);
        let mut i: usize = 0;
        while i < program.len()
            invariant
                program@.len() <= 0x10000,
                i <= program@.len(),
                memory@.len() == 0x10000,
                forall|j: int| 0 <= j < i ==> memory@[j] == program@[j],
                forall|j: int| i <= j < 0x10000 ==> memory@[j] == 0u8,
            decreases program@.len() - i,
        {
            memory.memoryWriteByte(i as u16, program[i]);
            i = i + 1;
        }
        CPU {
            registers: Registers::new(),
            memory,
            state: CpuState::Running,
            fault: Option::None,
        }
    }

    /// Return to the running state with every register and memory cell
    /// zeroed; the halt (and any recorded fault) is cleared. All faults are
    /// recoverable through this, whatever state the machine is in.
    pub fn reset(&mut self)
        ensures
            final(self)@ == spec_reset(),
    {
        self.registers.PC = 0;
        self.registers.SP = 0;
        self.registers.A = 0;
        self.registers.X = 0;
        self.registers.Y = 0;
        self.registers.Flags = 0;
        self.memory = Memory::new(0x10000);
        self.state = CpuState::Running;
        self.fault = Option::None;
        proof {
            assert(self@.mem =~= spec_reset().mem);
            assert(self@ =~= spec_reset());
        }
    }

    // Flag setters: each forces exactly the named bit and keeps every other
    // bit unchanged.

    fn setCarryFlag(&mut self, on: bool)
        ensures
            final(self)@ == (CpuView { flags: with_flag(old(self)@.flags, CARRY, on), ..old(self)@ }),
    {
        if on {
            self.registers.Flags = self.registers.Flags | CARRY;
        } else {
            self.registers.Flags = self.registers.Flags & !CARRY;
        }
    }

    /// Zero is set iff `val` is zero.
    fn setZeroFlag(&mut self, val: u8)
        ensures
            final(self)@ == (CpuView {
                flags: with_flag(old(self)@.flags, ZERO, val == 0),
                ..old(self)@
            }),
    {
        if val == 0 {
            self.registers.Flags = self.registers.Flags | ZERO;
        } else {
            self.registers.Flags = self.registers.Flags & !ZERO;
        }
    }

    fn setInterruptDisable(&mut self)
        ensures
            final(self)@ == (CpuView {
                flags: with_flag(old(self)@.flags, INTERRUPT_DISABLE, true),
                ..old(self)@
            }),
    {
        self.registers.Flags = self.registers.Flags | INTERRUPT_DISABLE;
    }

    fn setDecimalModeFlag(&mut self)
        ensures
            final(self)@ == (CpuView {
                flags: with_flag(old(self)@.flags, DECIMAL_MODE, true),
                ..old(self)@
            }),
    {
        self.registers.Flags = self.registers.Flags | DECIMAL_MODE;
    }

    fn setOverflowFlag(&mut self, on: bool)
        ensures
            final(self)@ == (CpuView {
                flags: with_flag(old(self)@.flags, OVERFLOW, on),
                ..old(self)@
            }),
    {
        if on {
            self.registers.Flags = self.registers.Flags | OVERFLOW;
        } else {
            self.registers.Flags = self.registers.Flags & !OVERFLOW;
        }
    }

    /// Negative is set iff bit 7 of `val` is set.
    fn setNegativeFlag(&mut self, val: u8)
        ensures
            final(self)@ == (CpuView {
                flags: with_flag(old(self)@.flags, NEGATIVE, val & 0x80 != 0),
                ..old(self)@
            }),
    {
        if val & 0x80 != 0 {
            self.registers.Flags = self.registers.Flags | NEGATIVE;
        } else {
            self.registers.Flags = self.registers.Flags & !NEGATIVE;
        }
    }

    /// Fetch one byte from the instruction stream: read at PC, advance PC
    /// with 16-bit wraparound.
    pub fn readByte(&mut self) -> (b: u8)
        requires
            old(self).wf(),
        ensures
            final(self).wf(),
            b == old(self)@.read(old(self)@.pc),
            final(self)@ == (CpuView { pc: wrap_add16(old(self)@.pc, 1), ..old(self)@ }),
    {
        let b = self.memory.memoryReadByte(self.registers.PC);
        self.registers.PC = self.registers.PC.wrapping_add(1);
        b
    }

    /// Fetch a little-endian word from the instruction stream: low byte at
    /// PC, high byte after it, PC advanced by two.
    pub fn readShort(&mut self) -> (w: u16)
        requires
            old(self).wf(),
        ensures
            final(self).wf(),
            w == old(self)@.word_at(old(self)@.pc),
            final(self)@ == (CpuView { pc: wrap_add16(old(self)@.pc, 2), ..old(self)@ }),
    {
        let low = self.memory.memoryReadByte(self.registers.PC);
        let high = self.memory.memoryReadByte(self.registers.PC.wrapping_add(1));
        self.registers.PC = self.registers.PC.wrapping_add(2);
        low as u16 + 256 * (high as u16)
    }

    /// Push: write at the stack page cell indexed by SP, then decrement SP
    /// with 8-bit wraparound.
    fn stackPushByte(&mut self, value: u8)
        requires
            old(self).wf(),
        ensures
            final(self).wf(),
            final(self)@ == push_byte(old(self)@, value),
    {
        let address: u16 = 0x0100 + self.registers.SP as u16;
        self.memory.memoryWriteByte(address, value);
        self.registers.SP = self.registers.SP.wrapping_sub(1);
    }

    /// Push a word, high byte first, so its low byte sits at the lower cell.
    fn stackPushShort(&mut self, value: u16)
        requires
            old(self).wf(),
        ensures
            final(self).wf(),
            final(self)@ == push_word(old(self)@, value),
    {
        let high = (value / 256) as u8;
        let low = (value % 256) as u8;
        self.stackPushByte(high);
        self.stackPushByte(low);
    }

    /// Pull: increment SP with 8-bit wraparound, then read the cell it now
    /// indexes.
    fn stackPopByte(&mut self) -> (v: u8)
        requires
            old(self).wf(),
        ensures
            final(self).wf(),
            final(self)@ == pull_byte(old(self)@).0,
            v == pull_byte(old(self)@).1,
    {
        self.registers.SP = self.registers.SP.wrapping_add(1);
        let v = self.memory.memoryReadByte(0x0100 + self.registers.SP as u16);
        v
    }

    /// Pull a word: low byte first, then high.
    fn stackPopShort(&mut self) -> (w: u16)
        requires
            old(self).wf(),
        ensures
            final(self).wf(),
            final(self)@ == pull_word(old(self)@).0,
            w == pull_word(old(self)@).1,
    {
        let low = self.stackPopByte();
        let high = self.stackPopByte();
        low as u16 + 256 * (high as u16)
    }

    // The address resolver: one handler per addressing mode, each consuming
    // that mode's operand bytes from the instruction stream; `modeHandler`
    // dispatches and wraps the result in the uniform operand classification
    // that every instruction handler consumes identically.

    /// The immediate operand: the next instruction byte itself.
    fn ImmediateHandler(&mut self) -> (v: u8)
        requires
            old(self).wf(),
        ensures
            final(self).wf(),
            v == old(self)@.read(old(self)@.pc),
            final(self)@ == spec_consume(old(self)@, Mode::Immediate),
    {
        self.readByte()
    }

    /// Zero-page address: the operand byte is the address.
    fn ZeroPageHandler(&mut self) -> (a: u16)
        requires
            old(self).wf(),
        ensures
            final(self).wf(),
            a == old(self)@.read(old(self)@.pc) as u16,
            final(self)@ == spec_consume(old(self)@, Mode::ZeroPage),
    {
        let next = self.readByte();
        next as u16
    }

    /// Zero-page indexed by X: (operand + X) mod 256, wrapping within the
    /// zero page, never rolling into page 1.
    fn ZeroPageXHandler(&mut self) -> (a: u16)
        requires
            old(self).wf(),
        ensures
            final(self).wf(),
            a == wrap_add8(old(self)@.read(old(self)@.pc), old(self)@.x) as u16,
            final(self)@ == spec_consume(old(self)@, Mode::ZeroPageX),
    {
        let next = self.readByte();
        next.wrapping_add(self.registers.X) as u16
    }

    /// Zero-page indexed by Y: (operand + Y) mod 256, wrapping within the
    /// zero page.
    fn ZeroPageYHandler(&mut self) -> (a: u16)
        requires
            old(self).wf(),
        ensures
            final(self).wf(),
            a == wrap_add8(old(self)@.read(old(self)@.pc), old(self)@.y) as u16,
            final(self)@ == spec_consume(old(self)@, Mode::ZeroPageY),
    {
        let next = self.readByte();
        next.wrapping_add(self.registers.Y) as u16
    }

    /// The raw branch offset byte; branches sign-extend it as a PC delta,
    /// and it is never dereferenced as an address.
    fn RelativeHandler(&mut self) -> (v: u8)
        requires
            old(self).wf(),
        ensures
            final(self).wf(),
            v == old(self)@.read(old(self)@.pc),
            final(self)@ == spec_consume(old(self)@, Mode::Relative),
    {
        self.readByte()
    }

    /// Absolute address: the two operand bytes, little-endian.
    fn AbsoluteHandler(&mut self) -> (a: u16)
        requires
            old(self).wf(),
        ensures
            final(self).wf(),
            a == old(self)@.word_at(old(self)@.pc),
            final(self)@ == spec_consume(old(self)@, Mode::Absolute),
    {
        self.readShort()
    }

    /// Absolute indexed by X; the index is added to the low byte only and
    /// deliberately does not carry into the high byte.
    fn AbsoluteXHandler(&mut self) -> (a: u16)
        requires
            old(self).wf(),
        ensures
            final(self).wf(),
            a == crate::semantics::indexed_same_page(old(self)@.word_at(old(self)@.pc), old(self)@.x),
            final(self)@ == spec_consume(old(self)@, Mode::AbsoluteX),
    {
        let next = self.readShort();
        let low = ((next % 256) as u8).wrapping_add(self.registers.X);
        let high = (next / 256) as u8;
        low as u16 + 256 * (high as u16)
    }

    /// Absolute indexed by Y, likewise without the page carry.
    fn AbsoluteYHandler(&mut self) -> (a: u16)
        requires
            old(self).wf(),
        ensures
            final(self).wf(),
            a == crate::semantics::indexed_same_page(old(self)@.word_at(old(self)@.pc), old(self)@.y),
            final(self)@ == spec_consume(old(self)@, Mode::AbsoluteY),
    {
        let next = self.readShort();
        let low = ((next % 256) as u8).wrapping_add(self.registers.Y);
        let high = (next / 256) as u8;
        low as u16 + 256 * (high as u16)
    }

    /// Indirect (JMP only): a clean little-endian word read at the pointer
    /// named by the two operand bytes; the hardware page-wrap defect is not
    /// reproduced.
    fn IndirectHandler(&mut self) -> (a: u16)
        requires
            old(self).wf(),
        ensures
            final(self).wf(),
            a == old(self)@.word_at(old(self)@.word_at(old(self)@.pc)),
            final(self)@ == spec_consume(old(self)@, Mode::Indirect),
    {
        let next = self.readShort();
        let low = self.memory.memoryReadByte(next);
        let high = self.memory.memoryReadByte(next.wrapping_add(1));
        low as u16 + 256 * (high as u16)
    }

    /// Indexed indirect: the zero-page pointer is (operand + X) mod 256, and
    /// its high byte is read at the next zero-page cell, wrapping within the
    /// zero page.
    fn IndirectXHandler(&mut self) -> (a: u16)
        requires
            old(self).wf(),
        ensures
            final(self).wf(),
            a == old(self)@.zp_word_at(wrap_add8(old(self)@.read(old(self)@.pc), old(self)@.x)),
            final(self)@ == spec_consume(old(self)@, Mode::IndirectX),
    {
        let index = self.readByte().wrapping_add(self.registers.X);
        let low = self.memory.memoryReadByte(index as u16);
        let high = self.memory.memoryReadByte(index.wrapping_add(1) as u16);
        low as u16 + 256 * (high as u16)
    }

    /// Indirect indexed: the word read at the zero-page operand plus Y, as a
    /// full 16-bit sum that carries across pages.
    fn IndirectYHandler(&mut self) -> (a: u16)
        requires
            old(self).wf(),
        ensures
            final(self).wf(),
            a == wrap_add16(
                old(self)@.word_at(old(self)@.read(old(self)@.pc) as u16),
                old(self)@.y as u16,
            ),
            final(self)@ == spec_consume(old(self)@, Mode::IndirectY),
    {
        let index = self.readByte();
        let low = self.memory.memoryReadByte(index as u16);
        let high = self.memory.memoryReadByte((index as u16).wrapping_add(1));
        let pointer = low as u16 + 256 * (high as u16);
        pointer.wrapping_add(self.registers.Y as u16)
    }

    /// Resolve the operand for `mode`: consume its operand bytes and return
    /// the uniform classification every handler consumes.
    fn modeHandler(&mut self, mode: Mode) -> (op: Operand)
        requires
            old(self).wf(),
        ensures
            final(self).wf(),
            op == spec_resolve(old(self)@, mode),
            final(self)@ == spec_consume(old(self)@, mode),
    {
        match mode {
            Mode::Implicit => Operand::Implicit,
            Mode::Accumulator => Operand::Accumulator,
            Mode::Immediate => Operand::Immediate(self.ImmediateHandler()),
            Mode::ZeroPage => Operand::Address(self.ZeroPageHandler()),
            Mode::ZeroPageX => Operand::Address(self.ZeroPageXHandler()),
            Mode::ZeroPageY => Operand::Address(self.ZeroPageYHandler()),
            Mode::Relative => Operand::Immediate(self.RelativeHandler()),
            Mode::Absolute => Operand::Address(self.AbsoluteHandler()),
            Mode::AbsoluteX => Operand::Address(self.AbsoluteXHandler()),
            Mode::AbsoluteY => Operand::Address(self.AbsoluteYHandler()),
            Mode::Indirect => Operand::Address(self.IndirectHandler()),
            Mode::IndirectX => Operand::Address(self.IndirectXHandler()),
            Mode::IndirectY => Operand::Address(self.IndirectYHandler()),
        }
    }

    /// The value an operand classification stands for, read uniformly.
    fn readOperand(&self, op: Operand) -> (v: u8)
        requires
            self.wf(),
        ensures
            v == read_operand(self@, op),
    {
        match op {
            Operand::Implicit => 0,
            Operand::Accumulator => self.registers.A,
            Operand::Immediate(v) => v,
            Operand::Address(a) => self.memory.memoryReadByte(a),
        }
    }

    /// Write a result back to whichever location supplied the operand.
    fn writeOperand(&mut self, op: Operand, v: u8)
        requires
            old(self).wf(),
        ensures
            final(self).wf(),
            final(self)@ == write_operand(old(self)@, op, v),
    {
        match op {
            Operand::Accumulator => {
                self.registers.A = v;
            },
            Operand::Address(a) => {
                self.memory.memoryWriteByte(a, v);
            },
            _ => {},
        }
    }

    // The execution unit: one handler per mnemonic, each proved equal to its
    // transition function on the machine view.

    fn LDA(&mut self, mode: Mode)
        requires
            old(self).wf(),
        ensures
            final(self).wf(),
            final(self)@ == spec_lda(old(self)@, mode),
    {
        proof {
            reveal(crate::semantics::spec_lda);
        }
        let op = self.modeHandler(mode);
        let val = self.readOperand(op);
        self.registers.A = val;
        self.setZeroFlag(val);
        self.setNegativeFlag(val);
    }

    fn LDX(&mut self, mode: Mode)
        requires
            old(self).wf(),
        ensures
            final(self).wf(),
            final(self)@ == spec_ldx(old(self)@, mode),
    {
        proof {
            reveal(crate::semantics::spec_ldx);
        }
        let op = self.modeHandler(mode);
        let val = self.readOperand(op);
        self.registers.X = val;
        self.setZeroFlag(val);
        self.setNegativeFlag(val);
    }

    fn LDY(&mut self, mode: Mode)
        requires
            old(self).wf(),
        ensures
            final(self).wf(),
            final(self)@ == spec_ldy(old(self)@, mode),
    {
        proof {
            reveal(crate::semantics::spec_ldy);
        }
        let op = self.modeHandler(mode);
        let val = self.readOperand(op);
        self.registers.Y = val;
        self.setZeroFlag(val);
        self.setNegativeFlag(val);
    }

    fn STA(&mut self, mode: Mode)
        requires
            old(self).wf(),
        ensures
            final(self).wf(),
            final(self)@ == spec_sta(old(self)@, mode),
    {
        proof {
            reveal(crate::semantics::spec_sta);
        }
        let op = self.modeHandler(mode);
        let a = self.registers.A;
        self.writeOperand(op, a);
    }

    fn STX(&mut self, mode: Mode)
        requires
            old(self).wf(),
        ensures
            final(self).wf(),
            final(self)@ == spec_stx(old(self)@, mode),
    {
        proof {
            reveal(crate::semantics::spec_stx);
        }
        let op = self.modeHandler(mode);
        let x = self.registers.X;
        self.writeOperand(op, x);
    }

    fn STY(&mut self, mode: Mode)
        requires
            old(self).wf(),
        ensures
            final(self).wf(),
            final(self)@ == spec_sty(old(self)@, mode),
    {
        proof {
            reveal(crate::semantics::spec_sty);
        }
        let op = self.modeHandler(mode);
        let y = self.registers.Y;
        self.writeOperand(op, y);
    }

    fn TAX(&mut self, _mode: Mode)
        ensures
            final(self)@ == spec_tax(old(self)@),
            final(self)@.mem == old(self)@.mem,
    {
        proof {
            reveal(crate::semantics::spec_tax);
        }
        self.registers.X = self.registers.A;
        let x = self.registers.X;
        self.setZeroFlag(x);
        self.setNegativeFlag(x);
    }

    fn TAY(&mut self, _mode: Mode)
        ensures
            final(self)@ == spec_tay(old(self)@),
            final(self)@.mem == old(self)@.mem,
    {
        proof {
            reveal(crate::semantics::spec_tay);
        }
        self.registers.Y = self.registers.A;
        let y = self.registers.Y;
        self.setZeroFlag(y);
        self.setNegativeFlag(y);
    }

    fn TXA(&mut self, _mode: Mode)
        ensures
            final(self)@ == spec_txa(old(self)@),
            final(self)@.mem == old(self)@.mem,
    {
        proof {
            reveal(crate::semantics::spec_txa);
        }
        self.registers.A = self.registers.X;
        let a = self.registers.A;
        self.setZeroFlag(a);
        self.setNegativeFlag(a);
    }

    fn TYA(&mut self, _mode: Mode)
        ensures
            final(self)@ == spec_tya(old(self)@),
            final(self)@.mem == old(self)@.mem,
    {
        proof {
            reveal(crate::semantics::spec_tya);
        }
        self.registers.A = self.registers.Y;
        let a = self.registers.A;
        self.setZeroFlag(a);
        self.setNegativeFlag(a);
    }

    fn TSX(&mut self, _mode: Mode)
        ensures
            final(self)@ == spec_tsx(old(self)@),
            final(self)@.mem == old(self)@.mem,
    {
        proof {
            reveal(crate::semantics::spec_tsx);
        }
        self.registers.X = self.registers.SP;
        let x = self.registers.X;
        self.setZeroFlag(x);
        self.setNegativeFlag(x);
    }

    /// TXS copies X into SP with no flag effect.
    fn TXS(&mut self, _mode: Mode)
        ensures
            final(self)@ == spec_txs(old(self)@),
            final(self)@.mem == old(self)@.mem,
    {
        proof {
            reveal(crate::semantics::spec_txs);
        }
        self.registers.SP = self.registers.X;
    }

    fn PHA(&mut self, _mode: Mode)
        requires
            old(self).wf(),
        ensures
            final(self).wf(),
            final(self)@ == spec_pha(old(self)@),
    {
        proof {
            reveal(crate::semantics::spec_pha);
        }
        let a = self.registers.A;
        self.stackPushByte(a);
    }

    fn PHP(&mut self, _mode: Mode)
        requires
            old(self).wf(),
        ensures
            final(self).wf(),
            final(self)@ == spec_php(old(self)@),
    {
        proof {
            reveal(crate::semantics::spec_php);
        }
        let flags = self.registers.Flags;
        self.stackPushByte(flags);
    }

    fn PLA(&mut self, _mode: Mode)
        requires
            old(self).wf(),
        ensures
            final(self).wf(),
            final(self)@ == spec_pla(old(self)@),
    {
        proof {
            reveal(crate::semantics::spec_pla);
        }
        let val = self.stackPopByte();
        self.registers.A = val;
        self.setZeroFlag(val);
        self.setNegativeFlag(val);
    }

    /// PLP replaces the flags wholesale; nothing is recomputed.
    fn PLP(&mut self, _mode: Mode)
        requires
            old(self).wf(),
        ensures
            final(self).wf(),
            final(self)@ == spec_plp(old(self)@),
    {
        proof {
            reveal(crate::semantics::spec_plp);
        }
        let val = self.stackPopByte();
        self.registers.Flags = val;
    }

    fn AND(&mut self, mode: Mode)
        requires
            old(self).wf(),
        ensures
            final(self).wf(),
            final(self)@ == spec_and(old(self)@, mode),
    {
        proof {
            reveal(crate::semantics::spec_and);
        }
        let op = self.modeHandler(mode);
        let val = self.readOperand(op);
        self.registers.A = self.registers.A & val;
        let a = self.registers.A;
        self.setZeroFlag(a);
        self.setNegativeFlag(a);
    }

    fn EOR(&mut self, mode: Mode)
        requires
            old(self).wf(),
        ensures
            final(self).wf(),
            final(self)@ == spec_eor(old(self)@, mode),
    {
        proof {
            reveal(crate::semantics::spec_eor);
        }
        let op = self.modeHandler(mode);
        let val = self.readOperand(op);
        self.registers.A = self.registers.A ^ val;
        let a = self.registers.A;
        self.setZeroFlag(a);
        self.setNegativeFlag(a);
    }

    fn ORA(&mut self, mode: Mode)
        requires
            old(self).wf(),
        ensures
            final(self).wf(),
            final(self)@ == spec_ora(old(self)@, mode),
    {
        proof {
            reveal(crate::semantics::spec_ora);
        }
        let op = self.modeHandler(mode);
        let val = self.readOperand(op);
        self.registers.A = self.registers.A | val;
        let a = self.registers.A;
        self.setZeroFlag(a);
        self.setNegativeFlag(a);
    }

    fn BIT(&mut self, mode: Mode)
        requires
            old(self).wf(),
        ensures
            final(self).wf(),
            final(self)@ == spec_bit(old(self)@, mode),
    {
        proof {
            reveal(crate::semantics::spec_bit);
        }
        let op = self.modeHandler(mode);
        let val = self.readOperand(op);
        let masked = self.registers.A & val;
        self.setZeroFlag(masked);
        self.setOverflowFlag(val & 0x40 != 0);
        self.setNegativeFlag(val);
    }

    /// The shared add-with-carry core: A + `val` + Carry as a 9-bit sum.
    /// Carry takes the ninth bit; Overflow is judged against the pre-update
    /// accumulator; Zero and Negative follow the new accumulator.
    fn adcCore(&mut self, val: u8)
        ensures
            final(self)@ == (CpuView {
                a: adc_result(old(self)@.a, val, old(self)@.flags),
                flags: adc_flags(old(self)@.flags, old(self)@.a, val),
                ..old(self)@
            }),
    {
        let a = self.registers.A;
        let carry = self.registers.Flags & CARRY;
        let sum: u16 = a as u16 + val as u16 + carry as u16;
        let result = (sum % 256) as u8;
        self.setCarryFlag(sum > 0xFF);
        self.setOverflowFlag((val ^ result) & (result ^ a) & 0x80 != 0);
        self.registers.A = result;
        self.setZeroFlag(result);
        self.setNegativeFlag(result);
    }

    fn ADC(&mut self, mode: Mode)
        requires
            old(self).wf(),
        ensures
            final(self).wf(),
            final(self)@ == spec_adc(old(self)@, mode),
    {
        proof {
            reveal(crate::semantics::spec_adc);
        }
        let op = self.modeHandler(mode);
        let val = self.readOperand(op);
        self.adcCore(val);
    }

    /// SBC reuses the ADC core on the operand's one's complement, which
    /// makes the borrow-via-carry semantics automatic.
    fn SBC(&mut self, mode: Mode)
        requires
            old(self).wf(),
        ensures
            final(self).wf(),
            final(self)@ == spec_sbc(old(self)@, mode),
    {
        proof {
            reveal(crate::semantics::spec_sbc);
        }
        let op = self.modeHandler(mode);
        let val = self.readOperand(op);
        self.adcCore(!val);
    }

    /// The shared compare: a wrapping subtraction that only sets flags.
    fn compare(&mut self, mode: Mode, value: u8)
        requires
            old(self).wf(),
        ensures
            final(self).wf(),
            final(self)@ == spec_compare(old(self)@, mode, value),
    {
        proof {
            reveal(crate::semantics::spec_compare);
        }
        let op = self.modeHandler(mode);
        let val = self.readOperand(op);
        let result = value.wrapping_sub(val);
        self.setCarryFlag(value >= val);
        self.setZeroFlag(result);
        self.setNegativeFlag(result);
    }

    fn CMP(&mut self, mode: Mode)
        requires
            old(self).wf(),
        ensures
            final(self).wf(),
            final(self)@ == spec_cmp(old(self)@, mode),
    {
        let a = self.registers.A;
        self.compare(mode, a);
    }

    fn CPX(&mut self, mode: Mode)
        requires
            old(self).wf(),
        ensures
            final(self).wf(),
            final(self)@ == spec_cpx(old(self)@, mode),
    {
        let x = self.registers.X;
        self.compare(mode, x);
    }

    fn CPY(&mut self, mode: Mode)
        requires
            old(self).wf(),
        ensures
            final(self).wf(),
            final(self)@ == spec_cpy(old(self)@, mode),
    {
        let y = self.registers.Y;
        self.compare(mode, y);
    }

    fn INC(&mut self, mode: Mode)
        requires
            old(self).wf(),
        ensures
            final(self).wf(),
            final(self)@ == spec_inc(old(self)@, mode),
    {
        proof {
            reveal(crate::semantics::spec_inc);
        }
        let op = self.modeHandler(mode);
        let val = self.readOperand(op);
        let result = val.wrapping_add(1);
        self.writeOperand(op, result);
        self.setZeroFlag(result);
        self.setNegativeFlag(result);
    }

    fn INX(&mut self, _mode: Mode)
        ensures
            final(self)@ == spec_inx(old(self)@),
            final(self)@.mem == old(self)@.mem,
    {
        proof {
            reveal(crate::semantics::spec_inx);
        }
        self.registers.X = self.registers.X.wrapping_add(1);
        let x = self.registers.X;
        self.setZeroFlag(x);
        self.setNegativeFlag(x);
    }

    fn INY(&mut self, _mode: Mode)
        ensures
            final(self)@ == spec_iny(old(self)@),
            final(self)@.mem == old(self)@.mem,
    {
        proof {
            reveal(crate::semantics::spec_iny);
        }
        self.registers.Y = self.registers.Y.wrapping_add(1);
        let y = self.registers.Y;
        self.setZeroFlag(y);
        self.setNegativeFlag(y);
    }

    fn DEC(&mut self, mode: Mode)
        requires
            old(self).wf(),
        ensures
            final(self).wf(),
            final(self)@ == spec_dec(old(self)@, mode),
    {
        proof {
            reveal(crate::semantics::spec_dec);
        }
        let op = self.modeHandler(mode);
        let val = self.readOperand(op);
        let result = val.wrapping_sub(1);
        self.writeOperand(op, result);
        self.setZeroFlag(result);
        self.setNegativeFlag(result);
    }

    fn DEX(&mut self, _mode: Mode)
        ensures
            final(self)@ == spec_dex(old(self)@),
            final(self)@.mem == old(self)@.mem,
    {
        proof {
            reveal(crate::semantics::spec_dex);
        }
        self.registers.X = self.registers.X.wrapping_sub(1);
        let x = self.registers.X;
        self.setZeroFlag(x);
        self.setNegativeFlag(x);
    }

    fn DEY(&mut self, _mode: Mode)
        ensures
            final(self)@ == spec_dey(old(self)@),
            final(self)@.mem == old(self)@.mem,
    {
        proof {
            reveal(crate::semantics::spec_dey);
        }
        self.registers.Y = self.registers.Y.wrapping_sub(1);
        let y = self.registers.Y;
        self.setZeroFlag(y);
        self.setNegativeFlag(y);
    }

    fn ASL(&mut self, mode: Mode)
        requires
            old(self).wf(),
        ensures
            final(self).wf(),
            final(self)@ == spec_asl(old(self)@, mode),
    {
        proof {
            reveal(crate::semantics::spec_asl);
        }
        let op = self.modeHandler(mode);
        let val = self.readOperand(op);
        let result = val.wrapping_add(val);
        self.writeOperand(op, result);
        self.setCarryFlag(val >= 0x80);
        self.setZeroFlag(result);
        self.setNegativeFlag(result);
    }

    fn LSR(&mut self, mode: Mode)
        requires
            old(self).wf(),
        ensures
            final(self).wf(),
            final(self)@ == spec_lsr(old(self)@, mode),
    {
        proof {
            reveal(crate::semantics::spec_lsr);
        }
        let op = self.modeHandler(mode);
        let val = self.readOperand(op);
        let result = val / 2;
        self.writeOperand(op, result);
        self.setCarryFlag(val % 2 == 1);
        self.setZeroFlag(result);
        self.setNegativeFlag(result);
    }

    fn ROL(&mut self, mode: Mode)
        requires
            old(self).wf(),
        ensures
            final(self).wf(),
            final(self)@ == spec_rol(old(self)@, mode),
    {
        proof {
            reveal(crate::semantics::spec_rol);
        }
        let op = self.modeHandler(mode);
        let val = self.readOperand(op);
        let old_carry = self.registers.Flags & CARRY;
        proof {
            crate::bits::lemma_carry_in_bound(self.registers.Flags);
        }
        let result = val.wrapping_add(val) + old_carry;
        self.writeOperand(op, result);
        self.setCarryFlag(val >= 0x80);
        self.setZeroFlag(result);
        self.setNegativeFlag(result);
    }

    fn ROR(&mut self, mode: Mode)
        requires
            old(self).wf(),
        ensures
            final(self).wf(),
            final(self)@ == spec_ror(old(self)@, mode),
    {
        proof {
            reveal(crate::semantics::spec_ror);
        }
        let op = self.modeHandler(mode);
        let val = self.readOperand(op);
        let old_carry = self.registers.Flags & CARRY;
        proof {
            crate::bits::lemma_carry_in_bound(self.registers.Flags);
        }
        let result = val / 2 + 128 * old_carry;
        self.writeOperand(op, result);
        self.setCarryFlag(val % 2 == 1);
        self.setZeroFlag(result);
        self.setNegativeFlag(result);
    }

    fn JMP(&mut self, mode: Mode)
        requires
            old(self).wf(),
        ensures
            final(self).wf(),
            final(self)@ == spec_jmp(old(self)@, mode),
    {
        proof {
            reveal(crate::semantics::spec_jmp);
        }
        let op = self.modeHandler(mode);
        match op {
            Operand::Address(a) => {
                self.registers.PC = a;
            },
            _ => {},
        }
    }

    /// JSR pushes PC - 1 (the PC is already past the 2-byte operand) so RTS
    /// recovers the following instruction by adding 1, then jumps.
    fn JSR(&mut self, mode: Mode)
        requires
            old(self).wf(),
        ensures
            final(self).wf(),
            final(self)@ == spec_jsr(old(self)@, mode),
    {
        proof {
            reveal(crate::semantics::spec_jsr);
        }
        let op = self.modeHandler(mode);
        match op {
            Operand::Address(a) => {
                let ret = self.registers.PC.wrapping_sub(1);
                self.stackPushShort(ret);
                self.registers.PC = a;
            },
            _ => {},
        }
    }

    fn RTS(&mut self, _mode: Mode)
        requires
            old(self).wf(),
        ensures
            final(self).wf(),
            final(self)@ == spec_rts(old(self)@),
    {
        proof {
            reveal(crate::semantics::spec_rts);
        }
        let w = self.stackPopShort();
        self.registers.PC = w.wrapping_add(1);
    }

    /// A taken branch adds the sign-extended offset byte to the PC with
    /// 16-bit wraparound; flags never change.
    fn branch(&mut self, condition: bool, offset: u8)
        ensures
            condition ==> final(self)@ == (CpuView {
                pc: wrap_add16(old(self)@.pc, crate::bits::sign_extend(offset)),
                ..old(self)@
            }),
            !condition ==> final(self)@ == old(self)@,
    {
        if condition {
            let displacement: u16 = if offset >= 0x80 {
                0xFF00 + offset as u16
            } else {
                offset as u16
            };
            self.registers.PC = self.registers.PC.wrapping_add(displacement);
        }
    }

    fn BCC(&mut self, mode: Mode)
        requires
            old(self).wf(),
        ensures
            final(self).wf(),
            final(self)@ == spec_branch(old(self)@, mode, !flag_set(old(self)@.flags, CARRY)),
    {
        proof {
            reveal(crate::semantics::spec_branch);
        }
        let op = self.modeHandler(mode);
        let offset = self.readOperand(op);
        let condition = self.registers.Flags & CARRY == 0;
        self.branch(condition, offset);
    }

    fn BCS(&mut self, mode: Mode)
        requires
            old(self).wf(),
        ensures
            final(self).wf(),
            final(self)@ == spec_branch(old(self)@, mode, flag_set(old(self)@.flags, CARRY)),
    {
        proof {
            reveal(crate::semantics::spec_branch);
        }
        let op = self.modeHandler(mode);
        let offset = self.readOperand(op);
        let condition = self.registers.Flags & CARRY != 0;
        self.branch(condition, offset);
    }

    fn BNE(&mut self, mode: Mode)
        requires
            old(self).wf(),
        ensures
            final(self).wf(),
            final(self)@ == spec_branch(old(self)@, mode, !flag_set(old(self)@.flags, ZERO)),
    {
        proof {
            reveal(crate::semantics::spec_branch);
        }
        let op = self.modeHandler(mode);
        let offset = self.readOperand(op);
        let condition = self.registers.Flags & ZERO == 0;
        self.branch(condition, offset);
    }

    fn BEQ(&mut self, mode: Mode)
        requires
            old(self).wf(),
        ensures
            final(self).wf(),
            final(self)@ == spec_branch(old(self)@, mode, flag_set(old(self)@.flags, ZERO)),
    {
        proof {
            reveal(crate::semantics::spec_branch);
        }
        let op = self.modeHandler(mode);
        let offset = self.readOperand(op);
        let condition = self.registers.Flags & ZERO != 0;
        self.branch(condition, offset);
    }

    fn BPL(&mut self, mode: Mode)
        requires
            old(self).wf(),
        ensures
            final(self).wf(),
            final(self)@ == spec_branch(old(self)@, mode, !flag_set(old(self)@.flags, NEGATIVE)),
    {
        proof {
            reveal(crate::semantics::spec_branch);
        }
        let op = self.modeHandler(mode);
        let offset = self.readOperand(op);
        let condition = self.registers.Flags & NEGATIVE == 0;
        self.branch(condition, offset);
    }

    fn BMI(&mut self, mode: Mode)
        requires
            old(self).wf(),
        ensures
            final(self).wf(),
            final(self)@ == spec_branch(old(self)@, mode, flag_set(old(self)@.flags, NEGATIVE)),
    {
        proof {
            reveal(crate::semantics::spec_branch);
        }
        let op = self.modeHandler(mode);
        let offset = self.readOperand(op);
        let condition = self.registers.Flags & NEGATIVE != 0;
        self.branch(condition, offset);
    }

    fn BVC(&mut self, mode: Mode)
        requires
            old(self).wf(),
        ensures
            final(self).wf(),
            final(self)@ == spec_branch(old(self)@, mode, !flag_set(old(self)@.flags, OVERFLOW)),
    {
        proof {
            reveal(crate::semantics::spec_branch);
        }
        let op = self.modeHandler(mode);
        let offset = self.readOperand(op);
        let condition = self.registers.Flags & OVERFLOW == 0;
        self.branch(condition, offset);
    }

    fn BVS(&mut self, mode: Mode)
        requires
            old(self).wf(),
        ensures
            final(self).wf(),
            final(self)@ == spec_branch(old(self)@, mode, flag_set(old(self)@.flags, OVERFLOW)),
    {
        proof {
            reveal(crate::semantics::spec_branch);
        }
        let op = self.modeHandler(mode);
        let offset = self.readOperand(op);
        let condition = self.registers.Flags & OVERFLOW != 0;
        self.branch(condition, offset);
    }

    // Flag sets and clears: each touches exactly one named bit, idempotent,
    // all other bits preserved.

    fn CLC(&mut self, _mode: Mode)
        ensures
            final(self)@ == spec_set_flag(old(self)@, CARRY, false),
            final(self)@.mem == old(self)@.mem,
    {
        self.setCarryFlag(false);
    }

    fn CLD(&mut self, _mode: Mode)
        ensures
            final(self)@ == spec_set_flag(old(self)@, DECIMAL_MODE, false),
            final(self)@.mem == old(self)@.mem,
    {
        self.registers.Flags = self.registers.Flags & !DECIMAL_MODE;
    }

    fn CLI(&mut self, _mode: Mode)
        ensures
            final(self)@ == spec_set_flag(old(self)@, INTERRUPT_DISABLE, false),
            final(self)@.mem == old(self)@.mem,
    {
        self.registers.Flags = self.registers.Flags & !INTERRUPT_DISABLE;
    }

    fn CLV(&mut self, _mode: Mode)
        ensures
            final(self)@ == spec_set_flag(old(self)@, OVERFLOW, false),
            final(self)@.mem == old(self)@.mem,
    {
        self.setOverflowFlag(false);
    }

    fn SEC(&mut self, _mode: Mode)
        ensures
            final(self)@ == spec_set_flag(old(self)@, CARRY, true),
            final(self)@.mem == old(self)@.mem,
    {
        self.setCarryFlag(true);
    }

    fn SED(&mut self, _mode: Mode)
        ensures
            final(self)@ == spec_set_flag(old(self)@, DECIMAL_MODE, true),
            final(self)@.mem == old(self)@.mem,
    {
        self.setDecimalModeFlag();
    }

    fn SEI(&mut self, _mode: Mode)
        ensures
            final(self)@ == spec_set_flag(old(self)@, INTERRUPT_DISABLE, true),
            final(self)@.mem == old(self)@.mem,
    {
        self.setInterruptDisable();
    }

    /// BRK: push the PC and the flags with the Break bit forced set, set
    /// InterruptDisable, and halt. Interrupt vectors are out of scope, so
    /// this is a documented halt, not an interrupt entry; no fault is
    /// recorded, and a reset resumes.
    fn BRK(&mut self, _mode: Mode)
        requires
            old(self).wf(),
        ensures
            final(self).wf(),
            final(self)@ == spec_brk(old(self)@),
    {
        proof {
            reveal(crate::semantics::spec_brk);
        }
        let pc = self.registers.PC;
        self.stackPushShort(pc);
        let pushed_flags = self.registers.Flags | BREAK_COMMAND;
        self.stackPushByte(pushed_flags);
        self.setInterruptDisable();
        self.state = CpuState::Halted;
    }

    /// NOP: no state change beyond the opcode fetch itself.
    fn NOP(&mut self, _mode: Mode)
        ensures
            final(self)@ == old(self)@,
    {
    }

    /// RTI: the flags byte is pulled and restored wholesale, then the PC,
    /// with no +1 adjustment (unlike RTS).
    fn RTI(&mut self, _mode: Mode)
        requires
            old(self).wf(),
        ensures
            final(self).wf(),
            final(self)@ == spec_rti(old(self)@),
    {
        proof {
            reveal(crate::semantics::spec_rti);
        }
        let flags = self.stackPopByte();
        let pc = self.stackPopShort();
        self.registers.Flags = flags;
        self.registers.PC = pc;
    }

    /// Dispatch for the loads, stores and register transfers.
    fn executeLoadStoreTransfer(&mut self, inst: Instruction)
        requires
            old(self).wf(),
            inst matches Instruction::LDA(_)
                || inst matches Instruction::LDX(_)
                || inst matches Instruction::LDY(_)
                || inst matches Instruction::STA(_)
                || inst matches Instruction::STX(_)
                || inst matches Instruction::STY(_)
                || inst matches Instruction::TAX(_)
                || inst matches Instruction::TAY(_)
                || inst matches Instruction::TXA(_)
                || inst matches Instruction::TYA(_)
                || inst matches Instruction::TSX(_)
                || inst matches Instruction::TXS(_),
        ensures
            final(self).wf(),
            final(self)@ == spec_execute(old(self)@, inst),
    {
        proof {
            crate::semantics::lemma_execute_cases(old(self)@, inst);
        }
        match inst {
            Instruction::LDA(mode) => self.LDA(mode),
            Instruction::LDX(mode) => self.LDX(mode),
            Instruction::LDY(mode) => self.LDY(mode),
            Instruction::STA(mode) => self.STA(mode),
            Instruction::STX(mode) => self.STX(mode),
            Instruction::STY(mode) => self.STY(mode),
            Instruction::TAX(mode) => self.TAX(mode),
            Instruction::TAY(mode) => self.TAY(mode),
            Instruction::TXA(mode) => self.TXA(mode),
            Instruction::TYA(mode) => self.TYA(mode),
            Instruction::TSX(mode) => self.TSX(mode),
            Instruction::TXS(mode) => self.TXS(mode),
            _ => {},
        }
    }

    /// Dispatch for the stack operations and logic.
    fn executeStackLogic(&mut self, inst: Instruction)
        requires
            old(self).wf(),
            inst matches Instruction::PHA(_)
                || inst matches Instruction::PHP(_)
                || inst matches Instruction::PLA(_)
                || inst matches Instruction::PLP(_)
                || inst matches Instruction::AND(_)
                || inst matches Instruction::EOR(_)
                || inst matches Instruction::ORA(_)
                || inst matches Instruction::BIT(_),
        ensures
            final(self).wf(),
            final(self)@ == spec_execute(old(self)@, inst),
    {
        proof {
            crate::semantics::lemma_execute_cases(old(self)@, inst);
        }
        match inst {
            Instruction::PHA(mode) => self.PHA(mode),
            Instruction::PHP(mode) => self.PHP(mode),
            Instruction::PLA(mode) => self.PLA(mode),
            Instruction::PLP(mode) => self.PLP(mode),
            Instruction::AND(mode) => self.AND(mode),
            Instruction::EOR(mode) => self.EOR(mode),
            Instruction::ORA(mode) => self.ORA(mode),
            Instruction::BIT(mode) => self.BIT(mode),
            _ => {},
        }
    }

    /// Dispatch for the arithmetic, compares, increments and decrements.
    fn executeArithmetic(&mut self, inst: Instruction)
        requires
            old(self).wf(),
            inst matches Instruction::ADC(_)
                || inst matches Instruction::SBC(_)
                || inst matches Instruction::CMP(_)
                || inst matches Instruction::CPX(_)
                || inst matches Instruction::CPY(_)
                || inst matches Instruction::INC(_)
                || inst matches Instruction::INX(_)
                || inst matches Instruction::INY(_)
                || inst matches Instruction::DEC(_)
                || inst matches Instruction::DEX(_)
                || inst matches Instruction::DEY(_),
        ensures
            final(self).wf(),
            final(self)@ == spec_execute(old(self)@, inst),
    {
        proof {
            crate::semantics::lemma_execute_cases(old(self)@, inst);
        }
        match inst {
            Instruction::ADC(mode) => self.ADC(mode),
            Instruction::SBC(mode) => self.SBC(mode),
            Instruction::CMP(mode) => self.CMP(mode),
            Instruction::CPX(mode) => self.CPX(mode),
            Instruction::CPY(mode) => self.CPY(mode),
            Instruction::INC(mode) => self.INC(mode),
            Instruction::INX(mode) => self.INX(mode),
            Instruction::INY(mode) => self.INY(mode),
            Instruction::DEC(mode) => self.DEC(mode),
            Instruction::DEX(mode) => self.DEX(mode),
            Instruction::DEY(mode) => self.DEY(mode),
            _ => {},
        }
    }

    /// Dispatch for the shifts, rotates and jumps.
    fn executeShiftJump(&mut self, inst: Instruction)
        requires
            old(self).wf(),
            inst matches Instruction::ASL(_)
                || inst matches Instruction::LSR(_)
                || inst matches Instruction::ROL(_)
                || inst matches Instruction::ROR(_)
                || inst matches Instruction::JMP(_)
                || inst matches Instruction::JSR(_)
                || inst matches Instruction::RTS(_),
        ensures
            final(self).wf(),
            final(self)@ == spec_execute(old(self)@, inst),
    {
        proof {
            crate::semantics::lemma_execute_cases(old(self)@, inst);
        }
        match inst {
            Instruction::ASL(mode) => self.ASL(mode),
            Instruction::LSR(mode) => self.LSR(mode),
            Instruction::ROL(mode) => self.ROL(mode),
            Instruction::ROR(mode) => self.ROR(mode),
            Instruction::JMP(mode) => self.JMP(mode),
            Instruction::JSR(mode) => self.JSR(mode),
            Instruction::RTS(mode) => self.RTS(mode),
            _ => {},
        }
    }

    /// Dispatch for the branches, flag instructions, BRK, NOP and RTI.
    fn executeBranchFlagSystem(&mut self, inst: Instruction)
        requires
            old(self).wf(),
            inst matches Instruction::BCC(_)
                || inst matches Instruction::BCS(_)
                || inst matches Instruction::BEQ(_)
                || inst matches Instruction::BMI(_)
                || inst matches Instruction::BNE(_)
                || inst matches Instruction::BPL(_)
                || inst matches Instruction::BVC(_)
                || inst matches Instruction::BVS(_)
                || inst matches Instruction::CLC(_)
                || inst matches Instruction::CLD(_)
                || inst matches Instruction::CLI(_)
                || inst matches Instruction::CLV(_)
                || inst matches Instruction::SEC(_)
                || inst matches Instruction::SED(_)
                || inst matches Instruction::SEI(_)
                || inst matches Instruction::BRK(_)
                || inst matches Instruction::NOP(_)
                || inst matches Instruction::RTI(_),
        ensures
            final(self).wf(),
            final(self)@ == spec_execute(old(self)@, inst),
    {
        proof {
            crate::semantics::lemma_execute_cases(old(self)@, inst);
        }
        match inst {
            Instruction::BCC(mode) => self.BCC(mode),
            Instruction::BCS(mode) => self.BCS(mode),
            Instruction::BEQ(mode) => self.BEQ(mode),
            Instruction::BMI(mode) => self.BMI(mode),
            Instruction::BNE(mode) => self.BNE(mode),
            Instruction::BPL(mode) => self.BPL(mode),
            Instruction::BVC(mode) => self.BVC(mode),
            Instruction::BVS(mode) => self.BVS(mode),
            Instruction::CLC(mode) => self.CLC(mode),
            Instruction::CLD(mode) => self.CLD(mode),
            Instruction::CLI(mode) => self.CLI(mode),
            Instruction::CLV(mode) => self.CLV(mode),
            Instruction::SEC(mode) => self.SEC(mode),
            Instruction::SED(mode) => self.SED(mode),
            Instruction::SEI(mode) => self.SEI(mode),
            Instruction::BRK(mode) => self.BRK(mode),
            Instruction::NOP(mode) => self.NOP(mode),
            Instruction::RTI(mode) => self.RTI(mode),
            _ => {},
        }
    }

    /// Dispatch one decoded instruction to its handler; the whole effect is
    /// the instruction's transition function on the machine view.
    pub fn executeInstruction(&mut self, inst: Instruction)
        requires
            old(self).wf(),
        ensures
            final(self).wf(),
            final(self)@ == spec_execute(old(self)@, inst),
    {
        match inst {
            Instruction::LDA(_)
            | Instruction::LDX(_)
            | Instruction::LDY(_)
            | Instruction::STA(_)
            | Instruction::STX(_)
            | Instruction::STY(_)
            | Instruction::TAX(_)
            | Instruction::TAY(_)
            | Instruction::TXA(_)
            | Instruction::TYA(_)
            | Instruction::TSX(_)
            | Instruction::TXS(_) => self.executeLoadStoreTransfer(inst),
            Instruction::PHA(_)
            | Instruction::PHP(_)
            | Instruction::PLA(_)
            | Instruction::PLP(_)
            | Instruction::AND(_)
            | Instruction::EOR(_)
            | Instruction::ORA(_)
            | Instruction::BIT(_) => self.executeStackLogic(inst),
            Instruction::ADC(_)
            | Instruction::SBC(_)
            | Instruction::CMP(_)
            | Instruction::CPX(_)
            | Instruction::CPY(_)
            | Instruction::INC(_)
            | Instruction::INX(_)
            | Instruction::INY(_)
            | Instruction::DEC(_)
            | Instruction::DEX(_)
            | Instruction::DEY(_) => self.executeArithmetic(inst),
            Instruction::ASL(_)
            | Instruction::LSR(_)
            | Instruction::ROL(_)
            | Instruction::ROR(_)
            | Instruction::JMP(_)
            | Instruction::JSR(_)
            | Instruction::RTS(_) => self.executeShiftJump(inst),
            Instruction::BCC(_)
            | Instruction::BCS(_)
            | Instruction::BEQ(_)
            | Instruction::BMI(_)
            | Instruction::BNE(_)
            | Instruction::BPL(_)
            | Instruction::BVC(_)
            | Instruction::BVS(_)
            | Instruction::CLC(_)
            | Instruction::CLD(_)
            | Instruction::CLI(_)
            | Instruction::CLV(_)
            | Instruction::SEC(_)
            | Instruction::SED(_)
            | Instruction::SEI(_)
            | Instruction::BRK(_)
            | Instruction::NOP(_)
            | Instruction::RTI(_) => self.executeBranchFlagSystem(inst),
        }
    }

    /// One fetch and decode: read the byte at PC, advance PC, and look the
    /// byte up in the table. An unmapped byte is an illegal-instruction
    /// fault: the machine halts and the fault descriptor {opcode, PC} is
    /// both recorded and returned; the host process is never aborted.
    pub fn fetchAndDecodeInstruction(&mut self) -> (r: Result<Instruction, Fault>)
        requires
            old(self).wf(),
        ensures
            final(self).wf(),
            ({
                let c = old(self)@;
                let opcode = c.read(c.pc);
                let fetched = CpuView { pc: wrap_add16(c.pc, 1), ..c };
                match spec_decode(opcode) {
                    Option::Some(inst) => r == Result::<Instruction, Fault>::Ok(inst)
                        && final(self)@ == fetched,
                    Option::None => {
                        let flt = Fault { opcode, pc: c.pc };
                        r == Result::<Instruction, Fault>::Err(flt) && final(self)@ == (CpuView {
                            state: CpuState::Halted,
                            fault: Option::Some(flt),
                            ..fetched
                        })
                    },
                }
            }),
            r matches Ok(inst) ==> valid_instruction(inst),
    {
        let pc = self.registers.PC;
        let opcode = self.readByte();
        match decode_opcode(opcode) {
            Option::Some(inst) => Result::Ok(inst),
            Option::None => {
                let flt = Fault { opcode, pc };
                self.state = CpuState::Halted;
                self.fault = Option::Some(flt);
                Result::Err(flt)
            },
        }
    }

    /// One whole fetch-decode-execute step, the single-step primitive for
    /// external drivers; a halted machine does not move.
    pub fn step(&mut self)
        requires
            old(self).wf(),
        ensures
            final(self).wf(),
            final(self)@ == spec_step(old(self)@),
    {
        if self.state == CpuState::Running {
            match self.fetchAndDecodeInstruction() {
                Result::Ok(inst) => self.executeInstruction(inst),
                Result::Err(_) => {},
            }
        }
    }

    /// Step repeatedly until the machine halts — by BRK, or by an illegal
    /// opcode, whose fault descriptor is then found in `fault` — or until
    /// the step budget runs out. The budget is the host's cycle ceiling; a
    /// host that wants no ceiling calls again with the machine still
    /// running.
    pub fn run(&mut self, max_steps: u64)
        requires
            old(self).wf(),
        ensures
            final(self).wf(),
            final(self)@ == spec_run(old(self)@, max_steps as nat),
    {
        let mut remaining = max_steps;
        while self.state == CpuState::Running && remaining > 0
            invariant
                self.wf(),
                spec_run(old(self)@, max_steps as nat) == spec_run(self@, remaining as nat),
            decreases remaining,
        {
            self.step();
            remaining = remaining - 1;
        }
    }

    /// Like `run`, but hands the machine to an observability callback
    /// before every step, so a host can trace opcodes and registers or
    /// drive assertions without the core doing any output itself. The
    /// callback only reads the machine, so the trajectory is exactly the
    /// one `run` takes.
    pub fn runWithCallbacak<F: Fn(&CPU)>(&mut self, callback: F, max_steps: u64)
        requires
            old(self).wf(),
            forall|c: &CPU| call_requires(callback, (c,)),
        ensures
            final(self).wf(),
            final(self)@ == spec_run(old(self)@, max_steps as nat),
    {
        let mut remaining = max_steps;
        while self.state == CpuState::Running && remaining > 0
            invariant
                self.wf(),
                forall|c: &CPU| call_requires(callback, (c,)),
                spec_run(old(self)@, max_steps as nat) == spec_run(self@, remaining as nat),
            decreases remaining,
        {
            callback(&*self);
            self.step();
            remaining = remaining - 1;
        }
    }
}

} // verus!
