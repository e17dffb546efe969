use vstd::prelude::*;

verus! {

/// Addressing mode: the rule by which an instruction locates its operand.
#[derive(Clone, Copy, PartialEq, Eq, Structural, Debug)]
pub enum Mode {
    Implicit,
    Accumulator,
    Immediate,
    ZeroPage,
    ZeroPageX,
    ZeroPageY,
    Relative,
    Absolute,
    AbsoluteX,
    AbsoluteY,
    Indirect,
    IndirectX,
    IndirectY,
}

/// One decoded instruction: a mnemonic together with its addressing mode.
/// Produced fresh by each fetch and consumed by the execution unit.
#[derive(Clone, Copy, PartialEq, Eq, Structural, Debug)]
pub enum Instruction {
    LDA(Mode),
    LDX(Mode),
    LDY(Mode),
    STA(Mode),
    STX(Mode),
    STY(Mode),
    TAX(Mode),
    TAY(Mode),
    TXA(Mode),
    TYA(Mode),
    TSX(Mode),
    TXS(Mode),
    PHA(Mode),
    PHP(Mode),
    PLA(Mode),
    PLP(Mode),
    AND(Mode),
    EOR(Mode),
    ORA(Mode),
    BIT(Mode),
    ADC(Mode),
    SBC(Mode),
    CMP(Mode),
    CPX(Mode),
    CPY(Mode),
    INC(Mode),
    INX(Mode),
    INY(Mode),
    DEC(Mode),
    DEX(Mode),
    DEY(Mode),
    ASL(Mode),
    LSR(Mode),
    ROL(Mode),
    ROR(Mode),
    JMP(Mode),
    JSR(Mode),
    RTS(Mode),
    BCC(Mode),
    BCS(Mode),
    BEQ(Mode),
    BMI(Mode),
    BNE(Mode),
    BPL(Mode),
    BVC(Mode),
    BVS(Mode),
    CLC(Mode),
    CLD(Mode),
    CLI(Mode),
    CLV(Mode),
    SEC(Mode),
    SED(Mode),
    SEI(Mode),
    BRK(Mode),
    NOP(Mode),
    RTI(Mode),
}

/// What the address resolver hands every handler, uniformly: either nothing
/// (implied operands), the accumulator itself, an immediate byte (also the
/// raw branch offset), or an effective memory address.
#[derive(Clone, Copy, PartialEq, Eq, Structural, Debug)]
pub enum Operand {
    Implicit,
    Accumulator,
    Immediate(u8),
    Address(u16),
}

/// The fault descriptor handed to the host when an unmapped opcode byte is
/// fetched: the byte itself and the address it was fetched from.
#[derive(Clone, Copy, PartialEq, Eq, Structural, Debug)]
pub struct Fault {
    pub opcode: u8,
    pub pc: u16,
}

/// How many operand bytes each addressing mode consumes from the
/// instruction stream.
pub open spec fn operand_len(mode: Mode) -> u16 {
    match mode {
        Mode::Implicit => 0,
        Mode::Accumulator => 0,
        Mode::Immediate => 1,
        Mode::ZeroPage => 1,
        Mode::ZeroPageX => 1,
        Mode::ZeroPageY => 1,
        Mode::Relative => 1,
        Mode::Absolute => 2,
        Mode::AbsoluteX => 2,
        Mode::AbsoluteY => 2,
        Mode::Indirect => 2,
        Mode::IndirectX => 1,
        Mode::IndirectY => 1,
    }
}

/// Modes available to the accumulator-oriented operations
/// (LDA, AND, EOR, ORA, ADC, SBC, CMP).
pub open spec fn alu_mode(m: Mode) -> bool {
    m == Mode::Immediate || m == Mode::ZeroPage || m == Mode::ZeroPageX || m == Mode::Absolute
        || m == Mode::AbsoluteX || m == Mode::AbsoluteY || m == Mode::IndirectX
        || m == Mode::IndirectY
}

/// Modes available to the read-modify-write shifts and rotates
/// (ASL, LSR, ROL, ROR).
pub open spec fn shift_mode(m: Mode) -> bool {
    m == Mode::Accumulator || m == Mode::ZeroPage || m == Mode::ZeroPageX || m == Mode::Absolute
        || m == Mode::AbsoluteX
}

/// Modes available to the memory increment and decrement (INC, DEC).
pub open spec fn inc_dec_mode(m: Mode) -> bool {
    m == Mode::ZeroPage || m == Mode::ZeroPageX || m == Mode::Absolute || m == Mode::AbsoluteX
}

/// The mnemonic-mode pairs that the decode table can produce; the execution
/// unit is specified for exactly these.
pub open spec fn valid_instruction(inst: Instruction) -> bool {
    match inst {
        Instruction::LDA(m) => alu_mode(m),
        Instruction::LDX(m) => m == Mode::Immediate || m == Mode::ZeroPage || m == Mode::ZeroPageY
            || m == Mode::Absolute || m == Mode::AbsoluteY,
        Instruction::LDY(m) => m == Mode::Immediate || m == Mode::ZeroPage || m == Mode::ZeroPageX
            || m == Mode::Absolute || m == Mode::AbsoluteX,
        Instruction::STA(m) => m == Mode::ZeroPage || m == Mode::ZeroPageX || m == Mode::Absolute
            || m == Mode::AbsoluteX || m == Mode::AbsoluteY || m == Mode::IndirectX
            || m == Mode::IndirectY,
        Instruction::STX(m) => m == Mode::ZeroPage || m == Mode::ZeroPageY || m == Mode::Absolute,
        Instruction::STY(m) => m == Mode::ZeroPage || m == Mode::ZeroPageX || m == Mode::Absolute,
        Instruction::TAX(m) => m == Mode::Implicit,
        Instruction::TAY(m) => m == Mode::Implicit,
        Instruction::TXA(m) => m == Mode::Implicit,
        Instruction::TYA(m) => m == Mode::Implicit,
        Instruction::TSX(m) => m == Mode::Implicit,
        Instruction::TXS(m) => m == Mode::Implicit,
        Instruction::PHA(m) => m == Mode::Implicit,
        Instruction::PHP(m) => m == Mode::Implicit,
        Instruction::PLA(m) => m == Mode::Implicit,
        Instruction::PLP(m) => m == Mode::Implicit,
        Instruction::AND(m) => alu_mode(m),
        Instruction::EOR(m) => alu_mode(m),
        Instruction::ORA(m) => alu_mode(m),
        Instruction::BIT(m) => m == Mode::ZeroPage || m == Mode::Absolute,
        Instruction::ADC(m) => alu_mode(m),
        Instruction::SBC(m) => alu_mode(m),
        Instruction::CMP(m) => alu_mode(m),
        Instruction::CPX(m) => m == Mode::Immediate || m == Mode::ZeroPage || m == Mode::Absolute,
        Instruction::CPY(m) => m == Mode::Immediate || m == Mode::ZeroPage || m == Mode::Absolute,
        Instruction::INC(m) => inc_dec_mode(m),
        Instruction::INX(m) => m == Mode::Implicit,
        Instruction::INY(m) => m == Mode::Implicit,
        Instruction::DEC(m) => inc_dec_mode(m),
        Instruction::DEX(m) => m == Mode::Implicit,
        Instruction::DEY(m) => m == Mode::Implicit,
        Instruction::ASL(m) => shift_mode(m),
        Instruction::LSR(m) => shift_mode(m),
        Instruction::ROL(m) => shift_mode(m),
        Instruction::ROR(m) => shift_mode(m),
        Instruction::JMP(m) => m == Mode::Absolute || m == Mode::Indirect,
        Instruction::JSR(m) => m == Mode::Absolute,
        Instruction::RTS(m) => m == Mode::Implicit,
        Instruction::BCC(m) => m == Mode::Relative,
        Instruction::BCS(m) => m == Mode::Relative,
        Instruction::BEQ(m) => m == Mode::Relative,
        Instruction::BMI(m) => m == Mode::Relative,
        Instruction::BNE(m) => m == Mode::Relative,
        Instruction::BPL(m) => m == Mode::Relative,
        Instruction::BVC(m) => m == Mode::Relative,
        Instruction::BVS(m) => m == Mode::Relative,
        Instruction::CLC(m) => m == Mode::Implicit,
        Instruction::CLD(m) => m == Mode::Implicit,
        Instruction::CLI(m) => m == Mode::Implicit,
        Instruction::CLV(m) => m == Mode::Implicit,
        Instruction::SEC(m) => m == Mode::Implicit,
        Instruction::SED(m) => m == Mode::Implicit,
        Instruction::SEI(m) => m == Mode::Implicit,
        Instruction::BRK(m) => m == Mode::Implicit,
        Instruction::NOP(m) => m == Mode::Implicit,
        Instruction::RTI(m) => m == Mode::Implicit,
    }
}

/// The fixed opcode table: which mnemonic-mode pair each opcode byte stands
/// for, `None` for the unmapped bytes (an illegal-instruction fault).
pub open spec fn spec_decode(opcode: u8) -> Option<Instruction> {
    match opcode {
        0xA9 => Some(Instruction::LDA(Mode::Immediate)),
        0xA5 => Some(Instruction::LDA(Mode::ZeroPage)),
        0xB5 => Some(Instruction::LDA(Mode::ZeroPageX)),
        0xAD => Some(Instruction::LDA(Mode::Absolute)),
        0xBD => Some(Instruction::LDA(Mode::AbsoluteX)),
        0xB9 => Some(Instruction::LDA(Mode::AbsoluteY)),
        0xA1 => Some(Instruction::LDA(Mode::IndirectX)),
        0xB1 => Some(Instruction::LDA(Mode::IndirectY)),
        0xA2 => Some(Instruction::LDX(Mode::Immediate)),
        0xA6 => Some(Instruction::LDX(Mode::ZeroPage)),
        0xB6 => Some(Instruction::LDX(Mode::ZeroPageY)),
        0xAE => Some(Instruction::LDX(Mode::Absolute)),
        0xBE => Some(Instruction::LDX(Mode::AbsoluteY)),
        0xA0 => Some(Instruction::LDY(Mode::Immediate)),
        0xA4 => Some(Instruction::LDY(Mode::ZeroPage)),
        0xB4 => Some(Instruction::LDY(Mode::ZeroPageX)),
        0xAC => Some(Instruction::LDY(Mode::Absolute)),
        0xBC => Some(Instruction::LDY(Mode::AbsoluteX)),
        0x85 => Some(Instruction::STA(Mode::ZeroPage)),
        0x95 => Some(Instruction::STA(Mode::ZeroPageX)),
        0x8D => Some(Instruction::STA(Mode::Absolute)),
        0x9D => Some(Instruction::STA(Mode::AbsoluteX)),
        0x99 => Some(Instruction::STA(Mode::AbsoluteY)),
        0x81 => Some(Instruction::STA(Mode::IndirectX)),
        0x91 => Some(Instruction::STA(Mode::IndirectY)),
        0x86 => Some(Instruction::STX(Mode::ZeroPage)),
        0x96 => Some(Instruction::STX(Mode::ZeroPageY)),
        0x8E => Some(Instruction::STX(Mode::Absolute)),
        0x84 => Some(Instruction::STY(Mode::ZeroPage)),
        0x94 => Some(Instruction::STY(Mode::ZeroPageX)),
        0x8C => Some(Instruction::STY(Mode::Absolute)),
        0xAA => Some(Instruction::TAX(Mode::Implicit)),
        0xA8 => Some(Instruction::TAY(Mode::Implicit)),
        0x8A => Some(Instruction::TXA(Mode::Implicit)),
        0x98 => Some(Instruction::TYA(Mode::Implicit)),
        0xBA => Some(Instruction::TSX(Mode::Implicit)),
        0x9A => Some(Instruction::TXS(Mode::Implicit)),
        0x48 => Some(Instruction::PHA(Mode::Implicit)),
        0x08 => Some(Instruction::PHP(Mode::Implicit)),
        0x68 => Some(Instruction::PLA(Mode::Implicit)),
        0x28 => Some(Instruction::PLP(Mode::Implicit)),
        0x29 => Some(Instruction::AND(Mode::Immediate)),
        0x25 => Some(Instruction::AND(Mode::ZeroPage)),
        0x35 => Some(Instruction::AND(Mode::ZeroPageX)),
        0x2D => Some(Instruction::AND(Mode::Absolute)),
        0x3D => Some(Instruction::AND(Mode::AbsoluteX)),
        0x39 => Some(Instruction::AND(Mode::AbsoluteY)),
        0x21 => Some(Instruction::AND(Mode::IndirectX)),
        0x31 => Some(Instruction::AND(Mode::IndirectY)),
        0x49 => Some(Instruction::EOR(Mode::Immediate)),
        0x45 => Some(Instruction::EOR(Mode::ZeroPage)),
        0x55 => Some(Instruction::EOR(Mode::ZeroPageX)),
        0x4D => Some(Instruction::EOR(Mode::Absolute)),
        0x5D => Some(Instruction::EOR(Mode::AbsoluteX)),
        0x59 => Some(Instruction::EOR(Mode::AbsoluteY)),
        0x41 => Some(Instruction::EOR(Mode::IndirectX)),
        0x51 => Some(Instruction::EOR(Mode::IndirectY)),
        0x09 => Some(Instruction::ORA(Mode::Immediate)),
        0x05 => Some(Instruction::ORA(Mode::ZeroPage)),
        0x15 => Some(Instruction::ORA(Mode::ZeroPageX)),
        0x0D => Some(Instruction::ORA(Mode::Absolute)),
        0x1D => Some(Instruction::ORA(Mode::AbsoluteX)),
        0x19 => Some(Instruction::ORA(Mode::AbsoluteY)),
        0x01 => Some(Instruction::ORA(Mode::IndirectX)),
        0x11 => Some(Instruction::ORA(Mode::IndirectY)),
        0x24 => Some(Instruction::BIT(Mode::ZeroPage)),
        0x2C => Some(Instruction::BIT(Mode::Absolute)),
        0x69 => Some(Instruction::ADC(Mode::Immediate)),
        0x65 => Some(Instruction::ADC(Mode::ZeroPage)),
        0x75 => Some(Instruction::ADC(Mode::ZeroPageX)),
        0x6D => Some(Instruction::ADC(Mode::Absolute)),
        0x7D => Some(Instruction::ADC(Mode::AbsoluteX)),
        0x79 => Some(Instruction::ADC(Mode::AbsoluteY)),
        0x61 => Some(Instruction::ADC(Mode::IndirectX)),
        0x71 => Some(Instruction::ADC(Mode::IndirectY)),
        0xE9 => Some(Instruction::SBC(Mode::Immediate)),
        0xE5 => Some(Instruction::SBC(Mode::ZeroPage)),
        0xF5 => Some(Instruction::SBC(Mode::ZeroPageX)),
        0xED => Some(Instruction::SBC(Mode::Absolute)),
        0xFD => Some(Instruction::SBC(Mode::AbsoluteX)),
        0xF9 => Some(Instruction::SBC(Mode::AbsoluteY)),
        0xE1 => Some(Instruction::SBC(Mode::IndirectX)),
        0xF1 => Some(Instruction::SBC(Mode::IndirectY)),
        0xC9 => Some(Instruction::CMP(Mode::Immediate)),
        0xC5 => Some(Instruction::CMP(Mode::ZeroPage)),
        0xD5 => Some(Instruction::CMP(Mode::ZeroPageX)),
        0xCD => Some(Instruction::CMP(Mode::Absolute)),
        0xDD => Some(Instruction::CMP(Mode::AbsoluteX)),
        0xD9 => Some(Instruction::CMP(Mode::AbsoluteY)),
        0xC1 => Some(Instruction::CMP(Mode::IndirectX)),
        0xD1 => Some(Instruction::CMP(Mode::IndirectY)),
        0xE0 => Some(Instruction::CPX(Mode::Immediate)),
        0xE4 => Some(Instruction::CPX(Mode::ZeroPage)),
        0xEC => Some(Instruction::CPX(Mode::Absolute)),
        0xC0 => Some(Instruction::CPY(Mode::Immediate)),
        0xC4 => Some(Instruction::CPY(Mode::ZeroPage)),
        0xCC => Some(Instruction::CPY(Mode::Absolute)),
        0xE6 => Some(Instruction::INC(Mode::ZeroPage)),
        0xF6 => Some(Instruction::INC(Mode::ZeroPageX)),
        0xEE => Some(Instruction::INC(Mode::Absolute)),
        0xFE => Some(Instruction::INC(Mode::AbsoluteX)),
        0xE8 => Some(Instruction::INX(Mode::Implicit)),
        0xC8 => Some(Instruction::INY(Mode::Implicit)),
        0xC6 => Some(Instruction::DEC(Mode::ZeroPage)),
        0xD6 => Some(Instruction::DEC(Mode::ZeroPageX)),
        0xCE => Some(Instruction::DEC(Mode::Absolute)),
        0xDE => Some(Instruction::DEC(Mode::AbsoluteX)),
        0xCA => Some(Instruction::DEX(Mode::Implicit)),
        0x88 => Some(Instruction::DEY(Mode::Implicit)),
        0x0A => Some(Instruction::ASL(Mode::Accumulator)),
        0x06 => Some(Instruction::ASL(Mode::ZeroPage)),
        0x16 => Some(Instruction::ASL(Mode::ZeroPageX)),
        0x0E => Some(Instruction::ASL(Mode::Absolute)),
        0x1E => Some(Instruction::ASL(Mode::AbsoluteX)),
        0x4A => Some(Instruction::LSR(Mode::Accumulator)),
        0x46 => Some(Instruction::LSR(Mode::ZeroPage)),
        0x56 => Some(Instruction::LSR(Mode::ZeroPageX)),
        0x4E => Some(Instruction::LSR(Mode::Absolute)),
        0x5E => Some(Instruction::LSR(Mode::AbsoluteX)),
        0x2A => Some(Instruction::ROL(Mode::Accumulator)),
        0x26 => Some(Instruction::ROL(Mode::ZeroPage)),
        0x36 => Some(Instruction::ROL(Mode::ZeroPageX)),
        0x2E => Some(Instruction::ROL(Mode::Absolute)),
        0x3E => Some(Instruction::ROL(Mode::AbsoluteX)),
        0x6A => Some(Instruction::ROR(Mode::Accumulator)),
        0x66 => Some(Instruction::ROR(Mode::ZeroPage)),
        0x76 => Some(Instruction::ROR(Mode::ZeroPageX)),
        0x6E => Some(Instruction::ROR(Mode::Absolute)),
        0x7E => Some(Instruction::ROR(Mode::AbsoluteX)),
        0x4C => Some(Instruction::JMP(Mode::Absolute)),
        0x6C => Some(Instruction::JMP(Mode::Indirect)),
        0x20 => Some(Instruction::JSR(Mode::Absolute)),
        0x60 => Some(Instruction::RTS(Mode::Implicit)),
        0x90 => Some(Instruction::BCC(Mode::Relative)),
        0xB0 => Some(Instruction::BCS(Mode::Relative)),
        0xF0 => Some(Instruction::BEQ(Mode::Relative)),
        0x30 => Some(Instruction::BMI(Mode::Relative)),
        0xD0 => Some(Instruction::BNE(Mode::Relative)),
        0x10 => Some(Instruction::BPL(Mode::Relative)),
        0x50 => Some(Instruction::BVC(Mode::Relative)),
        0x70 => Some(Instruction::BVS(Mode::Relative)),
        0x18 => Some(Instruction::CLC(Mode::Implicit)),
        0xD8 => Some(Instruction::CLD(Mode::Implicit)),
        0x58 => Some(Instruction::CLI(Mode::Implicit)),
        0xB8 => Some(Instruction::CLV(Mode::Implicit)),
        0x38 => Some(Instruction::SEC(Mode::Implicit)),
        0xF8 => Some(Instruction::SED(Mode::Implicit)),
        0x78 => Some(Instruction::SEI(Mode::Implicit)),
        0x00 => Some(Instruction::BRK(Mode::Implicit)),
        0xEA => Some(Instruction::NOP(Mode::Implicit)),
        0x40 => Some(Instruction::RTI(Mode::Implicit)),
        _ => None,
    }
}

/// Table lookup of one fetched opcode byte. Every pair the table produces is
/// one the execution unit is specified for.
pub fn decode_opcode(opcode: u8) -> (r: Option<Instruction>)
    ensures
        r == spec_decode(opcode),
        r matches Some(inst) ==> valid_instruction(inst),
{
    match opcode {
        0xA9 => Some(Instruction::LDA(Mode::Immediate)),
        0xA5 => Some(Instruction::LDA(Mode::ZeroPage)),
        0xB5 => Some(Instruction::LDA(Mode::ZeroPageX)),
        0xAD => Some(Instruction::LDA(Mode::Absolute)),
        0xBD => Some(Instruction::LDA(Mode::AbsoluteX)),
        0xB9 => Some(Instruction::LDA(Mode::AbsoluteY)),
        0xA1 => Some(Instruction::LDA(Mode::IndirectX)),
        0xB1 => Some(Instruction::LDA(Mode::IndirectY)),
        0xA2 => Some(Instruction::LDX(Mode::Immediate)),
        0xA6 => Some(Instruction::LDX(Mode::ZeroPage)),
        0xB6 => Some(Instruction::LDX(Mode::ZeroPageY)),
        0xAE => Some(Instruction::LDX(Mode::Absolute)),
        0xBE => Some(Instruction::LDX(Mode::AbsoluteY)),
        0xA0 => Some(Instruction::LDY(Mode::Immediate)),
        0xA4 => Some(Instruction::LDY(Mode::ZeroPage)),
        0xB4 => Some(Instruction::LDY(Mode::ZeroPageX)),
        0xAC => Some(Instruction::LDY(Mode::Absolute)),
        0xBC => Some(Instruction::LDY(Mode::AbsoluteX)),
        0x85 => Some(Instruction::STA(Mode::ZeroPage)),
        0x95 => Some(Instruction::STA(Mode::ZeroPageX)),
        0x8D => Some(Instruction::STA(Mode::Absolute)),
        0x9D => Some(Instruction::STA(Mode::AbsoluteX)),
        0x99 => Some(Instruction::STA(Mode::AbsoluteY)),
        0x81 => Some(Instruction::STA(Mode::IndirectX)),
        0x91 => Some(Instruction::STA(Mode::IndirectY)),
        0x86 => Some(Instruction::STX(Mode::ZeroPage)),
        0x96 => Some(Instruction::STX(Mode::ZeroPageY)),
        0x8E => Some(Instruction::STX(Mode::Absolute)),
        0x84 => Some(Instruction::STY(Mode::ZeroPage)),
        0x94 => Some(Instruction::STY(Mode::ZeroPageX)),
        0x8C => Some(Instruction::STY(Mode::Absolute)),
        0xAA => Some(Instruction::TAX(Mode::Implicit)),
        0xA8 => Some(Instruction::TAY(Mode::Implicit)),
        0x8A => Some(Instruction::TXA(Mode::Implicit)),
        0x98 => Some(Instruction::TYA(Mode::Implicit)),
        0xBA => Some(Instruction::TSX(Mode::Implicit)),
        0x9A => Some(Instruction::TXS(Mode::Implicit)),
        0x48 => Some(Instruction::PHA(Mode::Implicit)),
        0x08 => Some(Instruction::PHP(Mode::Implicit)),
        0x68 => Some(Instruction::PLA(Mode::Implicit)),
        0x28 => Some(Instruction::PLP(Mode::Implicit)),
        0x29 => Some(Instruction::AND(Mode::Immediate)),
        0x25 => Some(Instruction::AND(Mode::ZeroPage)),
        0x35 => Some(Instruction::AND(Mode::ZeroPageX)),
        0x2D => Some(Instruction::AND(Mode::Absolute)),
        0x3D => Some(Instruction::AND(Mode::AbsoluteX)),
        0x39 => Some(Instruction::AND(Mode::AbsoluteY)),
        0x21 => Some(Instruction::AND(Mode::IndirectX)),
        0x31 => Some(Instruction::AND(Mode::IndirectY)),
        0x49 => Some(Instruction::EOR(Mode::Immediate)),
        0x45 => Some(Instruction::EOR(Mode::ZeroPage)),
        0x55 => Some(Instruction::EOR(Mode::ZeroPageX)),
        0x4D => Some(Instruction::EOR(Mode::Absolute)),
        0x5D => Some(Instruction::EOR(Mode::AbsoluteX)),
        0x59 => Some(Instruction::EOR(Mode::AbsoluteY)),
        0x41 => Some(Instruction::EOR(Mode::IndirectX)),
        0x51 => Some(Instruction::EOR(Mode::IndirectY)),
        0x09 => Some(Instruction::ORA(Mode::Immediate)),
        0x05 => Some(Instruction::ORA(Mode::ZeroPage)),
        0x15 => Some(Instruction::ORA(Mode::ZeroPageX)),
        0x0D => Some(Instruction::ORA(Mode::Absolute)),
        0x1D => Some(Instruction::ORA(Mode::AbsoluteX)),
        0x19 => Some(Instruction::ORA(Mode::AbsoluteY)),
        0x01 => Some(Instruction::ORA(Mode::IndirectX)),
        0x11 => Some(Instruction::ORA(Mode::IndirectY)),
        0x24 => Some(Instruction::BIT(Mode::ZeroPage)),
        0x2C => Some(Instruction::BIT(Mode::Absolute)),
        0x69 => Some(Instruction::ADC(Mode::Immediate)),
        0x65 => Some(Instruction::ADC(Mode::ZeroPage)),
        0x75 => Some(Instruction::ADC(Mode::ZeroPageX)),
        0x6D => Some(Instruction::ADC(Mode::Absolute)),
        0x7D => Some(Instruction::ADC(Mode::AbsoluteX)),
        0x79 => Some(Instruction::ADC(Mode::AbsoluteY)),
        0x61 => Some(Instruction::ADC(Mode::IndirectX)),
        0x71 => Some(Instruction::ADC(Mode::IndirectY)),
        0xE9 => Some(Instruction::SBC(Mode::Immediate)),
        0xE5 => Some(Instruction::SBC(Mode::ZeroPage)),
        0xF5 => Some(Instruction::SBC(Mode::ZeroPageX)),
        0xED => Some(Instruction::SBC(Mode::Absolute)),
        0xFD => Some(Instruction::SBC(Mode::AbsoluteX)),
        0xF9 => Some(Instruction::SBC(Mode::AbsoluteY)),
        0xE1 => Some(Instruction::SBC(Mode::IndirectX)),
        0xF1 => Some(Instruction::SBC(Mode::IndirectY)),
        0xC9 => Some(Instruction::CMP(Mode::Immediate)),
        0xC5 => Some(Instruction::CMP(Mode::ZeroPage)),
        0xD5 => Some(Instruction::CMP(Mode::ZeroPageX)),
        0xCD => Some(Instruction::CMP(Mode::Absolute)),
        0xDD => Some(Instruction::CMP(Mode::AbsoluteX)),
        0xD9 => Some(Instruction::CMP(Mode::AbsoluteY)),
        0xC1 => Some(Instruction::CMP(Mode::IndirectX)),
        0xD1 => Some(Instruction::CMP(Mode::IndirectY)),
        0xE0 => Some(Instruction::CPX(Mode::Immediate)),
        0xE4 => Some(Instruction::CPX(Mode::ZeroPage)),
        0xEC => Some(Instruction::CPX(Mode::Absolute)),
        0xC0 => Some(Instruction::CPY(Mode::Immediate)),
        0xC4 => Some(Instruction::CPY(Mode::ZeroPage)),
        0xCC => Some(Instruction::CPY(Mode::Absolute)),
        0xE6 => Some(Instruction::INC(Mode::ZeroPage)),
        0xF6 => Some(Instruction::INC(Mode::ZeroPageX)),
        0xEE => Some(Instruction::INC(Mode::Absolute)),
        0xFE => Some(Instruction::INC(Mode::AbsoluteX)),
        0xE8 => Some(Instruction::INX(Mode::Implicit)),
        0xC8 => Some(Instruction::INY(Mode::Implicit)),
        0xC6 => Some(Instruction::DEC(Mode::ZeroPage)),
        0xD6 => Some(Instruction::DEC(Mode::ZeroPageX)),
        0xCE => Some(Instruction::DEC(Mode::Absolute)),
        0xDE => Some(Instruction::DEC(Mode::AbsoluteX)),
        0xCA => Some(Instruction::DEX(Mode::Implicit)),
        0x88 => Some(Instruction::DEY(Mode::Implicit)),
        0x0A => Some(Instruction::ASL(Mode::Accumulator)),
        0x06 => Some(Instruction::ASL(Mode::ZeroPage)),
        0x16 => Some(Instruction::ASL(Mode::ZeroPageX)),
        0x0E => Some(Instruction::ASL(Mode::Absolute)),
        0x1E => Some(Instruction::ASL(Mode::AbsoluteX)),
        0x4A => Some(Instruction::LSR(Mode::Accumulator)),
        0x46 => Some(Instruction::LSR(Mode::ZeroPage)),
        0x56 => Some(Instruction::LSR(Mode::ZeroPageX)),
        0x4E => Some(Instruction::LSR(Mode::Absolute)),
        0x5E => Some(Instruction::LSR(Mode::AbsoluteX)),
        0x2A => Some(Instruction::ROL(Mode::Accumulator)),
        0x26 => Some(Instruction::ROL(Mode::ZeroPage)),
        0x36 => Some(Instruction::ROL(Mode::ZeroPageX)),
        0x2E => Some(Instruction::ROL(Mode::Absolute)),
        0x3E => Some(Instruction::ROL(Mode::AbsoluteX)),
        0x6A => Some(Instruction::ROR(Mode::Accumulator)),
        0x66 => Some(Instruction::ROR(Mode::ZeroPage)),
        0x76 => Some(Instruction::ROR(Mode::ZeroPageX)),
        0x6E => Some(Instruction::ROR(Mode::Absolute)),
        0x7E => Some(Instruction::ROR(Mode::AbsoluteX)),
        0x4C => Some(Instruction::JMP(Mode::Absolute)),
        0x6C => Some(Instruction::JMP(Mode::Indirect)),
        0x20 => Some(Instruction::JSR(Mode::Absolute)),
        0x60 => Some(Instruction::RTS(Mode::Implicit)),
        0x90 => Some(Instruction::BCC(Mode::Relative)),
        0xB0 => Some(Instruction::BCS(Mode::Relative)),
        0xF0 => Some(Instruction::BEQ(Mode::Relative)),
        0x30 => Some(Instruction::BMI(Mode::Relative)),
        0xD0 => Some(Instruction::BNE(Mode::Relative)),
        0x10 => Some(Instruction::BPL(Mode::Relative)),
        0x50 => Some(Instruction::BVC(Mode::Relative)),
        0x70 => Some(Instruction::BVS(Mode::Relative)),
        0x18 => Some(Instruction::CLC(Mode::Implicit)),
        0xD8 => Some(Instruction::CLD(Mode::Implicit)),
        0x58 => Some(Instruction::CLI(Mode::Implicit)),
        0xB8 => Some(Instruction::CLV(Mode::Implicit)),
        0x38 => Some(Instruction::SEC(Mode::Implicit)),
        0xF8 => Some(Instruction::SED(Mode::Implicit)),
        0x78 => Some(Instruction::SEI(Mode::Implicit)),
        0x00 => Some(Instruction::BRK(Mode::Implicit)),
        0xEA => Some(Instruction::NOP(Mode::Implicit)),
        0x40 => Some(Instruction::RTI(Mode::Implicit)),
        _ => None,
    }
}

} // verus!
