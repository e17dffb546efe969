#![allow(non_snake_case)]

use nes_vm::cpu::{CPU, Registers};
use nes_vm::instructions::{Instruction, Mode};
use nes_vm::semantics::CpuState;

pub struct Data {
    address: u16,
    value: u16,
}

pub struct Answers {
    pub PC: u16,
    pub SP: u8,
    pub A: u8,
    pub X: u8,
    pub Y: u8,
    pub Flags: u8,
}

fn testIndividualInstruction(
    program: Vec<u8>,
    instruction: Instruction,
    writeData: Vec<Data>,
    reg: Registers,
    memoryExpectedValues: Vec<Data>,
    expectedValues: Answers,
) -> bool {
    let mut cpu = CPU::new(program);

    cpu.registers.PC = reg.PC;
    cpu.registers.SP = reg.SP;
    cpu.registers.A = reg.A;
    cpu.registers.X = reg.X;
    cpu.registers.Y = reg.Y;
    cpu.registers.Flags = reg.Flags;

    for memVal in writeData {
        cpu.memory.memoryWriteShort(memVal.address, memVal.value);
    }

    let inst = match cpu.fetchAndDecodeInstruction() {
        Ok(i) => i,
        Err(f) => {
            println!("Unexpected illegal-opcode fault: {:?}", f);
            return false;
        }
    };
    cpu.executeInstruction(inst);

    if inst != instruction {
        println!("Instruction error");
        return false;
    }
    if cpu.registers.PC != expectedValues.PC {
        println!("PC error {} != Expected {}", cpu.registers.PC, expectedValues.PC);
        return false;
    }
    if cpu.registers.SP != expectedValues.SP {
        println!("SP error {} != Expected {}", cpu.registers.SP, expectedValues.SP);
        return false;
    }
    if cpu.registers.A != expectedValues.A {
        println!("A error {} != Expected {}", cpu.registers.A, expectedValues.A);
        return false;
    }
    if cpu.registers.X != expectedValues.X {
        println!("X error {} != Expected {}", cpu.registers.X, expectedValues.X);
        return false;
    }
    if cpu.registers.Y != expectedValues.Y {
        println!("Y error {} != Expected {}", cpu.registers.Y, expectedValues.Y);
        return false;
    }
    if cpu.registers.Flags != expectedValues.Flags {
        println!(
            "Flags error {:#08b} != Expected {:#08b}",
            cpu.registers.Flags, expectedValues.Flags
        );
        return false;
    }

    for memVal in memoryExpectedValues {
        if cpu.memory.memoryReadShort(memVal.address) != memVal.value {
            println!(
                "Memory value read error at location: {:x?}. Expected {:x} but found {:x}",
                memVal.address,
                memVal.value,
                cpu.memory.memoryReadShort(memVal.address)
            );
            return false;
        }
    }

    true
}

#[test]
fn testCpuCreation() {
    let cpu = CPU::new(Vec::new());
    assert_eq!(cpu.registers.PC, 0);
    assert_eq!(cpu.registers.SP, 0);
    assert_eq!(cpu.registers.A, 0);
    assert_eq!(cpu.registers.X, 0);
    assert_eq!(cpu.registers.Y, 0);
    assert_eq!(cpu.registers.Flags, 0);
}

#[test]
fn testLdaNonNegativeExecute() {
    let mut cpu = CPU::new(vec![0xa9, 0b1010_1010]);
    let i = cpu.fetchAndDecodeInstruction().unwrap();
    cpu.executeInstruction(i);
    assert_eq!(i, Instruction::LDA(Mode::Immediate));
    assert_eq!(2, cpu.registers.PC);
    assert_eq!(cpu.registers.A, 0b1010_1010);
    assert_eq!(cpu.registers.Flags, 0b0100_0000);
}

#[test]
fn testLda() {
    assert_eq!(
        true,
        testIndividualInstruction(
            vec![0xa9, 0b1010_1010],
            Instruction::LDA(Mode::Immediate),
            vec![],
            Registers { PC: 0, SP: 0, A: 0, X: 0, Y: 0, Flags: 0 },
            vec![],
            Answers { PC: 2, SP: 0, A: 0b1010_1010, X: 0, Y: 0, Flags: 0b0100_0000 }
        )
    );

    assert_eq!(
        true,
        testIndividualInstruction(
            vec![0xa5, 0x15],
            Instruction::LDA(Mode::ZeroPage),
            vec![Data { address: 0x15, value: 0x44 }],
            Registers { PC: 0, SP: 0, A: 0, X: 0, Y: 0, Flags: 0 },
            vec![],
            Answers { PC: 2, SP: 0, A: 0x44, X: 0, Y: 0, Flags: 0 }
        )
    );

    assert_eq!(
        true,
        testIndividualInstruction(
            vec![0xb5, 0x15],
            Instruction::LDA(Mode::ZeroPageX),
            vec![Data { address: 0x1a, value: 0x44 }],
            Registers { PC: 0, SP: 0, A: 0, X: 5, Y: 0, Flags: 0 },
            vec![],
            Answers { PC: 2, SP: 0, A: 0x44, X: 5, Y: 0, Flags: 0 }
        )
    );

    assert_eq!(
        true,
        testIndividualInstruction(
            vec![0xad, 0x34, 0x12],
            Instruction::LDA(Mode::Absolute),
            vec![Data { address: 0x1234, value: 0x44 }],
            Registers { PC: 0, SP: 0, A: 0, X: 0, Y: 0, Flags: 0 },
            vec![],
            Answers { PC: 3, SP: 0, A: 0x44, X: 0, Y: 0, Flags: 0 }
        )
    );

    assert_eq!(
        true,
        testIndividualInstruction(
            vec![0xbd, 0x34, 0x12],
            Instruction::LDA(Mode::AbsoluteX),
            vec![Data { address: 0x1234 + 0x10, value: 0x44 }],
            Registers { PC: 0, SP: 0, A: 0, X: 0x10, Y: 0, Flags: 0 },
            vec![],
            Answers { PC: 3, SP: 0, A: 0x44, X: 0x10, Y: 0, Flags: 0 }
        )
    );

    assert_eq!(
        true,
        testIndividualInstruction(
            vec![0xb9, 0x34, 0x12],
            Instruction::LDA(Mode::AbsoluteY),
            vec![Data { address: 0x1234 + 0x10, value: 0x44 }],
            Registers { PC: 0, SP: 0, A: 0, X: 0, Y: 0x10, Flags: 0 },
            vec![],
            Answers { PC: 3, SP: 0, A: 0x44, X: 0, Y: 0x10, Flags: 0 }
        )
    );

    assert_eq!(
        true,
        testIndividualInstruction(
            vec![0xa1, 0x20],
            Instruction::LDA(Mode::IndirectX),
            vec![
                Data { address: 0x24, value: 0x7420 },
                Data { address: 0x7420, value: 0x11 }
            ],
            Registers { PC: 0, SP: 0, A: 0, X: 0x4, Y: 0, Flags: 0 },
            vec![],
            Answers { PC: 2, SP: 0, A: 0x11, X: 0x4, Y: 0, Flags: 0 }
        )
    );

    assert_eq!(
        true,
        testIndividualInstruction(
            vec![0xb1, 0x86],
            Instruction::LDA(Mode::IndirectY),
            vec![
                Data { address: 0x86, value: 0x7420 },
                Data { address: 0x7424, value: 0x11 }
            ],
            Registers { PC: 0, SP: 0, A: 0, X: 0, Y: 0x4, Flags: 0 },
            vec![Data { address: 0x7424, value: 0x11 }],
            Answers { PC: 2, SP: 0, A: 0x11, X: 0, Y: 0x4, Flags: 0 }
        )
    );
}

#[test]
fn testLdx() {
    assert_eq!(
        true,
        testIndividualInstruction(
            vec![0xa2, 0b1010_1010],
            Instruction::LDX(Mode::Immediate),
            vec![],
            Registers { PC: 0, SP: 0, A: 0, X: 0, Y: 0, Flags: 0 },
            vec![],
            Answers { PC: 2, SP: 0, A: 0, X: 0b1010_1010, Y: 0, Flags: 0b0100_0000 }
        )
    );

    assert_eq!(
        true,
        testIndividualInstruction(
            vec![0xa6, 0x15],
            Instruction::LDX(Mode::ZeroPage),
            vec![Data { address: 0x15, value: 0x44 }],
            Registers { PC: 0, SP: 0, A: 0, X: 0, Y: 0, Flags: 0 },
            vec![],
            Answers { PC: 2, SP: 0, A: 0, X: 0x44, Y: 0, Flags: 0 }
        )
    );

    assert_eq!(
        true,
        testIndividualInstruction(
            vec![0xb6, 0x15],
            Instruction::LDX(Mode::ZeroPageY),
            vec![Data { address: 0x1a, value: 0x44 }],
            Registers { PC: 0, SP: 0, A: 0, X: 5, Y: 5, Flags: 0 },
            vec![],
            Answers { PC: 2, SP: 0, A: 0, X: 0x44, Y: 5, Flags: 0 }
        )
    );

    assert_eq!(
        true,
        testIndividualInstruction(
            vec![0xae, 0x34, 0x12],
            Instruction::LDX(Mode::Absolute),
            vec![Data { address: 0x1234, value: 0x44 }],
            Registers { PC: 0, SP: 0, A: 0, X: 0, Y: 0, Flags: 0 },
            vec![],
            Answers { PC: 3, SP: 0, A: 0, X: 0x44, Y: 0, Flags: 0 }
        )
    );

    assert_eq!(
        true,
        testIndividualInstruction(
            vec![0xbe, 0x34, 0x12],
            Instruction::LDX(Mode::AbsoluteY),
            vec![Data { address: 0x1234 + 0x10, value: 0x44 }],
            Registers { PC: 0, SP: 0, A: 0, X: 0, Y: 0x10, Flags: 0 },
            vec![],
            Answers { PC: 3, SP: 0, A: 0, X: 0x44, Y: 0x10, Flags: 0 }
        )
    );
}

#[test]
fn testLdy() {
    assert_eq!(
        true,
        testIndividualInstruction(
            vec![0xa0, 0b1010_1010],
            Instruction::LDY(Mode::Immediate),
            vec![],
            Registers { PC: 0, SP: 0, A: 0, X: 0, Y: 0, Flags: 0 },
            vec![],
            Answers { PC: 2, SP: 0, A: 0, X: 0, Y: 0b1010_1010, Flags: 0b0100_0000 }
        )
    );

    assert_eq!(
        true,
        testIndividualInstruction(
            vec![0xa4, 0x15],
            Instruction::LDY(Mode::ZeroPage),
            vec![Data { address: 0x15, value: 0x44 }],
            Registers { PC: 0, SP: 0, A: 0, X: 0, Y: 0, Flags: 0 },
            vec![],
            Answers { PC: 2, SP: 0, A: 0, X: 0, Y: 0x44, Flags: 0 }
        )
    );

    assert_eq!(
        true,
        testIndividualInstruction(
            vec![0xb4, 0x15],
            Instruction::LDY(Mode::ZeroPageX),
            vec![Data { address: 0x1a, value: 0x44 }],
            Registers { PC: 0, SP: 0, A: 0, X: 5, Y: 0, Flags: 0 },
            vec![],
            Answers { PC: 2, SP: 0, A: 0, X: 5, Y: 0x44, Flags: 0 }
        )
    );

    assert_eq!(
        true,
        testIndividualInstruction(
            vec![0xac, 0x34, 0x12],
            Instruction::LDY(Mode::Absolute),
            vec![Data { address: 0x1234, value: 0x44 }],
            Registers { PC: 0, SP: 0, A: 0, X: 0, Y: 0, Flags: 0 },
            vec![],
            Answers { PC: 3, SP: 0, A: 0, X: 0, Y: 0x44, Flags: 0 }
        )
    );

    assert_eq!(
        true,
        testIndividualInstruction(
            vec![0xbc, 0x34, 0x12],
            Instruction::LDY(Mode::AbsoluteX),
            vec![Data { address: 0x1234 + 0x10, value: 0x44 }],
            Registers { PC: 0, SP: 0, A: 0, X: 0x10, Y: 0, Flags: 0 },
            vec![],
            Answers { PC: 3, SP: 0, A: 0, X: 0x10, Y: 0x44, Flags: 0 }
        )
    );
}

#[test]
fn testSta() {
    assert_eq!(
        true,
        testIndividualInstruction(
            vec![0x85, 0x15],
            Instruction::STA(Mode::ZeroPage),
            vec![],
            Registers { PC: 0, SP: 0, A: 0x50, X: 0, Y: 0, Flags: 0 },
            vec![Data { address: 0x15, value: 0x50 }],
            Answers { PC: 2, SP: 0, A: 0x50, X: 0, Y: 0, Flags: 0 }
        )
    );

    assert_eq!(
        true,
        testIndividualInstruction(
            vec![0x95, 0x15],
            Instruction::STA(Mode::ZeroPageX),
            vec![],
            Registers { PC: 0, SP: 0, A: 0x50, X: 0x5, Y: 0, Flags: 0 },
            vec![Data { address: 0x1a, value: 0x50 }],
            Answers { PC: 2, SP: 0, A: 0x50, X: 0x5, Y: 0, Flags: 0 }
        )
    );

    assert_eq!(
        true,
        testIndividualInstruction(
            vec![0x8D, 0x34, 0x12],
            Instruction::STA(Mode::Absolute),
            vec![],
            Registers { PC: 0, SP: 0, A: 0x50, X: 0, Y: 0, Flags: 0 },
            vec![Data { address: 0x1234, value: 0x50 }],
            Answers { PC: 3, SP: 0, A: 0x50, X: 0, Y: 0, Flags: 0 }
        )
    );

    assert_eq!(
        true,
        testIndividualInstruction(
            vec![0x9D, 0x34, 0x12],
            Instruction::STA(Mode::AbsoluteX),
            vec![],
            Registers { PC: 0, SP: 0, A: 0x50, X: 0x5, Y: 0, Flags: 0 },
            vec![Data { address: 0x1239, value: 0x50 }],
            Answers { PC: 3, SP: 0, A: 0x50, X: 0x5, Y: 0, Flags: 0 }
        )
    );
}

#[test]
fn testTax() {
    assert_eq!(
        true,
        testIndividualInstruction(
            vec![0xAA],
            Instruction::TAX(Mode::Implicit),
            vec![],
            Registers { PC: 0, SP: 0, A: 0x50, X: 0, Y: 0, Flags: 0 },
            vec![],
            Answers { PC: 1, SP: 0, A: 0x50, X: 0x50, Y: 0, Flags: 0 }
        )
    );
}

#[test]
fn testPHA() {
    assert_eq!(
        true,
        testIndividualInstruction(
            vec![0x48],
            Instruction::PHA(Mode::Implicit),
            vec![],
            Registers { PC: 0, SP: 0x10, A: 0x50, X: 0, Y: 0, Flags: 0 },
            vec![Data { address: 0x0110, value: 0x50 }],
            Answers { PC: 1, SP: 0x0f, A: 0x50, X: 0, Y: 0, Flags: 0 }
        )
    );
}

#[test]
fn testPLA() {
    // Pull increments SP first and then reads: with SP at 0x11 the value
    // comes from stack cell 0x0112.
    assert_eq!(
        true,
        testIndividualInstruction(
            vec![0x68],
            Instruction::PLA(Mode::Implicit),
            vec![Data { address: 0x0112, value: 0x50 }],
            Registers { PC: 0, SP: 0x11, A: 0, X: 0, Y: 0, Flags: 0 },
            vec![],
            Answers { PC: 1, SP: 0x12, A: 0x50, X: 0, Y: 0, Flags: 0 }
        )
    );
}

#[test]
fn testAND() {
    assert_eq!(
        true,
        testIndividualInstruction(
            vec![0x29, 0b0000_0110],
            Instruction::AND(Mode::Immediate),
            vec![],
            Registers { PC: 0, SP: 0x0, A: 0b0000_1111, X: 0, Y: 0, Flags: 0 },
            vec![],
            Answers { PC: 2, SP: 0, A: 0b0000_0110, X: 0, Y: 0, Flags: 0 }
        )
    );
}

#[test]
fn testBIT() {
    // The operand 0b0110_0000 has bit 6 set and bit 7 clear, so Overflow
    // (bit 5 of the status byte) is set and Negative is clear; A AND the
    // operand is nonzero, so Zero is clear.
    assert_eq!(
        true,
        testIndividualInstruction(
            vec![0x24, 0x20],
            Instruction::BIT(Mode::ZeroPage),
            vec![Data { address: 0x20, value: 0b0110_0000 }],
            Registers { PC: 0, SP: 0x0, A: 0b0110_0000, X: 0, Y: 0, Flags: 0 },
            vec![],
            Answers { PC: 2, SP: 0, A: 0b0110_0000, X: 0, Y: 0, Flags: 0b0010_0000 }
        )
    );
}

#[test]
fn testADC() {
    assert_eq!(
        true,
        testIndividualInstruction(
            vec![0x65, 0x20],
            Instruction::ADC(Mode::ZeroPage),
            vec![Data { address: 0x20, value: 1 }],
            Registers { PC: 0, SP: 0x0, A: 0b0000_1111, X: 0, Y: 0, Flags: 0 },
            vec![],
            Answers { PC: 2, SP: 0, A: 0b0001_0000, X: 0, Y: 0, Flags: 0 }
        )
    );
    // 0x7F + 1 overflows the signed range; the sum 0x80 also has bit 7 set,
    // so Overflow and Negative are both set.
    assert_eq!(
        true,
        testIndividualInstruction(
            vec![0x65, 0x20],
            Instruction::ADC(Mode::ZeroPage),
            vec![Data { address: 0x20, value: 0x01 }],
            Registers { PC: 0, SP: 0x0, A: 0x7f, X: 0, Y: 0, Flags: 0 },
            vec![],
            Answers { PC: 2, SP: 0, A: 128, X: 0, Y: 0, Flags: 0b0110_0000 }
        )
    );
    assert_eq!(
        true,
        testIndividualInstruction(
            vec![0x65, 0x20],
            Instruction::ADC(Mode::ZeroPage),
            vec![Data { address: 0x20, value: 0x80 }],
            Registers { PC: 0, SP: 0x0, A: 0xff, X: 0, Y: 0, Flags: 0 },
            vec![],
            Answers { PC: 2, SP: 0, A: 127, X: 0, Y: 0, Flags: 0b00100001 }
        )
    );
}

#[test]
fn testJSR() {
    // JSR from address 0 pushes the return point 0x0002 (high byte at stack
    // cell 0x0100, low byte at 0x01FF as SP wraps), leaving SP at 0xFE and
    // the PC at the target.
    assert_eq!(
        true,
        testIndividualInstruction(
            vec![0x20, 0x34, 0x12],
            Instruction::JSR(Mode::Absolute),
            vec![Data { address: 0x1234, value: 1 }],
            Registers { PC: 0, SP: 0x0, A: 0, X: 0, Y: 0, Flags: 0 },
            vec![Data { address: 0x01FF, value: 0x2 }],
            Answers { PC: 0x1234, SP: 0xFE, A: 0, X: 0, Y: 0, Flags: 0 }
        )
    );
}

#[test]
fn testRTS() {
    // With SP at 0xFE, RTS pulls the low byte from 0x01FF and the high byte
    // from 0x0100, then adds 1: a stored 0x0003 returns the PC to 0x0004.
    assert_eq!(
        true,
        testIndividualInstruction(
            vec![0x60],
            Instruction::RTS(Mode::Implicit),
            vec![Data { address: 0x01FF, value: 0x03 }],
            Registers { PC: 0, SP: 0xFE, A: 0, X: 0, Y: 0, Flags: 0 },
            vec![],
            Answers { PC: 0x4, SP: 0x0, A: 0, X: 0, Y: 0, Flags: 0 }
        )
    );
}

#[test]
fn testBCC() {
    assert_eq!(
        true,
        testIndividualInstruction(
            vec![0x90, !(0x02) + 1],
            Instruction::BCC(Mode::Relative),
            vec![],
            Registers { PC: 0, SP: 0, A: 0, X: 0, Y: 0, Flags: 0b0000_0000 },
            vec![],
            Answers { PC: 0x0, SP: 0x0, A: 0, X: 0, Y: 0, Flags: 0b0000_0000 }
        )
    );
    assert_eq!(
        true,
        testIndividualInstruction(
            vec![0x90, 0x10],
            Instruction::BCC(Mode::Relative),
            vec![],
            Registers { PC: 0, SP: 0, A: 0, X: 0, Y: 0, Flags: 0b0000_0000 },
            vec![],
            Answers { PC: 0x12, SP: 0x0, A: 0, X: 0, Y: 0, Flags: 0b0000_0000 }
        )
    );
}

#[test]
fn testNOP() {
    assert_eq!(
        true,
        testIndividualInstruction(
            vec![0xEA],
            Instruction::NOP(Mode::Implicit),
            vec![],
            Registers { PC: 0, SP: 0, A: 0, X: 0, Y: 0, Flags: 0b0000_0000 },
            vec![],
            Answers { PC: 0x1, SP: 0x0, A: 0, X: 0, Y: 0, Flags: 0b0000_0000 }
        )
    );
}

#[test]
fn testRun() {
    let snakeGame = vec![
        0x20, 0x06, 0x06, 0x20, 0x38, 0x06, 0x20, 0x0d, 0x06, 0x20, 0x2a, 0x06, 0x60, 0xa9, 0x02,
        0x85, 0x02, 0xa9, 0x04, 0x85, 0x03, 0xa9, 0x11, 0x85, 0x10, 0xa9, 0x10, 0x85, 0x12, 0xa9,
        0x0f, 0x85, 0x14, 0xa9, 0x04, 0x85, 0x11, 0x85, 0x13, 0x85, 0x15, 0x60, 0xa5, 0xfe, 0x85,
        0x00, 0xa5, 0xfe, 0x29, 0x03, 0x18, 0x69, 0x02, 0x85, 0x01, 0x60, 0x20, 0x4d, 0x06, 0x20,
        0x8d, 0x06, 0x20, 0xc3, 0x06, 0x20, 0x19, 0x07, 0x20, 0x20, 0x07, 0x20, 0x2d, 0x07, 0x4c,
        0x38, 0x06, 0xa5, 0xff, 0xc9, 0x77, 0xf0, 0x0d, 0xc9, 0x64, 0xf0, 0x14, 0xc9, 0x73, 0xf0,
        0x1b, 0xc9, 0x61, 0xf0, 0x22, 0x60, 0xa9, 0x04, 0x24, 0x02, 0xd0, 0x26, 0xa9, 0x01, 0x85,
        0x02, 0x60, 0xa9, 0x08, 0x24, 0x02, 0xd0, 0x1b, 0xa9, 0x02, 0x85, 0x02, 0x60, 0xa9, 0x01,
        0x24, 0x02, 0xd0, 0x10, 0xa9, 0x04, 0x85, 0x02, 0x60, 0xa9, 0x02, 0x24, 0x02, 0xd0, 0x05,
        0xa9, 0x08, 0x85, 0x02, 0x60, 0x60, 0x20, 0x94, 0x06, 0x20, 0xa8, 0x06, 0x60, 0xa5, 0x00,
        0xc5, 0x10, 0xd0, 0x0d, 0xa5, 0x01, 0xc5, 0x11, 0xd0, 0x07, 0xe6, 0x03, 0xe6, 0x03, 0x20,
        0x2a, 0x06, 0x60, 0xa2, 0x02, 0xb5, 0x10, 0xc5, 0x10, 0xd0, 0x06, 0xb5, 0x11, 0xc5, 0x11,
        0xf0, 0x09, 0xe8, 0xe8, 0xe4, 0x03, 0xf0, 0x06, 0x4c, 0xaa, 0x06, 0x4c, 0x35, 0x07, 0x60,
        0xa6, 0x03, 0xca, 0x8a, 0xb5, 0x10, 0x95, 0x12, 0xca, 0x10, 0xf9, 0xa5, 0x02, 0x4a, 0xb0,
        0x09, 0x4a, 0xb0, 0x19, 0x4a, 0xb0, 0x1f, 0x4a, 0xb0, 0x2f, 0xa5, 0x10, 0x38, 0xe9, 0x20,
        0x85, 0x10, 0x90, 0x01, 0x60, 0xc6, 0x11, 0xa9, 0x01, 0xc5, 0x11, 0xf0, 0x28, 0x60, 0xe6,
        0x10, 0xa9, 0x1f, 0x24, 0x10, 0xf0, 0x1f, 0x60, 0xa5, 0x10, 0x18, 0x69, 0x20, 0x85, 0x10,
        0xb0, 0x01, 0x60, 0xe6, 0x11, 0xa9, 0x06, 0xc5, 0x11, 0xf0, 0x0c, 0x60, 0xc6, 0x10, 0xa5,
        0x10, 0x29, 0x1f, 0xc9, 0x1f, 0xf0, 0x01, 0x60, 0x4c, 0x35, 0x07, 0xa0, 0x00, 0xa5, 0xfe,
        0x91, 0x00, 0x60, 0xa6, 0x03, 0xa9, 0x00, 0x81, 0x10, 0xa2, 0x00, 0xa9, 0x01, 0x81, 0x10,
        0x60, 0xa2, 0x00, 0xea, 0xea, 0xca, 0xd0, 0xfb, 0x60,
    ];
    let mut cpu = CPU::new(snakeGame);
    cpu.run(100000);
}

#[test]
fn testRunHaltsOnBrk() {
    let mut cpu = CPU::new(vec![0xa9, 0x05, 0x00]);
    cpu.run(10);
    assert_eq!(cpu.state, CpuState::Halted);
    assert_eq!(cpu.registers.A, 0x05);
    assert!(cpu.fault.is_none());
}
