use nes_core::instruction::{AddressingMode, Instruction, Opcode};

fn unmapped() -> Instruction {
    Instruction(Opcode::Unmapped, AddressingMode::Implied)
}

#[test]
fn decode_literal_vectors() {
    assert_eq!(Instruction::from(0x00), Instruction(Opcode::BRK, AddressingMode::Implied));
    assert_eq!(Instruction::from(0xea), Instruction(Opcode::NOP, AddressingMode::Implied));
    assert_eq!(Instruction::from(0xa9), Instruction(Opcode::LDA, AddressingMode::Immediate));
    assert_eq!(Instruction::from(0x4c), Instruction(Opcode::JMP, AddressingMode::Absolute));
    assert_eq!(Instruction::from(0x6c), Instruction(Opcode::JMP, AddressingMode::Indirect));
}

#[test]
fn decode_is_total_and_marks_unmapped_bytes() {
    let mut assigned = 0;
    let mut unassigned = 0;
    for code in 0..=255u8 {
        let inst = Instruction::from(code);
        if inst == unmapped() {
            unassigned += 1;
        } else {
            assert_ne!(inst.0, Opcode::Unmapped);
            assigned += 1;
        }
    }
    assert_eq!(assigned, 151);
    assert_eq!(unassigned, 105);
}

#[test]
fn decode_unmapped_bytes_give_the_placeholder() {
    for code in [0x02u8, 0x03, 0x1a, 0x80, 0x89, 0x9c, 0xff] {
        assert_eq!(Instruction::from(code), unmapped());
    }
}

#[test]
fn decode_no_pair_is_given_by_two_bytes() {
    let mut seen: Vec<Instruction> = Vec::new();
    for code in 0..=255u8 {
        let inst = Instruction::from(code);
        if inst.0 != Opcode::Unmapped {
            assert!(!seen.contains(&inst), "{:?} decoded twice", inst);
            seen.push(inst);
        }
    }
}

#[test]
fn decode_store_index_registers_per_mode() {
    assert_eq!(Instruction::from(0x86), Instruction(Opcode::STX, AddressingMode::ZeroPage));
    assert_eq!(Instruction::from(0x96), Instruction(Opcode::STX, AddressingMode::ZeroPageY));
    assert_eq!(Instruction::from(0x8e), Instruction(Opcode::STX, AddressingMode::Absolute));
    assert_eq!(Instruction::from(0x84), Instruction(Opcode::STY, AddressingMode::ZeroPage));
    assert_eq!(Instruction::from(0x94), Instruction(Opcode::STY, AddressingMode::ZeroPageX));
    assert_eq!(Instruction::from(0x8c), Instruction(Opcode::STY, AddressingMode::Absolute));
}

#[test]
fn decode_accumulator_family() {
    let modes = [
        (0x69u8, AddressingMode::Immediate),
        (0x65, AddressingMode::ZeroPage),
        (0x75, AddressingMode::ZeroPageX),
        (0x6d, AddressingMode::Absolute),
        (0x7d, AddressingMode::AbsoluteX),
        (0x79, AddressingMode::AbsoluteY),
        (0x61, AddressingMode::IndirectX),
        (0x71, AddressingMode::IndirectY),
    ];
    for (code, mode) in modes {
        assert_eq!(Instruction::from(code), Instruction(Opcode::ADC, mode));
        assert_eq!(Instruction::from(code.wrapping_add(0x80)), Instruction(Opcode::SBC, mode));
        assert_eq!(Instruction::from(code.wrapping_sub(0x40)), Instruction(Opcode::AND, mode));
        assert_eq!(Instruction::from(code.wrapping_sub(0x20)), Instruction(Opcode::EOR, mode));
        assert_eq!(Instruction::from(code.wrapping_sub(0x60)), Instruction(Opcode::ORA, mode));
        assert_eq!(Instruction::from(code.wrapping_add(0x40)), Instruction(Opcode::LDA, mode));
        assert_eq!(Instruction::from(code.wrapping_add(0x60)), Instruction(Opcode::CMP, mode));
    }
}

#[test]
fn decode_index_loads_use_the_other_register() {
    assert_eq!(Instruction::from(0xb6), Instruction(Opcode::LDX, AddressingMode::ZeroPageY));
    assert_eq!(Instruction::from(0xbe), Instruction(Opcode::LDX, AddressingMode::AbsoluteY));
    assert_eq!(Instruction::from(0xb4), Instruction(Opcode::LDY, AddressingMode::ZeroPageX));
    assert_eq!(Instruction::from(0xbc), Instruction(Opcode::LDY, AddressingMode::AbsoluteX));
}

#[test]
fn decode_branches_and_single_byte_operations() {
    let branches = [
        (0x10u8, Opcode::BPL),
        (0x30, Opcode::BMI),
        (0x50, Opcode::BVC),
        (0x70, Opcode::BVS),
        (0x90, Opcode::BCC),
        (0xb0, Opcode::BCS),
        (0xd0, Opcode::BNE),
        (0xf0, Opcode::BEQ),
    ];
    for (code, op) in branches {
        assert_eq!(Instruction::from(code), Instruction(op, AddressingMode::Relative));
    }
    let implied = [
        (0x18u8, Opcode::CLC),
        (0x38, Opcode::SEC),
        (0x58, Opcode::CLI),
        (0x78, Opcode::SEI),
        (0xb8, Opcode::CLV),
        (0xd8, Opcode::CLD),
        (0xf8, Opcode::SED),
        (0xaa, Opcode::TAX),
        (0xa8, Opcode::TAY),
        (0xba, Opcode::TSX),
        (0x8a, Opcode::TXA),
        (0x9a, Opcode::TXS),
        (0x98, Opcode::TYA),
        (0x48, Opcode::PHA),
        (0x08, Opcode::PHP),
        (0x68, Opcode::PLA),
        (0x28, Opcode::PLP),
        (0xe8, Opcode::INX),
        (0xc8, Opcode::INY),
        (0xca, Opcode::DEX),
        (0x88, Opcode::DEY),
        (0x40, Opcode::RTI),
        (0x60, Opcode::RTS),
    ];
    for (code, op) in implied {
        assert_eq!(Instruction::from(code), Instruction(op, AddressingMode::Implied));
    }
    assert_eq!(Instruction::from(0x20), Instruction(Opcode::JSR, AddressingMode::Absolute));
    assert_eq!(Instruction::from(0x0a), Instruction(Opcode::ASL, AddressingMode::Accumulator));
    assert_eq!(Instruction::from(0x24), Instruction(Opcode::BIT, AddressingMode::ZeroPage));
    assert_eq!(Instruction::from(0x2c), Instruction(Opcode::BIT, AddressingMode::Absolute));
}
