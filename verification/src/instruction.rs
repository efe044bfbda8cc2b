//! Operations, addressing modes and the one-byte encoding that pairs them.
use vstd::prelude::*;

verus! {

/// The operations of the processor, and a placeholder for bytes that encode
/// none of them.
#[derive(PartialEq, Eq, Copy, Clone, Debug, Structural)]
pub enum Opcode {
    // Arithmetic and logic
    ADC,
    SBC,
    AND,
    EOR,
    ORA,
    // Shifts and rotations
    ASL,
    LSR,
    ROL,
    ROR,
    // Increment and decrement
    INC,
    INX,
    INY,
    DEC,
    DEX,
    DEY,
    // Load and store
    LDA,
    LDX,
    LDY,
    STA,
    STX,
    STY,
    // Set and clear flags
    SEC,
    SED,
    SEI,
    CLC,
    CLD,
    CLI,
    CLV,
    // Compare
    CMP,
    CPX,
    CPY,
    // Jump and return
    JMP,
    JSR,
    RTI,
    RTS,
    // Branch
    BCC,
    BCS,
    BEQ,
    BMI,
    BNE,
    BPL,
    BVC,
    BVS,
    // Push and pop
    PHA,
    PHP,
    PLA,
    PLP,
    // Transfer
    TAX,
    TAY,
    TSX,
    TXA,
    TXS,
    TYA,
    // Miscellaneous
    BRK,
    BIT,
    NOP,
    /// Stands for every byte that encodes no operation.
    Unmapped,
}

/// How an instruction finds its operand.
#[derive(PartialEq, Eq, Copy, Clone, Debug, Structural)]
pub enum AddressingMode {
    Implied,
    Accumulator,
    Immediate,
    Absolute,
    ZeroPage,
    ZeroPageX,
    ZeroPageY,
    AbsoluteX,
    AbsoluteY,
    Relative,
    Indirect,
    IndirectX,
    IndirectY,
}

/// An operation together with its addressing mode.
#[derive(PartialEq, Eq, Copy, Clone, Debug, Structural)]
pub struct Instruction(pub Opcode, pub AddressingMode);

/// The byte that encodes `op` in `mode`, for the pairs the processor has.
pub open spec fn opcode_byte(op: Opcode, mode: AddressingMode) -> Option<u8> {
    match op {
        Opcode::ADC => match mode {
            AddressingMode::Immediate => Some(0x69u8),
            AddressingMode::ZeroPage => Some(0x65u8),
            AddressingMode::ZeroPageX => Some(0x75u8),
            AddressingMode::Absolute => Some(0x6du8),
            AddressingMode::AbsoluteX => Some(0x7du8),
            AddressingMode::AbsoluteY => Some(0x79u8),
            AddressingMode::IndirectX => Some(0x61u8),
            AddressingMode::IndirectY => Some(0x71u8),
            _ => None,
        },
        Opcode::SBC => match mode {
            AddressingMode::Immediate => Some(0xe9u8),
            AddressingMode::ZeroPage => Some(0xe5u8),
            AddressingMode::ZeroPageX => Some(0xf5u8),
            AddressingMode::Absolute => Some(0xedu8),
            AddressingMode::AbsoluteX => Some(0xfdu8),
            AddressingMode::AbsoluteY => Some(0xf9u8),
            AddressingMode::IndirectX => Some(0xe1u8),
            AddressingMode::IndirectY => Some(0xf1u8),
            _ => None,
        },
        Opcode::AND => match mode {
            AddressingMode::Immediate => Some(0x29u8),
            AddressingMode::ZeroPage => Some(0x25u8),
            AddressingMode::ZeroPageX => Some(0x35u8),
            AddressingMode::Absolute => Some(0x2du8),
            AddressingMode::AbsoluteX => Some(0x3du8),
            AddressingMode::AbsoluteY => Some(0x39u8),
            AddressingMode::IndirectX => Some(0x21u8),
            AddressingMode::IndirectY => Some(0x31u8),
            _ => None,
        },
        Opcode::EOR => match mode {
            AddressingMode::Immediate => Some(0x49u8),
            AddressingMode::ZeroPage => Some(0x45u8),
            AddressingMode::ZeroPageX => Some(0x55u8),
            AddressingMode::Absolute => Some(0x4du8),
            AddressingMode::AbsoluteX => Some(0x5du8),
            AddressingMode::AbsoluteY => Some(0x59u8),
            AddressingMode::IndirectX => Some(0x41u8),
            AddressingMode::IndirectY => Some(0x51u8),
            _ => None,
        },
        Opcode::ORA => match mode {
            AddressingMode::Immediate => Some(0x09u8),
            AddressingMode::ZeroPage => Some(0x05u8),
            AddressingMode::ZeroPageX => Some(0x15u8),
            AddressingMode::Absolute => Some(0x0du8),
            AddressingMode::AbsoluteX => Some(0x1du8),
            AddressingMode::AbsoluteY => Some(0x19u8),
            AddressingMode::IndirectX => Some(0x01u8),
            AddressingMode::IndirectY => Some(0x11u8),
            _ => None,
        },
        Opcode::ASL => match mode {
            AddressingMode::Accumulator => Some(0x0au8),
            AddressingMode::ZeroPage => Some(0x06u8),
            AddressingMode::ZeroPageX => Some(0x16u8),
            AddressingMode::Absolute => Some(0x0eu8),
            AddressingMode::AbsoluteX => Some(0x1eu8),
            _ => None,
        },
        Opcode::LSR => match mode {
            AddressingMode::Accumulator => Some(0x4au8),
            AddressingMode::ZeroPage => Some(0x46u8),
            AddressingMode::ZeroPageX => Some(0x56u8),
            AddressingMode::Absolute => Some(0x4eu8),
            AddressingMode::AbsoluteX => Some(0x5eu8),
            _ => None,
        },
        Opcode::ROL => match mode {
            AddressingMode::Accumulator => Some(0x2au8),
            AddressingMode::ZeroPage => Some(0x26u8),
            AddressingMode::ZeroPageX => Some(0x36u8),
            AddressingMode::Absolute => Some(0x2eu8),
            AddressingMode::AbsoluteX => Some(0x3eu8),
            _ => None,
        },
        Opcode::ROR => match mode {
            AddressingMode::Accumulator => Some(0x6au8),
            AddressingMode::ZeroPage => Some(0x66u8),
            AddressingMode::ZeroPageX => Some(0x76u8),
            AddressingMode::Absolute => Some(0x6eu8),
            AddressingMode::AbsoluteX => Some(0x7eu8),
            _ => None,
        },
        Opcode::INC => match mode {
            AddressingMode::ZeroPage => Some(0xe6u8),
            AddressingMode::ZeroPageX => Some(0xf6u8),
            AddressingMode::Absolute => Some(0xeeu8),
            AddressingMode::AbsoluteX => Some(0xfeu8),
            _ => None,
        },
        Opcode::INX => match mode {
            AddressingMode::Implied => Some(0xe8u8),
            _ => None,
        },
        Opcode::INY => match mode {
            AddressingMode::Implied => Some(0xc8u8),
            _ => None,
        },
        Opcode::DEC => match mode {
            AddressingMode::ZeroPage => Some(0xc6u8),
            AddressingMode::ZeroPageX => Some(0xd6u8),
            AddressingMode::Absolute => Some(0xceu8),
            AddressingMode::AbsoluteX => Some(0xdeu8),
            _ => None,
        },
        Opcode::DEX => match mode {
            AddressingMode::Implied => Some(0xcau8),
            _ => None,
        },
        Opcode::DEY => match mode {
            AddressingMode::Implied => Some(0x88u8),
            _ => None,
        },
        Opcode::LDA => match mode {
            AddressingMode::Immediate => Some(0xa9u8),
            AddressingMode::ZeroPage => Some(0xa5u8),
            AddressingMode::ZeroPageX => Some(0xb5u8),
            AddressingMode::Absolute => Some(0xadu8),
            AddressingMode::AbsoluteX => Some(0xbdu8),
            AddressingMode::AbsoluteY => Some(0xb9u8),
            AddressingMode::IndirectX => Some(0xa1u8),
            AddressingMode::IndirectY => Some(0xb1u8),
            _ => None,
        },
        Opcode::LDX => match mode {
            AddressingMode::Immediate => Some(0xa2u8),
            AddressingMode::ZeroPage => Some(0xa6u8),
            AddressingMode::ZeroPageY => Some(0xb6u8),
            AddressingMode::Absolute => Some(0xaeu8),
            AddressingMode::AbsoluteY => Some(0xbeu8),
            _ => None,
        },
        Opcode::LDY => match mode {
            AddressingMode::Immediate => Some(0xa0u8),
            AddressingMode::ZeroPage => Some(0xa4u8),
            AddressingMode::ZeroPageX => Some(0xb4u8),
            AddressingMode::Absolute => Some(0xacu8),
            AddressingMode::AbsoluteX => Some(0xbcu8),
            _ => None,
        },
        Opcode::STA => match mode {
            AddressingMode::ZeroPage => Some(0x85u8),
            AddressingMode::ZeroPageX => Some(0x95u8),
            AddressingMode::Absolute => Some(0x8du8),
            AddressingMode::AbsoluteX => Some(0x9du8),
            AddressingMode::AbsoluteY => Some(0x99u8),
            AddressingMode::IndirectX => Some(0x81u8),
            AddressingMode::IndirectY => Some(0x91u8),
            _ => None,
        },
        Opcode::STX => match mode {
            AddressingMode::ZeroPage => Some(0x86u8),
            AddressingMode::ZeroPageY => Some(0x96u8),
            AddressingMode::Absolute => Some(0x8eu8),
            _ => None,
        },
        Opcode::STY => match mode {
            AddressingMode::ZeroPage => Some(0x84u8),
            AddressingMode::ZeroPageX => Some(0x94u8),
            AddressingMode::Absolute => Some(0x8cu8),
            _ => None,
        },
        Opcode::SEC => match mode {
            AddressingMode::Implied => Some(0x38u8),
            _ => None,
        },
        Opcode::SED => match mode {
            AddressingMode::Implied => Some(0xf8u8),
            _ => None,
        },
        Opcode::SEI => match mode {
            AddressingMode::Implied => Some(0x78u8),
            _ => None,
        },
        Opcode::CLC => match mode {
            AddressingMode::Implied => Some(0x18u8),
            _ => None,
        },
        Opcode::CLD => match mode {
            AddressingMode::Implied => Some(0xd8u8),
            _ => None,
        },
        Opcode::CLI => match mode {
            AddressingMode::Implied => Some(0x58u8),
            _ => None,
        },
        Opcode::CLV => match mode {
            AddressingMode::Implied => Some(0xb8u8),
            _ => None,
        },
        Opcode::CMP => match mode {
            AddressingMode::Immediate => Some(0xc9u8),
            AddressingMode::ZeroPage => Some(0xc5u8),
            AddressingMode::ZeroPageX => Some(0xd5u8),
            AddressingMode::Absolute => Some(0xcdu8),
            AddressingMode::AbsoluteX => Some(0xddu8),
            AddressingMode::AbsoluteY => Some(0xd9u8),
            AddressingMode::IndirectX => Some(0xc1u8),
            AddressingMode::IndirectY => Some(0xd1u8),
            _ => None,
        },
        Opcode::CPX => match mode {
            AddressingMode::Immediate => Some(0xe0u8),
            AddressingMode::ZeroPage => Some(0xe4u8),
            AddressingMode::Absolute => Some(0xecu8),
            _ => None,
        },
        Opcode::CPY => match mode {
            AddressingMode::Immediate => Some(0xc0u8),
            AddressingMode::ZeroPage => Some(0xc4u8),
            AddressingMode::Absolute => Some(0xccu8),
            _ => None,
        },
        Opcode::JMP => match mode {
            AddressingMode::Absolute => Some(0x4cu8),
            AddressingMode::Indirect => Some(0x6cu8),
            _ => None,
        },
        Opcode::JSR => match mode {
            AddressingMode::Absolute => Some(0x20u8),
            _ => None,
        },
        Opcode::RTI => match mode {
            AddressingMode::Implied => Some(0x40u8),
            _ => None,
        },
        Opcode::RTS => match mode {
            AddressingMode::Implied => Some(0x60u8),
            _ => None,
        },
        Opcode::BCC => match mode {
            AddressingMode::Relative => Some(0x90u8),
            _ => None,
        },
        Opcode::BCS => match mode {
            AddressingMode::Relative => Some(0xb0u8),
            _ => None,
        },
        Opcode::BEQ => match mode {
            AddressingMode::Relative => Some(0xf0u8),
            _ => None,
        },
        Opcode::BMI => match mode {
            AddressingMode::Relative => Some(0x30u8),
            _ => None,
        },
        Opcode::BNE => match mode {
            AddressingMode::Relative => Some(0xd0u8),
            _ => None,
        },
        Opcode::BPL => match mode {
            AddressingMode::Relative => Some(0x10u8),
            _ => None,
        },
        Opcode::BVC => match mode {
            AddressingMode::Relative => Some(0x50u8),
            _ => None,
        },
        Opcode::BVS => match mode {
            AddressingMode::Relative => Some(0x70u8),
            _ => None,
        },
        Opcode::PHA => match mode {
            AddressingMode::Implied => Some(0x48u8),
            _ => None,
        },
        Opcode::PHP => match mode {
            AddressingMode::Implied => Some(0x08u8),
            _ => None,
        },
        Opcode::PLA => match mode {
            AddressingMode::Implied => Some(0x68u8),
            _ => None,
        },
        Opcode::PLP => match mode {
            AddressingMode::Implied => Some(0x28u8),
            _ => None,
        },
        Opcode::TAX => match mode {
            AddressingMode::Implied => Some(0xaau8),
            _ => None,
        },
        Opcode::TAY => match mode {
            AddressingMode::Implied => Some(0xa8u8),
            _ => None,
        },
        Opcode::TSX => match mode {
            AddressingMode::Implied => Some(0xbau8),
            _ => None,
        },
        Opcode::TXA => match mode {
            AddressingMode::Implied => Some(0x8au8),
            _ => None,
        },
        Opcode::TXS => match mode {
            AddressingMode::Implied => Some(0x9au8),
            _ => None,
        },
        Opcode::TYA => match mode {
            AddressingMode::Implied => Some(0x98u8),
            _ => None,
        },
        Opcode::BRK => match mode {
            AddressingMode::Implied => Some(0x00u8),
            _ => None,
        },
        Opcode::BIT => match mode {
            AddressingMode::ZeroPage => Some(0x24u8),
            AddressingMode::Absolute => Some(0x2cu8),
            _ => None,
        },
        Opcode::NOP => match mode {
            AddressingMode::Implied => Some(0xeau8),
            _ => None,
        },
        Opcode::Unmapped => None,
    }
}

/// Some operation and mode are encoded by `code`.
pub open spec fn is_assigned(code: u8) -> bool {
    exists|op: Opcode, mode: AddressingMode| opcode_byte(op, mode) == Some(code)
}

/// What `Instruction::from` returns for a byte that encodes nothing.
pub open spec fn unmapped_instruction() -> Instruction {
    Instruction(Opcode::Unmapped, AddressingMode::Implied)
}

/// The instruction that `code` encodes: the pair whose byte it is, or the
/// placeholder where there is none.
pub open spec fn decode(code: u8) -> Instruction {
    if is_assigned(code) {
        let (op, mode) = choose|op: Opcode, mode: AddressingMode|
            opcode_byte(op, mode) == Some(code);
        Instruction(op, mode)
    } else {
        unmapped_instruction()
    }
}

/// No two pairs share a byte.
#[verifier::rlimit(50)]
pub proof fn lemma_opcode_byte_injective(
    op1: Opcode,
    mode1: AddressingMode,
    op2: Opcode,
    mode2: AddressingMode,
)
    requires
        opcode_byte(op1, mode1).is_some(),
        opcode_byte(op1, mode1) == opcode_byte(op2, mode2),
    ensures
        op1 == op2,
        mode1 == mode2,
{
}

/// A byte that encodes a pair decodes to that pair, and to no other.
pub proof fn lemma_decode_of_encoding(op: Opcode, mode: AddressingMode, code: u8)
    requires
        opcode_byte(op, mode) == Some(code),
    ensures
        decode(code) == Instruction(op, mode),
{
    let (op2, mode2) = choose|op2: Opcode, mode2: AddressingMode|
        opcode_byte(op2, mode2) == Some(code);
    lemma_opcode_byte_injective(op, mode, op2, mode2);
}

/// A byte decodes to the placeholder exactly where it encodes nothing, and
/// otherwise to a pair that it encodes.
pub proof fn lemma_decode_unmapped(code: u8)
    ensures
        decode(code).0 == Opcode::Unmapped <==> !is_assigned(code),
        !is_assigned(code) ==> decode(code) == unmapped_instruction(),
        is_assigned(code) ==> opcode_byte(decode(code).0, decode(code).1) == Some(code),
{
}

impl Instruction {
    /// Decodes one byte. Every byte decodes; one that encodes no operation
    /// gives the placeholder, which no assigned byte gives.
    #[verifier::rlimit(50)]
    pub fn from(code: u8) -> (inst: Instruction)
        ensures
            inst == decode(code),
    {
        let inst = match code {
            0x69 => Instruction(Opcode::ADC, AddressingMode::Immediate),
            0x65 => Instruction(Opcode::ADC, AddressingMode::ZeroPage),
            0x75 => Instruction(Opcode::ADC, AddressingMode::ZeroPageX),
            0x6d => Instruction(Opcode::ADC, AddressingMode::Absolute),
            0x7d => Instruction(Opcode::ADC, AddressingMode::AbsoluteX),
            0x79 => Instruction(Opcode::ADC, AddressingMode::AbsoluteY),
            0x61 => Instruction(Opcode::ADC, AddressingMode::IndirectX),
            0x71 => Instruction(Opcode::ADC, AddressingMode::IndirectY),
            0xe9 => Instruction(Opcode::SBC, AddressingMode::Immediate),
            0xe5 => Instruction(Opcode::SBC, AddressingMode::ZeroPage),
            0xf5 => Instruction(Opcode::SBC, AddressingMode::ZeroPageX),
            0xed => Instruction(Opcode::SBC, AddressingMode::Absolute),
            0xfd => Instruction(Opcode::SBC, AddressingMode::AbsoluteX),
            0xf9 => Instruction(Opcode::SBC, AddressingMode::AbsoluteY),
            0xe1 => Instruction(Opcode::SBC, AddressingMode::IndirectX),
            0xf1 => Instruction(Opcode::SBC, AddressingMode::IndirectY),
            0x29 => Instruction(Opcode::AND, AddressingMode::Immediate),
            0x25 => Instruction(Opcode::AND, AddressingMode::ZeroPage),
            0x35 => Instruction(Opcode::AND, AddressingMode::ZeroPageX),
            0x2d => Instruction(Opcode::AND, AddressingMode::Absolute),
            0x3d => Instruction(Opcode::AND, AddressingMode::AbsoluteX),
            0x39 => Instruction(Opcode::AND, AddressingMode::AbsoluteY),
            0x21 => Instruction(Opcode::AND, AddressingMode::IndirectX),
            0x31 => Instruction(Opcode::AND, AddressingMode::IndirectY),
            0x49 => Instruction(Opcode::EOR, AddressingMode::Immediate),
            0x45 => Instruction(Opcode::EOR, AddressingMode::ZeroPage),
            0x55 => Instruction(Opcode::EOR, AddressingMode::ZeroPageX),
            0x4d => Instruction(Opcode::EOR, AddressingMode::Absolute),
            0x5d => Instruction(Opcode::EOR, AddressingMode::AbsoluteX),
            0x59 => Instruction(Opcode::EOR, AddressingMode::AbsoluteY),
            0x41 => Instruction(Opcode::EOR, AddressingMode::IndirectX),
            0x51 => Instruction(Opcode::EOR, AddressingMode::IndirectY),
            0x09 => Instruction(Opcode::ORA, AddressingMode::Immediate),
            0x05 => Instruction(Opcode::ORA, AddressingMode::ZeroPage),
            0x15 => Instruction(Opcode::ORA, AddressingMode::ZeroPageX),
            0x0d => Instruction(Opcode::ORA, AddressingMode::Absolute),
            0x1d => Instruction(Opcode::ORA, AddressingMode::AbsoluteX),
            0x19 => Instruction(Opcode::ORA, AddressingMode::AbsoluteY),
            0x01 => Instruction(Opcode::ORA, AddressingMode::IndirectX),
            0x11 => Instruction(Opcode::ORA, AddressingMode::IndirectY),
            0x0a => Instruction(Opcode::ASL, AddressingMode::Accumulator),
            0x06 => Instruction(Opcode::ASL, AddressingMode::ZeroPage),
            0x16 => Instruction(Opcode::ASL, AddressingMode::ZeroPageX),
            0x0e => Instruction(Opcode::ASL, AddressingMode::Absolute),
            0x1e => Instruction(Opcode::ASL, AddressingMode::AbsoluteX),
            0x4a => Instruction(Opcode::LSR, AddressingMode::Accumulator),
            0x46 => Instruction(Opcode::LSR, AddressingMode::ZeroPage),
            0x56 => Instruction(Opcode::LSR, AddressingMode::ZeroPageX),
            0x4e => Instruction(Opcode::LSR, AddressingMode::Absolute),
            0x5e => Instruction(Opcode::LSR, AddressingMode::AbsoluteX),
            0x2a => Instruction(Opcode::ROL, AddressingMode::Accumulator),
            0x26 => Instruction(Opcode::ROL, AddressingMode::ZeroPage),
            0x36 => Instruction(Opcode::ROL, AddressingMode::ZeroPageX),
            0x2e => Instruction(Opcode::ROL, AddressingMode::Absolute),
            0x3e => Instruction(Opcode::ROL, AddressingMode::AbsoluteX),
            0x6a => Instruction(Opcode::ROR, AddressingMode::Accumulator),
            0x66 => Instruction(Opcode::ROR, AddressingMode::ZeroPage),
            0x76 => Instruction(Opcode::ROR, AddressingMode::ZeroPageX),
            0x6e => Instruction(Opcode::ROR, AddressingMode::Absolute),
            0x7e => Instruction(Opcode::ROR, AddressingMode::AbsoluteX),
            0xe6 => Instruction(Opcode::INC, AddressingMode::ZeroPage),
            0xf6 => Instruction(Opcode::INC, AddressingMode::ZeroPageX),
            0xee => Instruction(Opcode::INC, AddressingMode::Absolute),
            0xfe => Instruction(Opcode::INC, AddressingMode::AbsoluteX),
            0xe8 => Instruction(Opcode::INX, AddressingMode::Implied),
            0xc8 => Instruction(Opcode::INY, AddressingMode::Implied),
            0xc6 => Instruction(Opcode::DEC, AddressingMode::ZeroPage),
            0xd6 => Instruction(Opcode::DEC, AddressingMode::ZeroPageX),
            0xce => Instruction(Opcode::DEC, AddressingMode::Absolute),
            0xde => Instruction(Opcode::DEC, AddressingMode::AbsoluteX),
            0xca => Instruction(Opcode::DEX, AddressingMode::Implied),
            0x88 => Instruction(Opcode::DEY, AddressingMode::Implied),
            0xa9 => Instruction(Opcode::LDA, AddressingMode::Immediate),
            0xa5 => Instruction(Opcode::LDA, AddressingMode::ZeroPage),
            0xb5 => Instruction(Opcode::LDA, AddressingMode::ZeroPageX),
            0xad => Instruction(Opcode::LDA, AddressingMode::Absolute),
            0xbd => Instruction(Opcode::LDA, AddressingMode::AbsoluteX),
            0xb9 => Instruction(Opcode::LDA, AddressingMode::AbsoluteY),
            0xa1 => Instruction(Opcode::LDA, AddressingMode::IndirectX),
            0xb1 => Instruction(Opcode::LDA, AddressingMode::IndirectY),
            0xa2 => Instruction(Opcode::LDX, AddressingMode::Immediate),
            0xa6 => Instruction(Opcode::LDX, AddressingMode::ZeroPage),
            0xb6 => Instruction(Opcode::LDX, AddressingMode::ZeroPageY),
            0xae => Instruction(Opcode::LDX, AddressingMode::Absolute),
            0xbe => Instruction(Opcode::LDX, AddressingMode::AbsoluteY),
            0xa0 => Instruction(Opcode::LDY, AddressingMode::Immediate),
            0xa4 => Instruction(Opcode::LDY, AddressingMode::ZeroPage),
            0xb4 => Instruction(Opcode::LDY, AddressingMode::ZeroPageX),
            0xac => Instruction(Opcode::LDY, AddressingMode::Absolute),
            0xbc => Instruction(Opcode::LDY, AddressingMode::AbsoluteX),
            0x85 => Instruction(Opcode::STA, AddressingMode::ZeroPage),
            0x95 => Instruction(Opcode::STA, AddressingMode::ZeroPageX),
            0x8d => Instruction(Opcode::STA, AddressingMode::Absolute),
            0x9d => Instruction(Opcode::STA, AddressingMode::AbsoluteX),
            0x99 => Instruction(Opcode::STA, AddressingMode::AbsoluteY),
            0x81 => Instruction(Opcode::STA, AddressingMode::IndirectX),
            0x91 => Instruction(Opcode::STA, AddressingMode::IndirectY),
            0x86 => Instruction(Opcode::STX, AddressingMode::ZeroPage),
            0x96 => Instruction(Opcode::STX, AddressingMode::ZeroPageY),
            0x8e => Instruction(Opcode::STX, AddressingMode::Absolute),
            0x84 => Instruction(Opcode::STY, AddressingMode::ZeroPage),
            0x94 => Instruction(Opcode::STY, AddressingMode::ZeroPageX),
            0x8c => Instruction(Opcode::STY, AddressingMode::Absolute),
            0x38 => Instruction(Opcode::SEC, AddressingMode::Implied),
            0xf8 => Instruction(Opcode::SED, AddressingMode::Implied),
            0x78 => Instruction(Opcode::SEI, AddressingMode::Implied),
            0x18 => Instruction(Opcode::CLC, AddressingMode::Implied),
            0xd8 => Instruction(Opcode::CLD, AddressingMode::Implied),
            0x58 => Instruction(Opcode::CLI, AddressingMode::Implied),
            0xb8 => Instruction(Opcode::CLV, AddressingMode::Implied),
            0xc9 => Instruction(Opcode::CMP, AddressingMode::Immediate),
            0xc5 => Instruction(Opcode::CMP, AddressingMode::ZeroPage),
            0xd5 => Instruction(Opcode::CMP, AddressingMode::ZeroPageX),
            0xcd => Instruction(Opcode::CMP, AddressingMode::Absolute),
            0xdd => Instruction(Opcode::CMP, AddressingMode::AbsoluteX),
            0xd9 => Instruction(Opcode::CMP, AddressingMode::AbsoluteY),
            0xc1 => Instruction(Opcode::CMP, AddressingMode::IndirectX),
            0xd1 => Instruction(Opcode::CMP, AddressingMode::IndirectY),
            0xe0 => Instruction(Opcode::CPX, AddressingMode::Immediate),
            0xe4 => Instruction(Opcode::CPX, AddressingMode::ZeroPage),
            0xec => Instruction(Opcode::CPX, AddressingMode::Absolute),
            0xc0 => Instruction(Opcode::CPY, AddressingMode::Immediate),
            0xc4 => Instruction(Opcode::CPY, AddressingMode::ZeroPage),
            0xcc => Instruction(Opcode::CPY, AddressingMode::Absolute),
            0x4c => Instruction(Opcode::JMP, AddressingMode::Absolute),
            0x6c => Instruction(Opcode::JMP, AddressingMode::Indirect),
            0x20 => Instruction(Opcode::JSR, AddressingMode::Absolute),
            0x40 => Instruction(Opcode::RTI, AddressingMode::Implied),
            0x60 => Instruction(Opcode::RTS, AddressingMode::Implied),
            0x90 => Instruction(Opcode::BCC, AddressingMode::Relative),
            0xb0 => Instruction(Opcode::BCS, AddressingMode::Relative),
            0xf0 => Instruction(Opcode::BEQ, AddressingMode::Relative),
            0x30 => Instruction(Opcode::BMI, AddressingMode::Relative),
            0xd0 => Instruction(Opcode::BNE, AddressingMode::Relative),
            0x10 => Instruction(Opcode::BPL, AddressingMode::Relative),
            0x50 => Instruction(Opcode::BVC, AddressingMode::Relative),
            0x70 => Instruction(Opcode::BVS, AddressingMode::Relative),
            0x48 => Instruction(Opcode::PHA, AddressingMode::Implied),
            0x08 => Instruction(Opcode::PHP, AddressingMode::Implied),
            0x68 => Instruction(Opcode::PLA, AddressingMode::Implied),
            0x28 => Instruction(Opcode::PLP, AddressingMode::Implied),
            0xaa => Instruction(Opcode::TAX, AddressingMode::Implied),
            0xa8 => Instruction(Opcode::TAY, AddressingMode::Implied),
            0xba => Instruction(Opcode::TSX, AddressingMode::Implied),
            0x8a => Instruction(Opcode::TXA, AddressingMode::Implied),
            0x9a => Instruction(Opcode::TXS, AddressingMode::Implied),
            0x98 => Instruction(Opcode::TYA, AddressingMode::Implied),
            0x00 => Instruction(Opcode::BRK, AddressingMode::Implied),
            0x24 => Instruction(Opcode::BIT, AddressingMode::ZeroPage),
            0x2c => Instruction(Opcode::BIT, AddressingMode::Absolute),
            0xea => Instruction(Opcode::NOP, AddressingMode::Implied),
            _ => Instruction(Opcode::Unmapped, AddressingMode::Implied),
        };
        proof {
            if inst.0 != Opcode::Unmapped {
                assert(opcode_byte(inst.0, inst.1) == Some(code));
                let (op, mode) = choose|op: Opcode, mode: AddressingMode|
                    opcode_byte(op, mode) == Some(code);
                lemma_opcode_byte_injective(inst.0, inst.1, op, mode);
            } else {
                assert forall|op: Opcode, mode: AddressingMode|
                    opcode_byte(op, mode) != Some(code) by {}
            }
        }
        inst
    }
}

} // verus!
