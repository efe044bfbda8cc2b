//! What each operation does to the registers and the bus, and what it costs.
use vstd::prelude::*;
use crate::addressing::{advanced, operand_len, operand_value, resolve};
use crate::alu::{
    adc, add_with_carry, bit_test, compare, has_flag, is_flag, lemma_flag_written,
    lemma_zn_written, sbc, set_flag, shift_left, shift_right, shl, shr, sub_with_borrow,
    test_flag, update_zn, with_bit_test, with_comparison, with_flag, with_zn, wrap16, wrap8,
    Shifted, Sum, FLAG_BREAK, FLAG_CARRY, FLAG_DECIMAL, FLAG_INTERRUPT, FLAG_NEGATIVE,
    FLAG_OVERFLOW, FLAG_UNUSED, FLAG_ZERO,
};
use crate::cpu::{
    after_interrupt, after_pop, after_push, pushed_status, top_of_stack, Cpu, Interrupt, Machine,
};
use crate::instruction::{AddressingMode, Opcode};
use crate::system::{bus_write, high_byte, low_byte, make_word, word, System};

verus! {

/// What one instruction leaves behind: the registers, the bus and the
/// cycles it took.
pub struct Outcome {
    pub cpu: Cpu,
    pub mem: Seq<u8>,
    pub cycles: int,
}

/// Cycles of an instruction that reads its operand, before any page-crossing
/// cost.
pub open spec fn read_cycles(mode: AddressingMode) -> int {
    match mode {
        AddressingMode::ZeroPage => 3,
        AddressingMode::ZeroPageX
        | AddressingMode::ZeroPageY
        | AddressingMode::Absolute
        | AddressingMode::AbsoluteX
        | AddressingMode::AbsoluteY => 4,
        AddressingMode::IndirectX => 6,
        AddressingMode::IndirectY => 5,
        _ => 2,
    }
}

/// Cycles of a store. Crossing a page adds nothing.
pub open spec fn store_cycles(mode: AddressingMode) -> int {
    match mode {
        AddressingMode::ZeroPage => 3,
        AddressingMode::ZeroPageX | AddressingMode::ZeroPageY | AddressingMode::Absolute => 4,
        AddressingMode::AbsoluteX | AddressingMode::AbsoluteY => 5,
        AddressingMode::IndirectX | AddressingMode::IndirectY => 6,
        _ => 2,
    }
}

/// Cycles of an instruction that reads a byte, changes it and writes it back.
pub open spec fn modify_cycles(mode: AddressingMode) -> int {
    match mode {
        AddressingMode::ZeroPage => 5,
        AddressingMode::ZeroPageX | AddressingMode::ZeroPageY | AddressingMode::Absolute => 6,
        AddressingMode::AbsoluteX | AddressingMode::AbsoluteY => 7,
        AddressingMode::IndirectX | AddressingMode::IndirectY => 8,
        _ => 2,
    }
}

/// `p` with Carry, Overflow, Zero and Negative taken from a sum.
pub open spec fn with_sum(p: u8, sum: Sum) -> u8 {
    with_zn(
        with_flag(with_flag(p, FLAG_CARRY, sum.carry), FLAG_OVERFLOW, sum.overflow),
        sum.value,
    )
}

/// After a sum was recorded, Carry and Overflow are those of the sum, Zero
/// and Negative describe its byte, and the other flags are as they were.
pub proof fn lemma_sum_written(p: u8, sum: Sum, other: u8)
    requires
        is_flag(other),
    ensures
        has_flag(with_sum(p, sum), other) == if other == FLAG_CARRY {
            sum.carry
        } else if other == FLAG_OVERFLOW {
            sum.overflow
        } else if other == FLAG_ZERO {
            sum.value == 0
        } else if other == FLAG_NEGATIVE {
            sum.value >= 0x80
        } else {
            has_flag(p, other)
        },
{
    let carried = with_flag(p, FLAG_CARRY, sum.carry);
    let overflowed = with_flag(carried, FLAG_OVERFLOW, sum.overflow);
    lemma_flag_written(p, FLAG_CARRY, sum.carry, other);
    lemma_flag_written(carried, FLAG_OVERFLOW, sum.overflow, other);
    lemma_zn_written(overflowed, sum.value, other);
}

/// The registers after an operation that reads `value`: arithmetic and logic
/// on the accumulator, loads, comparisons and the bit test.
pub open spec fn after_read(op: Opcode, cpu: Cpu, value: u8) -> Cpu {
    match op {
        Opcode::ADC => {
            let sum = add_with_carry(cpu.a, value, has_flag(cpu.p, FLAG_CARRY));
            Cpu { a: sum.value, p: with_sum(cpu.p, sum), ..cpu }
        },
        Opcode::SBC => {
            let sum = sub_with_borrow(cpu.a, value, has_flag(cpu.p, FLAG_CARRY));
            Cpu { a: sum.value, p: with_sum(cpu.p, sum), ..cpu }
        },
        Opcode::AND => Cpu { a: cpu.a & value, p: with_zn(cpu.p, cpu.a & value), ..cpu },
        Opcode::EOR => Cpu { a: cpu.a ^ value, p: with_zn(cpu.p, cpu.a ^ value), ..cpu },
        Opcode::ORA => Cpu { a: cpu.a | value, p: with_zn(cpu.p, cpu.a | value), ..cpu },
        Opcode::LDA => Cpu { a: value, p: with_zn(cpu.p, value), ..cpu },
        Opcode::LDX => Cpu { x: value, p: with_zn(cpu.p, value), ..cpu },
        Opcode::LDY => Cpu { y: value, p: with_zn(cpu.p, value), ..cpu },
        Opcode::CMP => Cpu { p: with_comparison(cpu.p, cpu.a, value), ..cpu },
        Opcode::CPX => Cpu { p: with_comparison(cpu.p, cpu.x, value), ..cpu },
        Opcode::CPY => Cpu { p: with_comparison(cpu.p, cpu.y, value), ..cpu },
        Opcode::BIT => Cpu { p: with_bit_test(cpu.p, cpu.a, value), ..cpu },
        _ => cpu,
    }
}

/// An instruction that reads its operand. It costs one cycle more where
/// reaching the operand crossed a page.
pub open spec fn executed_read(op: Opcode, mode: AddressingMode, cpu: Cpu, mem: Seq<u8>)
    -> Outcome {
    Outcome {
        cpu: after_read(op, advanced(cpu, operand_len(mode)), operand_value(mode, cpu, mem)),
        mem,
        cycles: read_cycles(mode) + resolve(mode, cpu, mem).1,
    }
}

/// The register that a store writes.
pub open spec fn stored_value(op: Opcode, cpu: Cpu) -> u8 {
    match op {
        Opcode::STA => cpu.a,
        Opcode::STX => cpu.x,
        _ => cpu.y,
    }
}

/// A store: the register goes to the operand's address and no flag changes.
pub open spec fn executed_store(op: Opcode, mode: AddressingMode, cpu: Cpu, mem: Seq<u8>)
    -> Outcome {
    Outcome {
        cpu: advanced(cpu, operand_len(mode)),
        mem: bus_write(mem, resolve(mode, cpu, mem).0, stored_value(op, cpu)),
        cycles: store_cycles(mode),
    }
}

/// Whether `op` counts a byte up or down rather than shifting it.
pub open spec fn counts(op: Opcode) -> bool {
    op == Opcode::INC || op == Opcode::DEC
}

/// The byte that a shift, a rotation or a count makes of `value`, and the
/// bit that left it. A count leaves the carry as it was.
pub open spec fn modified(op: Opcode, value: u8, carry: bool) -> Shifted {
    match op {
        Opcode::ASL => shift_left(value, false),
        Opcode::LSR => shift_right(value, false),
        Opcode::ROL => shift_left(value, carry),
        Opcode::ROR => shift_right(value, carry),
        Opcode::INC => Shifted { value: wrap8(value + 1), carry },
        _ => Shifted { value: wrap8(value - 1), carry },
    }
}

/// The status register after `op` made `result`: Zero and Negative from the
/// new byte, and for a shift or a rotation Carry from the bit that left.
pub open spec fn modified_status(op: Opcode, p: u8, result: Shifted) -> u8 {
    if counts(op) {
        with_zn(p, result.value)
    } else {
        with_zn(with_flag(p, FLAG_CARRY, result.carry), result.value)
    }
}

/// A shift, a rotation or a count, on the accumulator or on memory.
pub open spec fn executed_modify(op: Opcode, mode: AddressingMode, cpu: Cpu, mem: Seq<u8>)
    -> Outcome {
    let result = modified(op, operand_value(mode, cpu, mem), has_flag(cpu.p, FLAG_CARRY));
    let p = modified_status(op, cpu.p, result);
    let next = advanced(cpu, operand_len(mode));
    if mode == AddressingMode::Accumulator {
        Outcome { cpu: Cpu { a: result.value, p, ..next }, mem, cycles: modify_cycles(mode) }
    } else {
        Outcome {
            cpu: Cpu { p, ..next },
            mem: bus_write(mem, resolve(mode, cpu, mem).0, result.value),
            cycles: modify_cycles(mode),
        }
    }
}

/// The registers after an operation that touches nothing but registers:
/// counts on X and Y, flag changes, transfers, and the operations without
/// effect.
pub open spec fn after_register_op(op: Opcode, cpu: Cpu) -> Cpu {
    match op {
        Opcode::INX => Cpu { x: wrap8(cpu.x + 1), p: with_zn(cpu.p, wrap8(cpu.x + 1)), ..cpu },
        Opcode::INY => Cpu { y: wrap8(cpu.y + 1), p: with_zn(cpu.p, wrap8(cpu.y + 1)), ..cpu },
        Opcode::DEX => Cpu { x: wrap8(cpu.x - 1), p: with_zn(cpu.p, wrap8(cpu.x - 1)), ..cpu },
        Opcode::DEY => Cpu { y: wrap8(cpu.y - 1), p: with_zn(cpu.p, wrap8(cpu.y - 1)), ..cpu },
        Opcode::SEC => Cpu { p: with_flag(cpu.p, FLAG_CARRY, true), ..cpu },
        Opcode::SED => Cpu { p: with_flag(cpu.p, FLAG_DECIMAL, true), ..cpu },
        Opcode::SEI => Cpu { p: with_flag(cpu.p, FLAG_INTERRUPT, true), ..cpu },
        Opcode::CLC => Cpu { p: with_flag(cpu.p, FLAG_CARRY, false), ..cpu },
        Opcode::CLD => Cpu { p: with_flag(cpu.p, FLAG_DECIMAL, false), ..cpu },
        Opcode::CLI => Cpu { p: with_flag(cpu.p, FLAG_INTERRUPT, false), ..cpu },
        Opcode::CLV => Cpu { p: with_flag(cpu.p, FLAG_OVERFLOW, false), ..cpu },
        Opcode::TAX => Cpu { x: cpu.a, p: with_zn(cpu.p, cpu.a), ..cpu },
        Opcode::TAY => Cpu { y: cpu.a, p: with_zn(cpu.p, cpu.a), ..cpu },
        Opcode::TSX => Cpu { x: cpu.s, p: with_zn(cpu.p, cpu.s), ..cpu },
        Opcode::TXA => Cpu { a: cpu.x, p: with_zn(cpu.p, cpu.x), ..cpu },
        Opcode::TXS => Cpu { s: cpu.x, ..cpu },
        Opcode::TYA => Cpu { a: cpu.y, p: with_zn(cpu.p, cpu.y), ..cpu },
        _ => cpu,
    }
}

/// An operation on registers alone. The placeholder for an unmapped byte
/// takes one cycle and changes nothing; every other takes two.
pub open spec fn executed_register(op: Opcode, mode: AddressingMode, cpu: Cpu, mem: Seq<u8>)
    -> Outcome {
    Outcome {
        cpu: after_register_op(op, advanced(cpu, operand_len(mode))),
        mem,
        cycles: if op == Opcode::Unmapped {
            1
        } else {
            2
        },
    }
}

/// A push or a pop of the accumulator or the status register.
pub open spec fn executed_stack(op: Opcode, mode: AddressingMode, cpu: Cpu, mem: Seq<u8>)
    -> Outcome {
    let m = Machine { cpu: advanced(cpu, operand_len(mode)), mem };
    match op {
        Opcode::PHA => {
            let pushed = after_push(m, cpu.a);
            Outcome { cpu: pushed.cpu, mem: pushed.mem, cycles: 3 }
        },
        Opcode::PHP => {
            let pushed = after_push(m, pushed_status(cpu.p, true));
            Outcome { cpu: pushed.cpu, mem: pushed.mem, cycles: 3 }
        },
        Opcode::PLA => {
            let value = top_of_stack(m);
            Outcome {
                cpu: Cpu { a: value, p: with_zn(cpu.p, value), ..after_pop(m).cpu },
                mem,
                cycles: 4,
            }
        },
        _ => Outcome { cpu: Cpu { p: top_of_stack(m), ..after_pop(m).cpu }, mem, cycles: 4 },
    }
}

/// A call to `target`: the address of the last byte of the calling
/// instruction goes onto the stack, high byte first.
pub open spec fn after_call(m: Machine, target: u16) -> Machine {
    let last = wrap16(m.cpu.pc - 1);
    let m1 = after_push(m, (last / 256) as u8);
    let m2 = after_push(m1, (last % 256) as u8);
    Machine { cpu: Cpu { pc: target, ..m2.cpu }, mem: m2.mem }
}

/// A return from a call: the address comes off the stack, low byte first,
/// and execution goes on one byte behind it.
pub open spec fn after_return(m: Machine) -> Cpu {
    let lo = top_of_stack(m);
    let m1 = after_pop(m);
    let hi = top_of_stack(m1);
    let m2 = after_pop(m1);
    Cpu { pc: wrap16(word(lo, hi) + 1), ..m2.cpu }
}

/// A return from an interrupt: the status register comes off the stack as
/// it was stored, then the address, low byte first.
pub open spec fn after_interrupt_return(m: Machine) -> Cpu {
    let p = top_of_stack(m);
    let m1 = after_pop(m);
    let lo = top_of_stack(m1);
    let m2 = after_pop(m1);
    let hi = top_of_stack(m2);
    let m3 = after_pop(m2);
    Cpu { pc: word(lo, hi), p, ..m3.cpu }
}

/// A jump, a call or a return.
pub open spec fn executed_jump(op: Opcode, mode: AddressingMode, cpu: Cpu, mem: Seq<u8>)
    -> Outcome {
    let m = Machine { cpu: advanced(cpu, operand_len(mode)), mem };
    let target = resolve(mode, cpu, mem).0;
    match op {
        Opcode::JMP => Outcome {
            cpu: Cpu { pc: target, ..m.cpu },
            mem,
            cycles: if mode == AddressingMode::Indirect {
                5
            } else {
                3
            },
        },
        Opcode::JSR => {
            let called = after_call(m, target);
            Outcome { cpu: called.cpu, mem: called.mem, cycles: 6 }
        },
        Opcode::RTS => Outcome { cpu: after_return(m), mem, cycles: 6 },
        _ => Outcome { cpu: after_interrupt_return(m), mem, cycles: 6 },
    }
}

/// Whether the branch `op` is taken under status `p`.
pub open spec fn branch_taken(op: Opcode, p: u8) -> bool {
    match op {
        Opcode::BCC => !has_flag(p, FLAG_CARRY),
        Opcode::BCS => has_flag(p, FLAG_CARRY),
        Opcode::BNE => !has_flag(p, FLAG_ZERO),
        Opcode::BEQ => has_flag(p, FLAG_ZERO),
        Opcode::BPL => !has_flag(p, FLAG_NEGATIVE),
        Opcode::BMI => has_flag(p, FLAG_NEGATIVE),
        Opcode::BVC => !has_flag(p, FLAG_OVERFLOW),
        _ => has_flag(p, FLAG_OVERFLOW),
    }
}

/// A branch: two cycles where it falls through; where it is taken, one more,
/// and another where the target lies in another page than the instruction
/// behind the branch.
pub open spec fn executed_branch(op: Opcode, mode: AddressingMode, cpu: Cpu, mem: Seq<u8>)
    -> Outcome {
    let next = advanced(cpu, operand_len(mode));
    let operand = resolve(mode, cpu, mem);
    if branch_taken(op, cpu.p) {
        Outcome { cpu: Cpu { pc: operand.0, ..next }, mem, cycles: 3 + operand.1 }
    } else {
        Outcome { cpu: next, mem, cycles: 2 }
    }
}

/// The software interrupt.
pub open spec fn executed_break(mode: AddressingMode, cpu: Cpu, mem: Seq<u8>) -> Outcome {
    let m = after_interrupt(
        Machine { cpu: advanced(cpu, operand_len(mode)), mem },
        Interrupt::BRK,
    );
    Outcome { cpu: m.cpu, mem: m.mem, cycles: 7 }
}

/// What the instruction `op` in `mode` does to a processor whose program
/// counter stands behind the opcode, on a bus that holds `mem`.
pub open spec fn executed(op: Opcode, mode: AddressingMode, cpu: Cpu, mem: Seq<u8>) -> Outcome {
    match op {
        Opcode::ADC
        | Opcode::SBC
        | Opcode::AND
        | Opcode::EOR
        | Opcode::ORA
        | Opcode::LDA
        | Opcode::LDX
        | Opcode::LDY
        | Opcode::CMP
        | Opcode::CPX
        | Opcode::CPY
        | Opcode::BIT => executed_read(op, mode, cpu, mem),
        Opcode::STA | Opcode::STX | Opcode::STY => executed_store(op, mode, cpu, mem),
        Opcode::ASL
        | Opcode::LSR
        | Opcode::ROL
        | Opcode::ROR
        | Opcode::INC
        | Opcode::DEC => executed_modify(op, mode, cpu, mem),
        Opcode::PHA | Opcode::PHP | Opcode::PLA | Opcode::PLP => executed_stack(
            op,
            mode,
            cpu,
            mem,
        ),
        Opcode::JMP | Opcode::JSR | Opcode::RTS | Opcode::RTI => executed_jump(
            op,
            mode,
            cpu,
            mem,
        ),
        Opcode::BCC
        | Opcode::BCS
        | Opcode::BEQ
        | Opcode::BMI
        | Opcode::BNE
        | Opcode::BPL
        | Opcode::BVC
        | Opcode::BVS => executed_branch(op, mode, cpu, mem),
        Opcode::BRK => executed_break(mode, cpu, mem),
        _ => executed_register(op, mode, cpu, mem),
    }
}

fn read_cost(mode: AddressingMode) -> (cycles: u8)
    ensures
        cycles == read_cycles(mode),
{
    match mode {
        AddressingMode::ZeroPage => 3,
        AddressingMode::ZeroPageX
        | AddressingMode::ZeroPageY
        | AddressingMode::Absolute
        | AddressingMode::AbsoluteX
        | AddressingMode::AbsoluteY => 4,
        AddressingMode::IndirectX => 6,
        AddressingMode::IndirectY => 5,
        _ => 2,
    }
}

fn store_cost(mode: AddressingMode) -> (cycles: u8)
    ensures
        cycles == store_cycles(mode),
{
    match mode {
        AddressingMode::ZeroPage => 3,
        AddressingMode::ZeroPageX | AddressingMode::ZeroPageY | AddressingMode::Absolute => 4,
        AddressingMode::AbsoluteX | AddressingMode::AbsoluteY => 5,
        AddressingMode::IndirectX | AddressingMode::IndirectY => 6,
        _ => 2,
    }
}

fn modify_cost(mode: AddressingMode) -> (cycles: u8)
    ensures
        cycles == modify_cycles(mode),
{
    match mode {
        AddressingMode::ZeroPage => 5,
        AddressingMode::ZeroPageX | AddressingMode::ZeroPageY | AddressingMode::Absolute => 6,
        AddressingMode::AbsoluteX | AddressingMode::AbsoluteY => 7,
        AddressingMode::IndirectX | AddressingMode::IndirectY => 8,
        _ => 2,
    }
}

/// Records a sum in the status register.
fn update_sum(p: u8, sum: Sum) -> (q: u8)
    ensures
        q == with_sum(p, sum),
{
    update_zn(set_flag(set_flag(p, FLAG_CARRY, sum.carry), FLAG_OVERFLOW, sum.overflow), sum.value)
}

impl Cpu {
    #[verifier::rlimit(50)]
    fn execute_read(&mut self, system: &System, op: Opcode, mode: AddressingMode) -> (cycles: u8)
        ensures
            *final(self) == executed_read(op, mode, *old(self), system@).cpu,
            cycles == executed_read(op, mode, *old(self), system@).cycles,
    {
        let (operand, value) = self.fetch_args(system, mode);
        match op {
            Opcode::ADC => {
                let sum = adc(self.a, value, self.read_carry_flag());
                self.a = sum.value;
                self.p = update_sum(self.p, sum);
            },
            Opcode::SBC => {
                let sum = sbc(self.a, value, self.read_carry_flag());
                self.a = sum.value;
                self.p = update_sum(self.p, sum);
            },
            Opcode::AND => {
                self.a = self.a & value;
                self.p = update_zn(self.p, self.a);
            },
            Opcode::EOR => {
                self.a = self.a ^ value;
                self.p = update_zn(self.p, self.a);
            },
            Opcode::ORA => {
                self.a = self.a | value;
                self.p = update_zn(self.p, self.a);
            },
            Opcode::LDA => {
                self.a = value;
                self.p = update_zn(self.p, value);
            },
            Opcode::LDX => {
                self.x = value;
                self.p = update_zn(self.p, value);
            },
            Opcode::LDY => {
                self.y = value;
                self.p = update_zn(self.p, value);
            },
            Opcode::CMP => {
                self.p = compare(self.p, self.a, value);
            },
            Opcode::CPX => {
                self.p = compare(self.p, self.x, value);
            },
            Opcode::CPY => {
                self.p = compare(self.p, self.y, value);
            },
            Opcode::BIT => {
                self.p = bit_test(self.p, self.a, value);
            },
            _ => {},
        }
        read_cost(mode) + operand.1
    }

    #[verifier::rlimit(50)]
    fn execute_store(&mut self, system: &mut System, op: Opcode, mode: AddressingMode) -> (cycles:
        u8)
        ensures
            *final(self) == executed_store(op, mode, *old(self), old(system)@).cpu,
            final(system)@ == executed_store(op, mode, *old(self), old(system)@).mem,
            cycles == executed_store(op, mode, *old(self), old(system)@).cycles,
            final(system).same_devices(*old(system)),
    {
        let operand = self.fetch_operand(system, mode);
        let value = match op {
            Opcode::STA => self.a,
            Opcode::STX => self.x,
            _ => self.y,
        };
        system.write_u8(operand.0, value, false);
        store_cost(mode)
    }

    #[verifier::rlimit(50)]
    fn execute_modify(&mut self, system: &mut System, op: Opcode, mode: AddressingMode) -> (cycles:
        u8)
        ensures
            *final(self) == executed_modify(op, mode, *old(self), old(system)@).cpu,
            final(system)@ == executed_modify(op, mode, *old(self), old(system)@).mem,
            cycles == executed_modify(op, mode, *old(self), old(system)@).cycles,
            final(system).same_devices(*old(system)),
    {
        let (operand, value) = self.fetch_args(system, mode);
        let carry = self.read_carry_flag();
        let result = match op {
            Opcode::ASL => shl(value, false),
            Opcode::LSR => shr(value, false),
            Opcode::ROL => shl(value, carry),
            Opcode::ROR => shr(value, carry),
            Opcode::INC => Shifted { value: value.wrapping_add(1), carry },
            _ => Shifted { value: value.wrapping_sub(1), carry },
        };
        match op {
            Opcode::INC | Opcode::DEC => {
                self.p = update_zn(self.p, result.value);
            },
            _ => {
                self.p = update_zn(set_flag(self.p, FLAG_CARRY, result.carry), result.value);
            },
        }
        match mode {
            AddressingMode::Accumulator => {
                self.a = result.value;
            },
            _ => {
                system.write_u8(operand.0, result.value, false);
            },
        }
        modify_cost(mode)
    }

    #[verifier::rlimit(50)]
    fn execute_register(&mut self, system: &System, op: Opcode, mode: AddressingMode) -> (cycles:
        u8)
        ensures
            *final(self) == executed_register(op, mode, *old(self), system@).cpu,
            cycles == executed_register(op, mode, *old(self), system@).cycles,
    {
        let _ = self.fetch_operand(system, mode);
        self.apply_register_op(op);
        match op {
            Opcode::Unmapped => 1,
            _ => 2,
        }
    }

    #[verifier::rlimit(50)]
    fn apply_register_op(&mut self, op: Opcode)
        ensures
            *final(self) == after_register_op(op, *old(self)),
    {
        match op {
            Opcode::INX => {
                self.x = self.x.wrapping_add(1);
                self.p = update_zn(self.p, self.x);
            },
            Opcode::INY => {
                self.y = self.y.wrapping_add(1);
                self.p = update_zn(self.p, self.y);
            },
            Opcode::DEX => {
                self.x = self.x.wrapping_sub(1);
                self.p = update_zn(self.p, self.x);
            },
            Opcode::DEY => {
                self.y = self.y.wrapping_sub(1);
                self.p = update_zn(self.p, self.y);
            },
            Opcode::SEC => {
                self.p = set_flag(self.p, FLAG_CARRY, true);
            },
            Opcode::SED => {
                self.p = set_flag(self.p, FLAG_DECIMAL, true);
            },
            Opcode::SEI => {
                self.p = set_flag(self.p, FLAG_INTERRUPT, true);
            },
            Opcode::CLC => {
                self.p = set_flag(self.p, FLAG_CARRY, false);
            },
            Opcode::CLD => {
                self.p = set_flag(self.p, FLAG_DECIMAL, false);
            },
            Opcode::CLI => {
                self.p = set_flag(self.p, FLAG_INTERRUPT, false);
            },
            Opcode::CLV => {
                self.p = set_flag(self.p, FLAG_OVERFLOW, false);
            },
            Opcode::TAX => {
                self.x = self.a;
                self.p = update_zn(self.p, self.x);
            },
            Opcode::TAY => {
                self.y = self.a;
                self.p = update_zn(self.p, self.y);
            },
            Opcode::TSX => {
                self.x = self.s;
                self.p = update_zn(self.p, self.x);
            },
            Opcode::TXA => {
                self.a = self.x;
                self.p = update_zn(self.p, self.a);
            },
            Opcode::TXS => {
                self.s = self.x;
            },
            Opcode::TYA => {
                self.a = self.y;
                self.p = update_zn(self.p, self.a);
            },
            _ => {},
        }
    }

    #[verifier::rlimit(50)]
    fn execute_stack(&mut self, system: &mut System, op: Opcode, mode: AddressingMode) -> (cycles:
        u8)
        ensures
            *final(self) == executed_stack(op, mode, *old(self), old(system)@).cpu,
            final(system)@ == executed_stack(op, mode, *old(self), old(system)@).mem,
            cycles == executed_stack(op, mode, *old(self), old(system)@).cycles,
            final(system).same_devices(*old(system)),
    {
        let _ = self.fetch_operand(system, mode);
        match op {
            Opcode::PHA => {
                self.stack_push(system, self.a);
                3
            },
            Opcode::PHP => {
                let status = set_flag(self.p | FLAG_UNUSED, FLAG_BREAK, true);
                self.stack_push(system, status);
                3
            },
            Opcode::PLA => {
                self.a = self.stack_pop(system);
                self.p = update_zn(self.p, self.a);
                4
            },
            _ => {
                self.p = self.stack_pop(system);
                4
            },
        }
    }

    #[verifier::rlimit(50)]
    fn call(&mut self, system: &mut System, target: u16)
        ensures
            (Machine { cpu: *final(self), mem: final(system)@ }) == after_call(
                Machine { cpu: *old(self), mem: old(system)@ },
                target,
            ),
            final(system).same_devices(*old(system)),
    {
        let last = self.pc.wrapping_sub(1);
        self.stack_push(system, high_byte(last));
        self.stack_push(system, low_byte(last));
        self.pc = target;
    }

    #[verifier::rlimit(50)]
    fn return_from_call(&mut self, system: &System)
        ensures
            *final(self) == after_return(Machine { cpu: *old(self), mem: system@ }),
    {
        let lo = self.stack_pop(system);
        let hi = self.stack_pop(system);
        self.pc = make_word(lo, hi).wrapping_add(1);
    }

    #[verifier::rlimit(50)]
    fn return_from_interrupt(&mut self, system: &System)
        ensures
            *final(self) == after_interrupt_return(Machine { cpu: *old(self), mem: system@ }),
    {
        self.p = self.stack_pop(system);
        let lo = self.stack_pop(system);
        let hi = self.stack_pop(system);
        self.pc = make_word(lo, hi);
    }

    #[verifier::rlimit(50)]
    fn execute_jump(&mut self, system: &mut System, op: Opcode, mode: AddressingMode) -> (cycles:
        u8)
        ensures
            *final(self) == executed_jump(op, mode, *old(self), old(system)@).cpu,
            final(system)@ == executed_jump(op, mode, *old(self), old(system)@).mem,
            cycles == executed_jump(op, mode, *old(self), old(system)@).cycles,
            final(system).same_devices(*old(system)),
    {
        let operand = self.fetch_operand(system, mode);
        match op {
            Opcode::JMP => {
                self.pc = operand.0;
                match mode {
                    AddressingMode::Indirect => 5,
                    _ => 3,
                }
            },
            Opcode::JSR => {
                self.call(system, operand.0);
                6
            },
            Opcode::RTS => {
                self.return_from_call(system);
                6
            },
            _ => {
                self.return_from_interrupt(system);
                6
            },
        }
    }

    #[verifier::rlimit(50)]
    fn execute_branch(&mut self, system: &System, op: Opcode, mode: AddressingMode) -> (cycles: u8)
        ensures
            *final(self) == executed_branch(op, mode, *old(self), system@).cpu,
            cycles == executed_branch(op, mode, *old(self), system@).cycles,
    {
        let operand = self.fetch_operand(system, mode);
        let taken = match op {
            Opcode::BCC => !test_flag(self.p, FLAG_CARRY),
            Opcode::BCS => test_flag(self.p, FLAG_CARRY),
            Opcode::BNE => !test_flag(self.p, FLAG_ZERO),
            Opcode::BEQ => test_flag(self.p, FLAG_ZERO),
            Opcode::BPL => !test_flag(self.p, FLAG_NEGATIVE),
            Opcode::BMI => test_flag(self.p, FLAG_NEGATIVE),
            Opcode::BVC => !test_flag(self.p, FLAG_OVERFLOW),
            _ => test_flag(self.p, FLAG_OVERFLOW),
        };
        if taken {
            self.pc = operand.0;
            3 + operand.1
        } else {
            2
        }
    }

    /// Carries out the instruction `op` in `mode`, the program counter
    /// standing behind its opcode, and returns the cycles it took.
    #[verifier::rlimit(50)]
    pub fn execute(&mut self, system: &mut System, op: Opcode, mode: AddressingMode) -> (cycles:
        u8)
        ensures
            *final(self) == executed(op, mode, *old(self), old(system)@).cpu,
            final(system)@ == executed(op, mode, *old(self), old(system)@).mem,
            cycles == executed(op, mode, *old(self), old(system)@).cycles,
            final(system).same_devices(*old(system)),
    {
        match op {
            Opcode::ADC
            | Opcode::SBC
            | Opcode::AND
            | Opcode::EOR
            | Opcode::ORA
            | Opcode::LDA
            | Opcode::LDX
            | Opcode::LDY
            | Opcode::CMP
            | Opcode::CPX
            | Opcode::CPY
            | Opcode::BIT => self.execute_read(system, op, mode),
            Opcode::STA | Opcode::STX | Opcode::STY => self.execute_store(system, op, mode),
            Opcode::ASL
            | Opcode::LSR
            | Opcode::ROL
            | Opcode::ROR
            | Opcode::INC
            | Opcode::DEC => self.execute_modify(system, op, mode),
            Opcode::PHA | Opcode::PHP | Opcode::PLA | Opcode::PLP => self.execute_stack(
                system,
                op,
                mode,
            ),
            Opcode::JMP | Opcode::JSR | Opcode::RTS | Opcode::RTI => self.execute_jump(
                system,
                op,
                mode,
            ),
            Opcode::BCC
            | Opcode::BCS
            | Opcode::BEQ
            | Opcode::BMI
            | Opcode::BNE
            | Opcode::BPL
            | Opcode::BVC
            | Opcode::BVS => self.execute_branch(system, op, mode),
            Opcode::BRK => {
                let _ = self.fetch_operand(system, mode);
                self.interrupt(system, Interrupt::BRK);
                7
            },
            _ => self.execute_register(system, op, mode),
        }
    }
}

} // verus!
