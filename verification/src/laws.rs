//! What holds of the processor whatever the program: the cost of crossing a
//! page, the shape of the stack, the order in which an interrupt pushes, and
//! the wrapping of the program counter.
use vstd::prelude::*;
use crate::addressing::{
    advanced, crosses_page, operand_len, operand_value, resolve, zero_page_word,
};
use crate::alu::{
    has_flag, is_flag, lemma_flag_written, lemma_wrap16_sum, lemma_wrap8_apart, lemma_wrap8_sum,
    with_flag, wrap16, wrap8, FLAG_CARRY, FLAG_DECIMAL, FLAG_INTERRUPT, FLAG_OVERFLOW,
};
use crate::cpu::{
    after_interrupt, after_pop, after_push, interrupt_masked, pushed_status, return_address,
    stack_address, top_of_stack, vector_target, Cpu, Interrupt, Machine, STACK_BASE,
};
use crate::execute::{
    after_call, after_interrupt_return, after_read, after_register_op, after_return, executed,
    read_cycles, store_cycles,
};
use crate::instruction::{decode, AddressingMode, Opcode};
use crate::step::stepped;
use crate::system::{bus_read, word, BUS_SIZE};

verus! {

/// `op` reads its operand: arithmetic and logic on the accumulator, loads,
/// comparisons and the bit test.
pub open spec fn reads_operand(op: Opcode) -> bool {
    op == Opcode::ADC || op == Opcode::SBC || op == Opcode::AND || op == Opcode::EOR || op
        == Opcode::ORA || op == Opcode::LDA || op == Opcode::LDX || op == Opcode::LDY || op
        == Opcode::CMP || op == Opcode::CPX || op == Opcode::CPY || op == Opcode::BIT
}

/// `op` stores a register.
pub open spec fn stores_register(op: Opcode) -> bool {
    op == Opcode::STA || op == Opcode::STX || op == Opcode::STY
}

/// `op` may send execution elsewhere than to the next instruction.
pub open spec fn transfers_control(op: Opcode) -> bool {
    op == Opcode::JMP || op == Opcode::JSR || op == Opcode::RTS || op == Opcode::RTI || op
        == Opcode::BRK || op == Opcode::BCC || op == Opcode::BCS || op == Opcode::BEQ || op
        == Opcode::BMI || op == Opcode::BNE || op == Opcode::BPL || op == Opcode::BVC || op
        == Opcode::BVS
}

/// `mode` adds an index register to a 16-bit base address.
pub open spec fn is_indexed(mode: AddressingMode) -> bool {
    mode == AddressingMode::AbsoluteX || mode == AddressingMode::AbsoluteY || mode
        == AddressingMode::IndirectY
}

/// The address that an indexed operand starts from, the operand bytes
/// standing at `cpu.pc`: the address they hold, or for the indirect mode the
/// address that page zero holds where they point.
pub open spec fn index_base(mode: AddressingMode, cpu: Cpu, mem: Seq<u8>) -> u16 {
    if mode == AddressingMode::IndirectY {
        zero_page_word(mem, bus_read(mem, cpu.pc))
    } else {
        word(bus_read(mem, cpu.pc), bus_read(mem, wrap16(cpu.pc + 1)))
    }
}

/// The index register that `mode` adds.
pub open spec fn index_of(mode: AddressingMode, cpu: Cpu) -> u8 {
    if mode == AddressingMode::AbsoluteX {
        cpu.x
    } else {
        cpu.y
    }
}

/// Adding the index to the base of an indexed operand leaves the page of the
/// base.
pub open spec fn index_crosses_page(mode: AddressingMode, cpu: Cpu, mem: Seq<u8>) -> bool {
    crosses_page(
        index_base(mode, cpu, mem),
        wrap16(index_base(mode, cpu, mem) + index_of(mode, cpu)),
    )
}

/// An indexed operand lies at its base plus the index, and an instruction
/// that reads through it costs exactly one cycle more where the index
/// carries the address into another page than where it does not.
#[verifier::rlimit(50)]
pub proof fn lemma_indexed_read_cost(op: Opcode, mode: AddressingMode, cpu: Cpu, mem: Seq<u8>)
    requires
        reads_operand(op),
        is_indexed(mode),
    ensures
        resolve(mode, cpu, mem).0 == wrap16(index_base(mode, cpu, mem) + index_of(mode, cpu)),
        executed(op, mode, cpu, mem).cycles == read_cycles(mode) + if index_crosses_page(
            mode,
            cpu,
            mem,
        ) {
            1int
        } else {
            0int
        },
{
}

/// Of two reads through an indexed operand in the same mode, the one that
/// crosses a page costs exactly one cycle more than the one that does not.
pub proof fn lemma_indexed_read_penalty(
    op: Opcode,
    mode: AddressingMode,
    crossing: Machine,
    staying: Machine,
)
    requires
        reads_operand(op),
        is_indexed(mode),
        index_crosses_page(mode, crossing.cpu, crossing.mem),
        !index_crosses_page(mode, staying.cpu, staying.mem),
    ensures
        executed(op, mode, crossing.cpu, crossing.mem).cycles == executed(
            op,
            mode,
            staying.cpu,
            staying.mem,
        ).cycles + 1,
{
    lemma_indexed_read_cost(op, mode, crossing.cpu, crossing.mem);
    lemma_indexed_read_cost(op, mode, staying.cpu, staying.mem);
}

/// A store costs what its mode costs, whatever the registers and the bus
/// hold: crossing a page adds nothing to it.
pub proof fn lemma_store_has_no_penalty(op: Opcode, mode: AddressingMode, cpu: Cpu, mem: Seq<u8>)
    requires
        stores_register(op),
    ensures
        executed(op, mode, cpu, mem).cycles == store_cycles(mode),
{
}

/// The same two facts of a whole step: where the byte at the program counter
/// encodes a read through an indexed operand, the step costs one cycle more
/// exactly where the index crosses a page; where it encodes a store, the
/// step costs what the mode costs.
#[verifier::rlimit(50)]
pub proof fn lemma_step_cost(cpu: Cpu, mem: Seq<u8>)
    ensures
        ({
            let inst = decode(bus_read(mem, cpu.pc));
            let fetched = Cpu { data: bus_read(mem, cpu.pc), ..advanced(cpu, 1) };
            &&& reads_operand(inst.0) && is_indexed(inst.1) ==> stepped(cpu, mem).cycles
                == read_cycles(inst.1) + if index_crosses_page(inst.1, fetched, mem) {
                1int
            } else {
                0int
            }
            &&& stores_register(inst.0) ==> stepped(cpu, mem).cycles == store_cycles(inst.1)
        }),
{
    let inst = decode(bus_read(mem, cpu.pc));
    let fetched = Cpu { data: bus_read(mem, cpu.pc), ..advanced(cpu, 1) };
    if reads_operand(inst.0) && is_indexed(inst.1) {
        lemma_indexed_read_cost(inst.0, inst.1, fetched, mem);
    }
    if stores_register(inst.0) {
        lemma_store_has_no_penalty(inst.0, inst.1, fetched, mem);
    }
}

/// The machine after the bytes of `data` were pushed, first byte first.
pub open spec fn after_pushes(m: Machine, data: Seq<u8>) -> Machine
    decreases data.len(),
{
    if data.len() == 0 {
        m
    } else {
        after_push(after_pushes(m, data.drop_last()), data.last())
    }
}

/// Pushing up to a page of bytes moves the stack pointer down by their
/// number, wrapping within its page; each byte lies where the pointer stood
/// when it was pushed; and nothing outside the stack's page changes.
#[verifier::rlimit(50)]
pub proof fn lemma_pushes(m: Machine, data: Seq<u8>)
    requires
        m.mem.len() == BUS_SIZE,
        data.len() <= 256,
    ensures
        after_pushes(m, data).cpu == (Cpu { s: wrap8(m.cpu.s - data.len()), ..m.cpu }),
        after_pushes(m, data).mem.len() == BUS_SIZE,
        forall|k: int|
            0 <= k < data.len() ==> after_pushes(m, data).mem[stack_address(wrap8(m.cpu.s - k))
                as int] == #[trigger] data[k],
        forall|addr: int|
            0 <= addr < BUS_SIZE && !(STACK_BASE <= addr < STACK_BASE + 256) ==> after_pushes(
                m,
                data,
            ).mem[addr] == m.mem[addr],
    decreases data.len(),
{
    if data.len() > 0 {
        let front = data.drop_last();
        let n = front.len() as int;
        lemma_pushes(m, front);
        let before = after_pushes(m, front);
        let after = after_pushes(m, data);
        let slot = stack_address(before.cpu.s);
        assert(after == after_push(before, data.last()));
        assert(before.cpu.s == wrap8(m.cpu.s - n));
        assert(after.mem == before.mem.update(slot as int, data.last()));
        lemma_wrap8_sum(m.cpu.s - n, -1);
        assert forall|k: int| 0 <= k < data.len() implies after.mem[stack_address(
            wrap8(m.cpu.s - k),
        ) as int] == #[trigger] data[k] by {
            if k < n {
                assert(front[k] == data[k]);
                lemma_wrap8_apart(m.cpu.s - n, m.cpu.s - k);
            }
        }
    }
}

/// Pushing 256 bytes from the top of the stack's page brings the stack
/// pointer back to the top; byte `k` lies at offset `0xff - k` of the page;
/// and no address outside `0x0100` to `0x01ff` was written.
#[verifier::rlimit(50)]
pub proof fn lemma_full_page_of_pushes(m: Machine, data: Seq<u8>)
    requires
        m.mem.len() == BUS_SIZE,
        m.cpu.s == 0xff,
        data.len() == 256,
    ensures
        after_pushes(m, data).cpu == m.cpu,
        forall|k: int|
            0 <= k < 256 ==> after_pushes(m, data).mem[0x1ff - k] == #[trigger] data[k],
        forall|addr: int|
            0 <= addr < BUS_SIZE && !(0x0100 <= addr <= 0x01ff) ==> after_pushes(m, data).mem[addr]
                == m.mem[addr],
{
    lemma_pushes(m, data);
    assert forall|k: int| 0 <= k < 256 implies after_pushes(m, data).mem[0x1ff - k]
        == #[trigger] data[k] by {
        assert(stack_address(wrap8(m.cpu.s - k)) == 0x1ff - k);
    }
}

/// A byte that was pushed is the byte that the next pop returns, and the pop
/// puts the stack pointer back.
#[verifier::rlimit(50)]
pub proof fn lemma_pop_undoes_push(m: Machine, data: u8)
    requires
        m.mem.len() == BUS_SIZE,
    ensures
        top_of_stack(after_push(m, data)) == data,
        after_pop(after_push(m, data)).cpu == m.cpu,
{
}

/// After an interrupt that was taken, the three bytes on top of the stack
/// are, in the order in which they are popped, the pushed copy of the status
/// register, the low byte of the return address and its high byte; the stack
/// pointer stands three below where it stood; Interrupt-disable is set; and
/// the program counter holds what the vector held before the interrupt.
#[verifier::rlimit(50)]
pub proof fn lemma_interrupt_push_order(m: Machine, irq: Interrupt)
    requires
        m.mem.len() == BUS_SIZE,
        irq != Interrupt::RESET,
        !interrupt_masked(m.cpu, irq),
    ensures
        ({
            let taken = after_interrupt(m, irq);
            let ret = return_address(m.cpu, irq);
            &&& top_of_stack(taken) == pushed_status(m.cpu.p, irq == Interrupt::BRK)
            &&& top_of_stack(after_pop(taken)) == ret % 256
            &&& top_of_stack(after_pop(after_pop(taken))) == ret / 256
            &&& after_pop(after_pop(after_pop(taken))).cpu.s == m.cpu.s
            &&& taken.cpu.p == with_flag(m.cpu.p, FLAG_INTERRUPT, true)
            &&& taken.cpu.pc == vector_target(m.mem, irq)
        }),
{
    let ret = return_address(m.cpu, irq);
    let m1 = after_push(m, (ret / 256) as u8);
    let m2 = after_push(m1, (ret % 256) as u8);
    let m3 = after_push(m2, pushed_status(m.cpu.p, irq == Interrupt::BRK));
    lemma_pop_undoes_push(m, (ret / 256) as u8);
    lemma_pop_undoes_push(m1, (ret % 256) as u8);
    lemma_pop_undoes_push(m2, pushed_status(m.cpu.p, irq == Interrupt::BRK));
}

/// A return from an interrupt that was taken resumes at the return address,
/// with the stack pointer where it stood and the status register as it was
/// pushed.
#[verifier::rlimit(50)]
pub proof fn lemma_return_resumes(m: Machine, irq: Interrupt)
    requires
        m.mem.len() == BUS_SIZE,
        irq != Interrupt::RESET,
        !interrupt_masked(m.cpu, irq),
    ensures
        after_interrupt_return(after_interrupt(m, irq)) == (Cpu {
            pc: return_address(m.cpu, irq),
            p: pushed_status(m.cpu.p, irq == Interrupt::BRK),
            ..m.cpu
        }),
{
    lemma_interrupt_push_order(m, irq);
    let ret = return_address(m.cpu, irq);
    assert(word((ret % 256) as u8, (ret / 256) as u8) == ret);
}

/// A return from a call resumes behind the calling instruction, with the
/// stack pointer where it stood before the call.
#[verifier::rlimit(50)]
pub proof fn lemma_return_undoes_call(m: Machine, target: u16)
    requires
        m.mem.len() == BUS_SIZE,
    ensures
        after_return(after_call(m, target)) == m.cpu,
{
    let last = wrap16(m.cpu.pc - 1);
    let m1 = after_push(m, (last / 256) as u8);
    let m2 = after_push(m1, (last % 256) as u8);
    lemma_pop_undoes_push(m, (last / 256) as u8);
    lemma_pop_undoes_push(m1, (last % 256) as u8);
    let called = after_call(m, target);
    assert(top_of_stack(called) == (last % 256) as u8);
    assert(top_of_stack(after_pop(called)) == (last / 256) as u8);
    assert(word((last % 256) as u8, (last / 256) as u8) == last);
    lemma_wrap16_sum(m.cpu.pc - 1, 1);
}

/// Decimal mode changes no sum: with the flag set or clear, an addition and
/// a subtraction leave the same byte in the accumulator.
pub proof fn lemma_decimal_changes_no_sum(op: Opcode, cpu: Cpu, value: u8, decimal: bool)
    requires
        op == Opcode::ADC || op == Opcode::SBC,
    ensures
        after_read(op, Cpu { p: with_flag(cpu.p, FLAG_DECIMAL, decimal), ..cpu }, value).a
            == after_read(op, cpu, value).a,
{
    lemma_flag_written(cpu.p, FLAG_DECIMAL, decimal, FLAG_CARRY);
}

/// The flag that `op` sets or clears, and whether it sets it.
pub open spec fn flag_written_by(op: Opcode) -> Option<(u8, bool)> {
    match op {
        Opcode::SEC => Some((FLAG_CARRY, true)),
        Opcode::CLC => Some((FLAG_CARRY, false)),
        Opcode::SED => Some((FLAG_DECIMAL, true)),
        Opcode::CLD => Some((FLAG_DECIMAL, false)),
        Opcode::SEI => Some((FLAG_INTERRUPT, true)),
        Opcode::CLI => Some((FLAG_INTERRUPT, false)),
        Opcode::CLV => Some((FLAG_OVERFLOW, false)),
        _ => None,
    }
}

/// An operation that sets or clears a flag changes that one bit of the
/// status register and nothing else.
pub proof fn lemma_flag_operation(op: Opcode, cpu: Cpu, other: u8)
    requires
        flag_written_by(op).is_some(),
        is_flag(other),
    ensures
        after_register_op(op, cpu) == (Cpu { p: after_register_op(op, cpu).p, ..cpu }),
        has_flag(after_register_op(op, cpu).p, other) == if other == flag_written_by(
            op,
        ).unwrap().0 {
            flag_written_by(op).unwrap().1
        } else {
            has_flag(cpu.p, other)
        },
{
    let (flag, on) = flag_written_by(op).unwrap();
    lemma_flag_written(cpu.p, flag, on, other);
}

/// A step leaves the bus with as many addresses as it had.
pub proof fn lemma_step_keeps_bus_size(cpu: Cpu, mem: Seq<u8>)
    requires
        mem.len() == BUS_SIZE,
    ensures
        stepped(cpu, mem).mem.len() == BUS_SIZE,
{
    let code = bus_read(mem, cpu.pc);
    let inst = decode(code);
    lemma_executed_keeps_bus_size(inst.0, inst.1, Cpu { data: code, ..advanced(cpu, 1) }, mem);
}

/// Carrying out an instruction leaves the bus with as many addresses as it
/// had.
#[verifier::rlimit(50)]
pub proof fn lemma_executed_keeps_bus_size(
    op: Opcode,
    mode: AddressingMode,
    cpu: Cpu,
    mem: Seq<u8>,
)
    requires
        mem.len() == BUS_SIZE,
    ensures
        executed(op, mode, cpu, mem).mem.len() == BUS_SIZE,
{
}

/// A reset loads the program counter from its vector and changes nothing
/// else; a maskable interrupt that arrives while Interrupt-disable is set
/// changes nothing at all.
pub proof fn lemma_reset_and_masked(m: Machine)
    ensures
        after_interrupt(m, Interrupt::RESET) == (Machine {
            cpu: Cpu { pc: vector_target(m.mem, Interrupt::RESET), ..m.cpu },
            mem: m.mem,
        }),
        has_flag(m.cpu.p, FLAG_INTERRUPT) ==> after_interrupt(m, Interrupt::IRQ) == m,
{
}

/// Carrying out an operation that does not transfer control moves the
/// program counter past the operand bytes and no further.
#[verifier::rlimit(50)]
pub proof fn lemma_executed_pc(op: Opcode, mode: AddressingMode, cpu: Cpu, mem: Seq<u8>)
    requires
        !transfers_control(op),
    ensures
        executed(op, mode, cpu, mem).cpu.pc == wrap16(cpu.pc + operand_len(mode)),
{
    let next = advanced(cpu, operand_len(mode));
    if reads_operand(op) {
        assert(after_read(op, next, operand_value(mode, cpu, mem)).pc == next.pc);
    } else if stores_register(op) {
    } else if op == Opcode::ASL || op == Opcode::LSR || op == Opcode::ROL || op == Opcode::ROR
        || op == Opcode::INC || op == Opcode::DEC {
    } else if op == Opcode::PHA || op == Opcode::PHP || op == Opcode::PLA || op == Opcode::PLP {
    } else {
        assert(after_register_op(op, next).pc == next.pc);
    }
}

/// An instruction that does not transfer control leaves the program counter
/// behind its last byte, wrapping at the end of the address space.
#[verifier::rlimit(50)]
pub proof fn lemma_sequential_pc(cpu: Cpu, mem: Seq<u8>)
    requires
        !transfers_control(decode(bus_read(mem, cpu.pc)).0),
    ensures
        stepped(cpu, mem).cpu.pc == wrap16(
            cpu.pc + 1 + operand_len(decode(bus_read(mem, cpu.pc)).1),
        ),
{
    let code = bus_read(mem, cpu.pc);
    let inst = decode(code);
    let fetched = Cpu { data: code, ..advanced(cpu, 1) };
    lemma_executed_pc(inst.0, inst.1, fetched, mem);
    lemma_wrap16_sum(cpu.pc + 1, operand_len(inst.1));
}

/// A one-byte instruction at `0xffff` that does not transfer control leaves
/// the program counter at `0x0000`.
pub proof fn lemma_pc_wraps(cpu: Cpu, mem: Seq<u8>)
    requires
        cpu.pc == 0xffff,
        !transfers_control(decode(bus_read(mem, cpu.pc)).0),
        operand_len(decode(bus_read(mem, cpu.pc)).1) == 0,
    ensures
        stepped(cpu, mem).cpu.pc == 0,
{
    lemma_sequential_pc(cpu, mem);
}

/// A step on a byte that encodes no operation records the byte, moves the
/// program counter past it and takes one cycle; the other registers and the
/// bus stay as they were.
#[verifier::rlimit(50)]
pub proof fn lemma_unmapped_step(cpu: Cpu, mem: Seq<u8>)
    requires
        decode(bus_read(mem, cpu.pc)).0 == Opcode::Unmapped,
    ensures
        stepped(cpu, mem).cpu == (Cpu {
            pc: wrap16(cpu.pc + 1),
            data: bus_read(mem, cpu.pc),
            ..cpu
        }),
        stepped(cpu, mem).mem == mem,
        stepped(cpu, mem).cycles == 1,
{
    crate::instruction::lemma_decode_unmapped(bus_read(mem, cpu.pc));
}

} // verus!
