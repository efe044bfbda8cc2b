//! How each addressing mode finds the operand of an instruction.
use vstd::prelude::*;
use crate::alu::{signed, wrap16, wrap8};
use crate::cpu::Cpu;
use crate::instruction::AddressingMode;
use crate::system::{bus_read, high_byte, low_byte, make_word, word, System};

verus! {

/// A resolved operand: the address the instruction works on (for an
/// immediate operand, the value itself), and the extra cycle that reaching
/// it costs an instruction that reads, 0 or 1.
#[derive(PartialEq, Eq, Copy, Clone, Debug, Structural)]
pub struct Operand(pub u16, pub u8);

/// Bytes that follow the opcode in `mode`.
pub open spec fn operand_len(mode: AddressingMode) -> int {
    match mode {
        AddressingMode::Implied | AddressingMode::Accumulator => 0,
        AddressingMode::Immediate
        | AddressingMode::ZeroPage
        | AddressingMode::ZeroPageX
        | AddressingMode::ZeroPageY
        | AddressingMode::Relative
        | AddressingMode::IndirectX
        | AddressingMode::IndirectY => 1,
        AddressingMode::Absolute
        | AddressingMode::AbsoluteX
        | AddressingMode::AbsoluteY
        | AddressingMode::Indirect => 2,
    }
}

/// Two addresses lie in different 256-byte pages.
pub open spec fn crosses_page(from: u16, to: u16) -> bool {
    from / 256 != to / 256
}

/// `base` moved up by `index` over the whole address space, with one extra
/// cycle where that leaves the page of `base`.
pub open spec fn indexed(base: u16, index: u8) -> Operand {
    let addr = wrap16(base + index);
    Operand(
        addr,
        if crosses_page(base, addr) {
            1
        } else {
            0
        },
    )
}

/// The address stored at `ptr` in page zero; its high byte comes from the
/// next place in that page, which after `0xff` is `0x00`.
pub open spec fn zero_page_word(mem: Seq<u8>, ptr: u8) -> u16 {
    word(bus_read(mem, ptr as u16), bus_read(mem, wrap8(ptr + 1) as u16))
}

/// The address that follows `ptr` within its own page: after offset `0xff`
/// comes offset `0x00` of the same page.
pub open spec fn next_in_page(ptr: u16) -> u16 {
    word(wrap8(ptr % 256 + 1), (ptr / 256) as u8)
}

/// Where a branch with displacement `offset` goes, the program counter
/// standing at `next`, behind the branch.
pub open spec fn branch_target(next: u16, offset: u8) -> u16 {
    wrap16(next + signed(offset))
}

/// The operand of an instruction in `mode` whose operand bytes start at
/// `cpu.pc`, on a bus that holds `mem`.
pub open spec fn resolve(mode: AddressingMode, cpu: Cpu, mem: Seq<u8>) -> Operand {
    let first = bus_read(mem, cpu.pc);
    let second = bus_read(mem, wrap16(cpu.pc + 1));
    match mode {
        AddressingMode::Implied | AddressingMode::Accumulator => Operand(0, 0),
        AddressingMode::Immediate => Operand(first as u16, 0),
        AddressingMode::ZeroPage => Operand(first as u16, 0),
        AddressingMode::ZeroPageX => Operand(wrap8(first + cpu.x) as u16, 0),
        AddressingMode::ZeroPageY => Operand(wrap8(first + cpu.y) as u16, 0),
        AddressingMode::Absolute => Operand(word(first, second), 0),
        AddressingMode::AbsoluteX => indexed(word(first, second), cpu.x),
        AddressingMode::AbsoluteY => indexed(word(first, second), cpu.y),
        AddressingMode::Relative => {
            let next = wrap16(cpu.pc + 1);
            let target = branch_target(next, first);
            Operand(
                target,
                if crosses_page(next, target) {
                    1
                } else {
                    0
                },
            )
        },
        AddressingMode::Indirect => {
            let ptr = word(first, second);
            Operand(word(bus_read(mem, ptr), bus_read(mem, next_in_page(ptr))), 0)
        },
        AddressingMode::IndirectX => Operand(zero_page_word(mem, wrap8(first + cpu.x)), 0),
        AddressingMode::IndirectY => indexed(zero_page_word(mem, first), cpu.y),
    }
}

/// The byte an instruction in `mode` works on: the accumulator, the
/// immediate value, or what the bus holds at the operand's address. Modes
/// without a memory operand give zero.
pub open spec fn operand_value(mode: AddressingMode, cpu: Cpu, mem: Seq<u8>) -> u8 {
    match mode {
        AddressingMode::Implied | AddressingMode::Relative => 0,
        AddressingMode::Accumulator => cpu.a,
        AddressingMode::Immediate => bus_read(mem, cpu.pc),
        _ => bus_read(mem, resolve(mode, cpu, mem).0),
    }
}

/// The processor with its program counter moved by `n`, wrapping.
pub open spec fn advanced(cpu: Cpu, n: int) -> Cpu {
    Cpu { pc: wrap16(cpu.pc + n), ..cpu }
}

/// The page-crossing cost of a resolved operand is one cycle at most.
pub proof fn lemma_resolve_extra(mode: AddressingMode, cpu: Cpu, mem: Seq<u8>)
    ensures
        resolve(mode, cpu, mem).1 <= 1,
{
}

/// Adds `index` to `base` and notes whether the sum left the page.
#[verifier::rlimit(50)]
fn index_address(base: u16, index: u8) -> (operand: Operand)
    ensures
        operand == indexed(base, index),
{
    let addr = base.wrapping_add(index as u16);
    let extra: u8 = if high_byte(base) != high_byte(addr) {
        1
    } else {
        0
    };
    Operand(addr, extra)
}

/// Moves `next` by the signed displacement `offset`.
#[verifier::rlimit(50)]
fn branch_to(next: u16, offset: u8) -> (target: u16)
    ensures
        target == branch_target(next, offset),
{
    if offset < 0x80 {
        next.wrapping_add(offset as u16)
    } else {
        next.wrapping_sub(0x100 - offset as u16)
    }
}

/// The address after `ptr`, staying in the page of `ptr`.
#[verifier::rlimit(50)]
fn successor_in_page(ptr: u16) -> (next: u16)
    ensures
        next == next_in_page(ptr),
{
    make_word(low_byte(ptr).wrapping_add(1), high_byte(ptr))
}

impl Cpu {
    /// Reads the byte at the program counter and moves past it.
    pub fn fetch8(&mut self, system: &System) -> (data: u8)
        ensures
            data == bus_read(system@, old(self).pc),
            *final(self) == advanced(*old(self), 1),
    {
        let data = system.read_u8(self.pc, false);
        self.pc = self.pc.wrapping_add(1);
        data
    }

    /// Reads the two bytes at the program counter, low byte first, and moves
    /// past them.
    #[verifier::rlimit(50)]
    pub fn fetch16(&mut self, system: &System) -> (data: u16)
        ensures
            data == word(
                bus_read(system@, old(self).pc),
                bus_read(system@, wrap16(old(self).pc + 1)),
            ),
            *final(self) == advanced(*old(self), 2),
    {
        let lo = self.fetch8(system);
        let hi = self.fetch8(system);
        make_word(lo, hi)
    }

    /// Reads the 16-bit value at `ptr` and the place after it in page zero.
    fn read_zero_page_word(system: &System, ptr: u8) -> (data: u16)
        ensures
            data == zero_page_word(system@, ptr),
    {
        system.read_u16(ptr as u16, ptr.wrapping_add(1) as u16)
    }

    /// Consumes the operand bytes of an instruction in `mode` and resolves
    /// them.
    #[verifier::rlimit(50)]
    pub fn fetch_operand(&mut self, system: &System, mode: AddressingMode) -> (operand: Operand)
        ensures
            operand == resolve(mode, *old(self), system@),
            operand.1 <= 1,
            *final(self) == advanced(*old(self), operand_len(mode)),
    {
        match mode {
            AddressingMode::Implied | AddressingMode::Accumulator => Operand(0, 0),
            AddressingMode::Immediate | AddressingMode::ZeroPage => {
                let value = self.fetch8(system);
                Operand(value as u16, 0)
            },
            AddressingMode::ZeroPageX => {
                let base = self.fetch8(system);
                Operand(base.wrapping_add(self.x) as u16, 0)
            },
            AddressingMode::ZeroPageY => {
                let base = self.fetch8(system);
                Operand(base.wrapping_add(self.y) as u16, 0)
            },
            AddressingMode::Absolute => {
                let addr = self.fetch16(system);
                Operand(addr, 0)
            },
            AddressingMode::AbsoluteX => {
                let base = self.fetch16(system);
                index_address(base, self.x)
            },
            AddressingMode::AbsoluteY => {
                let base = self.fetch16(system);
                index_address(base, self.y)
            },
            AddressingMode::Relative => {
                let offset = self.fetch8(system);
                let target = branch_to(self.pc, offset);
                let extra: u8 = if high_byte(self.pc) != high_byte(target) {
                    1
                } else {
                    0
                };
                Operand(target, extra)
            },
            AddressingMode::Indirect => {
                let ptr = self.fetch16(system);
                Operand(system.read_u16(ptr, successor_in_page(ptr)), 0)
            },
            AddressingMode::IndirectX => {
                let base = self.fetch8(system);
                Operand(Self::read_zero_page_word(system, base.wrapping_add(self.x)), 0)
            },
            AddressingMode::IndirectY => {
                let ptr = self.fetch8(system);
                let base = Self::read_zero_page_word(system, ptr);
                index_address(base, self.y)
            },
        }
    }

    /// Consumes the operand bytes of an instruction in `mode`, resolves them
    /// and reads the byte the instruction works on.
    #[verifier::rlimit(50)]
    pub fn fetch_args(&mut self, system: &System, mode: AddressingMode) -> (args: (Operand, u8))
        ensures
            args.0 == resolve(mode, *old(self), system@),
            args.0.1 <= 1,
            args.1 == operand_value(mode, *old(self), system@),
            *final(self) == advanced(*old(self), operand_len(mode)),
    {
        let operand = self.fetch_operand(system, mode);
        let value = match mode {
            AddressingMode::Implied | AddressingMode::Relative => 0,
            AddressingMode::Accumulator => self.a,
            AddressingMode::Immediate => low_byte(operand.0),
            _ => system.read_u8(operand.0, false),
        };
        (operand, value)
    }
}

} // verus!
