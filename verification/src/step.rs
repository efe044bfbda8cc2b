//! One instruction: fetch, decode, resolve, execute.
use vstd::prelude::*;
use crate::addressing::{advanced, lemma_resolve_extra};
use crate::cpu::Cpu;
use crate::execute::{executed, Outcome};
use crate::instruction::{decode, Instruction, Opcode};
use crate::system::{bus_read, System};

verus! {

/// What one step makes of a processor and a bus: the byte at the program
/// counter is fetched and recorded, the instruction it encodes is carried
/// out, and a byte that encodes none costs one cycle and changes nothing
/// else.
pub open spec fn stepped(cpu: Cpu, mem: Seq<u8>) -> Outcome {
    let code = bus_read(mem, cpu.pc);
    let inst = decode(code);
    executed(inst.0, inst.1, Cpu { data: code, ..advanced(cpu, 1) }, mem)
}

/// Every instruction takes at least one cycle and at most eight.
#[verifier::rlimit(50)]
pub proof fn lemma_cycles_bounded(
    op: Opcode,
    mode: crate::instruction::AddressingMode,
    cpu: Cpu,
    mem: Seq<u8>,
)
    ensures
        1 <= executed(op, mode, cpu, mem).cycles <= 8,
        op != Opcode::Unmapped ==> 2 <= executed(op, mode, cpu, mem).cycles,
{
    lemma_resolve_extra(mode, cpu, mem);
}

impl Cpu {
    /// Runs one instruction and returns the cycles it took. The opcode byte
    /// is left in `data`; where it encodes no operation, the step takes one
    /// cycle and moves the program counter past the byte, and nothing else
    /// changes.
    #[verifier::rlimit(50)]
    pub fn step(&mut self, system: &mut System) -> (cycles: u8)
        ensures
            *final(self) == stepped(*old(self), old(system)@).cpu,
            final(system)@ == stepped(*old(self), old(system)@).mem,
            cycles == stepped(*old(self), old(system)@).cycles,
            1 <= cycles <= 8,
            final(system).same_devices(*old(system)),
    {
        let code = self.fetch8(system);
        self.data = code;
        let Instruction(opcode, mode) = Instruction::from(code);
        proof {
            lemma_cycles_bounded(opcode, mode, *self, system@);
        }
        self.execute(system, opcode, mode)
    }

    /// The byte that the last step fetched, where it encodes no operation.
    pub fn last_unmapped(&self) -> (code: Option<u8>)
        ensures
            code == if decode(self.data).0 == Opcode::Unmapped {
                Some(self.data)
            } else {
                None
            },
    {
        match Instruction::from(self.data) {
            Instruction(Opcode::Unmapped, _) => Some(self.data),
            _ => None,
        }
    }
}

} // verus!
