//! The processor: its registers, its stack and the way it takes interrupts.
use vstd::prelude::*;
use crate::alu::{
    has_flag, set_flag, test_flag, with_flag, wrap16, wrap8, FLAG_BREAK, FLAG_CARRY,
    FLAG_INTERRUPT, FLAG_UNUSED,
};
use crate::system::{bus_read, bus_write, high_byte, low_byte, word, System};

verus! {

/// Cycles the processor runs in a second.
pub const CPU_FREQ: u32 = 1790000;

/// Low byte of the vector of the non-maskable interrupt.
pub const NMI_READ_LOWER: u16 = 0xfffa;

/// High byte of the vector of the non-maskable interrupt.
pub const NMI_READ_UPPER: u16 = 0xfffb;

/// Low byte of the reset vector.
pub const RESET_READ_LOWER: u16 = 0xfffc;

/// High byte of the reset vector.
pub const RESET_READ_UPPER: u16 = 0xfffd;

/// Low byte of the vector of the maskable interrupt.
pub const IRQ_READ_LOWER: u16 = 0xfffe;

/// High byte of the vector of the maskable interrupt.
pub const IRQ_READ_UPPER: u16 = 0xffff;

/// Low byte of the vector of the software interrupt, which it shares with
/// the maskable one.
pub const BRK_READ_LOWER: u16 = 0xfffe;

/// High byte of the vector of the software interrupt.
pub const BRK_READ_UPPER: u16 = 0xffff;

/// First address of the page that holds the stack.
pub const STACK_BASE: u16 = 0x0100;

/// The registers of the processor.
#[derive(PartialEq, Eq, Copy, Clone, Debug, Structural)]
pub struct Cpu {
    /// Program counter. All arithmetic on it wraps.
    pub pc: u16,
    /// Index register X.
    pub x: u8,
    /// Index register Y.
    pub y: u8,
    /// Accumulator.
    pub a: u8,
    /// Stack pointer: an offset into the page at `STACK_BASE`.
    pub s: u8,
    /// Status register.
    pub p: u8,
    /// The opcode byte that the last step fetched.
    pub data: u8,
}

/// What can make the processor leave the program it runs.
#[derive(PartialEq, Eq, Copy, Clone, Debug, Structural)]
pub enum Interrupt {
    NMI,
    RESET,
    IRQ,
    BRK,
}

/// A processor together with what its bus holds.
pub struct Machine {
    pub cpu: Cpu,
    pub mem: Seq<u8>,
}

/// The bus address behind stack pointer `s`.
pub open spec fn stack_address(s: u8) -> u16 {
    (STACK_BASE + s) as u16
}

/// The machine after `data` went onto the stack: the byte is written at
/// the stack pointer, which then moves down by one and wraps within its page.
pub open spec fn after_push(m: Machine, data: u8) -> Machine {
    Machine {
        cpu: Cpu { s: wrap8(m.cpu.s - 1), ..m.cpu },
        mem: bus_write(m.mem, stack_address(m.cpu.s), data),
    }
}

/// The byte that the next pop returns: the one above the stack pointer.
pub open spec fn top_of_stack(m: Machine) -> u8 {
    bus_read(m.mem, stack_address(wrap8(m.cpu.s + 1)))
}

/// The machine after a pop: the stack pointer moved up by one and wrapped
/// within its page.
pub open spec fn after_pop(m: Machine) -> Machine {
    Machine { cpu: Cpu { s: wrap8(m.cpu.s + 1), ..m.cpu }, mem: m.mem }
}

/// Address of the low byte of the vector that `irq` goes through.
pub open spec fn vector_lower(irq: Interrupt) -> u16 {
    match irq {
        Interrupt::NMI => NMI_READ_LOWER,
        Interrupt::RESET => RESET_READ_LOWER,
        Interrupt::IRQ => IRQ_READ_LOWER,
        Interrupt::BRK => BRK_READ_LOWER,
    }
}

/// Address of the high byte of the vector that `irq` goes through.
pub open spec fn vector_upper(irq: Interrupt) -> u16 {
    match irq {
        Interrupt::NMI => NMI_READ_UPPER,
        Interrupt::RESET => RESET_READ_UPPER,
        Interrupt::IRQ => IRQ_READ_UPPER,
        Interrupt::BRK => BRK_READ_UPPER,
    }
}

/// The address that the vector of `irq` holds.
pub open spec fn vector_target(mem: Seq<u8>, irq: Interrupt) -> u16 {
    word(bus_read(mem, vector_lower(irq)), bus_read(mem, vector_upper(irq)))
}

/// The copy of status register `p` that goes onto the stack: bit 5 set, and
/// Break set where software asked for the push.
pub open spec fn pushed_status(p: u8, software: bool) -> u8 {
    with_flag(p | FLAG_UNUSED, FLAG_BREAK, software)
}

/// The address that an interrupt pushes: the program counter, and for a
/// software interrupt the address one further, past the byte that follows
/// the opcode.
pub open spec fn return_address(cpu: Cpu, irq: Interrupt) -> u16 {
    if irq == Interrupt::BRK {
        wrap16(cpu.pc + 1)
    } else {
        cpu.pc
    }
}

/// Whether `irq` is held off: only a maskable interrupt is, and only while
/// Interrupt-disable is set.
pub open spec fn interrupt_masked(cpu: Cpu, irq: Interrupt) -> bool {
    irq == Interrupt::IRQ && has_flag(cpu.p, FLAG_INTERRUPT)
}

/// The machine after `irq` was raised. A reset loads the program counter
/// from its vector and touches nothing else. A masked interrupt changes
/// nothing. Any other pushes the high byte of the return address, its low
/// byte and a copy of the status register, sets Interrupt-disable and loads
/// the program counter from the vector.
pub open spec fn after_interrupt(m: Machine, irq: Interrupt) -> Machine {
    if irq == Interrupt::RESET {
        Machine { cpu: Cpu { pc: vector_target(m.mem, irq), ..m.cpu }, mem: m.mem }
    } else if interrupt_masked(m.cpu, irq) {
        m
    } else {
        let ret = return_address(m.cpu, irq);
        let m1 = after_push(m, (ret / 256) as u8);
        let m2 = after_push(m1, (ret % 256) as u8);
        let m3 = after_push(m2, pushed_status(m.cpu.p, irq == Interrupt::BRK));
        Machine {
            cpu: Cpu {
                pc: vector_target(m3.mem, irq),
                p: with_flag(m.cpu.p, FLAG_INTERRUPT, true),
                ..m3.cpu
            },
            mem: m3.mem,
        }
    }
}

impl Cpu {
    /// A processor with every register zero.
    pub fn new() -> (cpu: Cpu)
        ensures
            cpu == (Cpu { pc: 0, x: 0, y: 0, a: 0, s: 0, p: 0, data: 0 }),
    {
        Cpu { pc: 0, x: 0, y: 0, a: 0, s: 0, p: 0, data: 0 }
    }

    /// Puts every register back to zero.
    pub fn reset(&mut self)
        ensures
            *final(self) == (Cpu { pc: 0, x: 0, y: 0, a: 0, s: 0, p: 0, data: 0 }),
    {
        *self = Cpu::new();
    }

    /// Moves the program counter forward by `incr`, wrapping at the end of
    /// the address space.
    pub fn increment(&mut self, incr: u16)
        ensures
            *final(self) == (Cpu { pc: wrap16(old(self).pc + incr), ..*old(self) }),
    {
        self.pc = self.pc.wrapping_add(incr);
    }

    /// Whether Carry is set.
    pub fn read_carry_flag(&self) -> (on: bool)
        ensures
            on == has_flag(self.p, FLAG_CARRY),
    {
        test_flag(self.p, FLAG_CARRY)
    }

    /// Sets or clears Break and leaves every other bit.
    pub fn write_break_flag(&mut self, active: bool)
        ensures
            *final(self) == (Cpu { p: with_flag(old(self).p, FLAG_BREAK, active), ..*old(self) }),
    {
        self.p = set_flag(self.p, FLAG_BREAK, active);
    }

    /// Sets or clears Interrupt-disable and leaves every other bit.
    pub fn write_interrupt_flag(&mut self, active: bool)
        ensures
            *final(self) == (Cpu {
                p: with_flag(old(self).p, FLAG_INTERRUPT, active),
                ..*old(self)
            }),
    {
        self.p = set_flag(self.p, FLAG_INTERRUPT, active);
    }

    /// Whether Interrupt-disable is set.
    pub fn read_interrupt_flag(&self) -> (on: bool)
        ensures
            on == has_flag(self.p, FLAG_INTERRUPT),
    {
        test_flag(self.p, FLAG_INTERRUPT)
    }

    /// Pushes `data`: writes it at the stack pointer, then moves the pointer
    /// down by one, from `0x00` to `0xff`.
    #[verifier::rlimit(50)]
    pub fn stack_push(&mut self, system: &mut System, data: u8)
        ensures
            (Machine { cpu: *final(self), mem: final(system)@ }) == after_push(
                Machine { cpu: *old(self), mem: old(system)@ },
                data,
            ),
            final(system).same_devices(*old(system)),
    {
        system.write_u8(STACK_BASE + self.s as u16, data, false);
        self.s = self.s.wrapping_sub(1);
    }

    /// Pops a byte: moves the stack pointer up by one, from `0xff` to
    /// `0x00`, then reads at it.
    #[verifier::rlimit(50)]
    pub fn stack_pop(&mut self, system: &System) -> (data: u8)
        ensures
            data == top_of_stack(Machine { cpu: *old(self), mem: system@ }),
            *final(self) == after_pop(Machine { cpu: *old(self), mem: system@ }).cpu,
    {
        self.s = self.s.wrapping_add(1);
        system.read_u8(STACK_BASE + self.s as u16, false)
    }

    /// Takes the interrupt `irq`. A software interrupt is raised once its
    /// opcode has been fetched, with the program counter on the byte behind
    /// it.
    #[verifier::rlimit(50)]
    pub fn interrupt(&mut self, system: &mut System, irq: Interrupt)
        ensures
            (Machine { cpu: *final(self), mem: final(system)@ }) == after_interrupt(
                Machine { cpu: *old(self), mem: old(system)@ },
                irq,
            ),
            final(system).same_devices(*old(system)),
    {
        let lower = match irq {
            Interrupt::BRK => BRK_READ_LOWER,
            Interrupt::NMI => NMI_READ_LOWER,
            Interrupt::IRQ => IRQ_READ_LOWER,
            Interrupt::RESET => RESET_READ_LOWER,
        };
        let upper = match irq {
            Interrupt::BRK => BRK_READ_UPPER,
            Interrupt::NMI => NMI_READ_UPPER,
            Interrupt::IRQ => IRQ_READ_UPPER,
            Interrupt::RESET => RESET_READ_UPPER,
        };
        match irq {
            Interrupt::RESET => {},
            Interrupt::IRQ => {
                if self.read_interrupt_flag() {
                    return ;
                }
                self.push_state(system, false);
            },
            Interrupt::NMI => {
                self.push_state(system, false);
            },
            Interrupt::BRK => {
                self.pc = self.pc.wrapping_add(1);
                self.push_state(system, true);
            },
        }
        self.pc = system.read_u16(lower, upper);
    }

    /// Pushes the program counter, high byte first, and a copy of the status
    /// register, then sets Interrupt-disable.
    #[verifier::rlimit(50)]
    fn push_state(&mut self, system: &mut System, software: bool)
        ensures
            ({
                let m = Machine { cpu: *old(self), mem: old(system)@ };
                let m1 = after_push(m, (old(self).pc / 256) as u8);
                let m2 = after_push(m1, (old(self).pc % 256) as u8);
                let m3 = after_push(m2, pushed_status(old(self).p, software));
                &&& *final(self) == (Cpu {
                    p: with_flag(old(self).p, FLAG_INTERRUPT, true),
                    ..m3.cpu
                })
                &&& final(system)@ == m3.mem
            }),
            final(system).same_devices(*old(system)),
    {
        let status = set_flag(self.p | FLAG_UNUSED, FLAG_BREAK, software);
        self.stack_push(system, high_byte(self.pc));
        self.stack_push(system, low_byte(self.pc));
        self.stack_push(system, status);
        self.write_interrupt_flag(true);
    }
}

} // verus!
