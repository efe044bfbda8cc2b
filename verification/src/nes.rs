//! The console as its host drives it: load a cartridge, reset, run a frame
//! one instruction at a time, and pass on what the player presses.
use vstd::prelude::*;
use crate::cpu::{after_interrupt, vector_target, Cpu, Interrupt, Machine, CPU_FREQ};
use crate::pad::PadButton;
use crate::rom::{image_chr, image_prg, image_valid};
use crate::step::stepped;
use crate::system::{cleared, System, BUS_SIZE, ROM_BASE};

verus! {

/// Pixels in a line of the picture.
pub const VISIBLE_SCREEN_WIDTH: usize = 256;

/// Lines of the picture.
pub const VISIBLE_SCREEN_HEIGHT: usize = 240;

/// Bytes of colour in a pixel.
pub const NUM_OF_COLOR: usize = 3;

/// Processor cycles in a frame: the cycles of a sixtieth of a second.
pub const CYCLE_PER_DRAW_FRAME: usize = 29833;

/// A frame lasts a sixtieth of the cycles that the processor runs in a
/// second.
pub proof fn lemma_frame_budget()
    ensures
        CYCLE_PER_DRAW_FRAME == CPU_FREQ / 60,
{
}

/// Pixels in a line of the picture.
pub fn get_screen_width() -> (width: usize)
    ensures
        width == VISIBLE_SCREEN_WIDTH,
{
    VISIBLE_SCREEN_WIDTH
}

/// Lines of the picture.
pub fn get_screen_height() -> (height: usize)
    ensures
        height == VISIBLE_SCREEN_HEIGHT,
{
    VISIBLE_SCREEN_HEIGHT
}

/// Bytes of colour in a pixel.
pub fn get_num_of_colors() -> (colors: usize)
    ensures
        colors == NUM_OF_COLOR,
{
    NUM_OF_COLOR
}

/// What the player does to the first controller.
#[derive(PartialEq, Eq, Copy, Clone, Debug, Structural)]
pub enum KeyEvent {
    PressA,
    PressB,
    PressSelect,
    PressStart,
    PressUp,
    PressDown,
    PressLeft,
    PressRight,
    ReleaseA,
    ReleaseB,
    ReleaseSelect,
    ReleaseStart,
    ReleaseUp,
    ReleaseDown,
    ReleaseLeft,
    ReleaseRight,
}

/// The button that `key` is about.
pub open spec fn key_button(key: KeyEvent) -> PadButton {
    match key {
        KeyEvent::PressA | KeyEvent::ReleaseA => PadButton::A,
        KeyEvent::PressB | KeyEvent::ReleaseB => PadButton::B,
        KeyEvent::PressSelect | KeyEvent::ReleaseSelect => PadButton::Select,
        KeyEvent::PressStart | KeyEvent::ReleaseStart => PadButton::Start,
        KeyEvent::PressUp | KeyEvent::ReleaseUp => PadButton::Up,
        KeyEvent::PressDown | KeyEvent::ReleaseDown => PadButton::Down,
        KeyEvent::PressLeft | KeyEvent::ReleaseLeft => PadButton::Left,
        KeyEvent::PressRight | KeyEvent::ReleaseRight => PadButton::Right,
    }
}

/// Whether `key` holds its button down rather than letting it go.
pub open spec fn key_presses(key: KeyEvent) -> bool {
    match key {
        KeyEvent::PressA
        | KeyEvent::PressB
        | KeyEvent::PressSelect
        | KeyEvent::PressStart
        | KeyEvent::PressUp
        | KeyEvent::PressDown
        | KeyEvent::PressLeft
        | KeyEvent::PressRight => true,
        _ => false,
    }
}

/// The buttons held after `key`, `held` being those held before.
pub open spec fn after_key(held: Set<PadButton>, key: KeyEvent) -> Set<PadButton> {
    if key_presses(key) {
        held.insert(key_button(key))
    } else {
        held.remove(key_button(key))
    }
}

/// The machine once the interrupt that was asked for, if any, is taken.
pub open spec fn delivered(m: Machine, request: Option<Interrupt>) -> Machine {
    match request {
        Some(irq) => after_interrupt(m, irq),
        None => m,
    }
}

/// The registers right after a reset on a bus that holds `mem`: all zero but
/// the program counter, which holds what the reset vector holds.
pub open spec fn reset_registers(mem: Seq<u8>) -> Cpu {
    Cpu { pc: vector_target(mem, Interrupt::RESET), x: 0, y: 0, a: 0, s: 0, p: 0, data: 0 }
}

/// The bus right after `image` was loaded: cleared memory below the
/// program data of the image.
pub open spec fn loaded_memory(image: Seq<u8>) -> Seq<u8> {
    Seq::new(
        BUS_SIZE as nat,
        |addr: int|
            if addr < ROM_BASE {
                0u8
            } else {
                image_prg(image)[addr - ROM_BASE]
            },
    )
}

/// The processor and its bus, and how far the frame in progress has come.
/// The picture unit and its frame buffer stay with the host.
pub struct WasmEmulator {
    pub cpu: Cpu,
    pub cpu_sys: System,
    /// Cycles run since the frame in progress began.
    pub total_cycle: usize,
}

impl Default for WasmEmulator {
    fn default() -> (emulator: Self)
        ensures
            emulator.cpu == (Cpu { pc: 0, x: 0, y: 0, a: 0, s: 0, p: 0, data: 0 }),
            emulator.cpu_sys@ == Seq::new(BUS_SIZE as nat, |addr: int| 0u8),
            emulator.cpu_sys.rom.chr@.len() == 0,
            emulator.cpu_sys.pad1.buttons == 0,
            emulator.total_cycle == 0,
    {
        WasmEmulator { cpu: Cpu::new(), cpu_sys: System::new(), total_cycle: 0 }
    }
}

impl WasmEmulator {
    /// A console without a cartridge: registers and memory zero, no button
    /// held, no frame begun.
    pub fn new() -> (emulator: WasmEmulator)
        ensures
            emulator.cpu == (Cpu { pc: 0, x: 0, y: 0, a: 0, s: 0, p: 0, data: 0 }),
            emulator.cpu_sys@ == Seq::new(BUS_SIZE as nat, |addr: int| 0u8),
            emulator.cpu_sys.rom.chr@.len() == 0,
            emulator.cpu_sys.pad1.buttons == 0,
            emulator.total_cycle == 0,
    {
        WasmEmulator::default()
    }

    /// Bytes in a frame buffer: one for each colour of each pixel.
    pub fn get_fb_size(&self) -> (size: usize)
        ensures
            size == NUM_OF_COLOR * VISIBLE_SCREEN_WIDTH * VISIBLE_SCREEN_HEIGHT,
            size == 184320,
    {
        NUM_OF_COLOR * VISIBLE_SCREEN_WIDTH * VISIBLE_SCREEN_HEIGHT
    }

    /// Resets the console in place: registers and memory are cleared, every
    /// button is let go, the frame starts over, and the processor takes the
    /// reset interrupt. The cartridge stays.
    #[verifier::rlimit(50)]
    pub fn reset(&mut self)
        ensures
            final(self).cpu_sys@ == cleared(old(self).cpu_sys@),
            final(self).cpu == reset_registers(old(self).cpu_sys@),
            final(self).cpu_sys.rom == old(self).cpu_sys.rom,
            final(self).cpu_sys.pad1.buttons == 0,
            final(self).total_cycle == 0,
    {
        self.cpu.reset();
        self.cpu_sys.reset();
        self.cpu.interrupt(&mut self.cpu_sys, Interrupt::RESET);
        self.total_cycle = 0;
    }

    /// Loads a cartridge image. A valid image is loaded and the console is
    /// reset on it; any other is refused and leaves the console as it was.
    #[verifier::rlimit(50)]
    pub fn load(&mut self, binary: &[u8]) -> (success: bool)
        ensures
            success == image_valid(binary@),
            !success ==> *final(self) == *old(self),
            success ==> {
                &&& final(self).cpu_sys.rom.prg@ == image_prg(binary@)
                &&& final(self).cpu_sys.rom.chr@ == image_chr(binary@)
                &&& final(self).cpu_sys@ == loaded_memory(binary@)
                &&& final(self).cpu == reset_registers(loaded_memory(binary@))
                &&& final(self).cpu_sys.pad1.buttons == 0
                &&& final(self).total_cycle == 0
            },
    {
        let success = self.cpu_sys.rom.load_bin(binary);
        if success {
            self.reset();
        }
        success
    }

    /// One turn of the frame: takes the interrupt that the picture unit
    /// asked for after the last instruction, if any, and then either ends
    /// the frame, where its cycles are used up, or runs one instruction and
    /// returns its cycles, which the picture unit is to be run for.
    #[verifier::rlimit(50)]
    pub fn step_line(&mut self, request: Option<Interrupt>) -> (cycles: Option<usize>)
        ensures
            ({
                let m = delivered(
                    Machine { cpu: old(self).cpu, mem: old(self).cpu_sys@ },
                    request,
                );
                if old(self).total_cycle >= CYCLE_PER_DRAW_FRAME {
                    &&& cycles.is_none()
                    &&& final(self).cpu == m.cpu
                    &&& final(self).cpu_sys@ == m.mem
                    &&& final(self).total_cycle == 0
                } else {
                    let outcome = stepped(m.cpu, m.mem);
                    &&& 1 <= outcome.cycles <= 8
                    &&& cycles == Some(outcome.cycles as usize)
                    &&& final(self).cpu == outcome.cpu
                    &&& final(self).cpu_sys@ == outcome.mem
                    &&& final(self).total_cycle == old(self).total_cycle + outcome.cycles
                }
            }),
            final(self).cpu_sys.same_devices(old(self).cpu_sys),
    {
        match request {
            Some(irq) => {
                self.cpu.interrupt(&mut self.cpu_sys, irq);
            },
            None => {},
        }
        if self.total_cycle >= CYCLE_PER_DRAW_FRAME {
            self.total_cycle = 0;
            None
        } else {
            let cpu_cycle = self.cpu.step(&mut self.cpu_sys) as usize;
            self.total_cycle = self.total_cycle + cpu_cycle;
            Some(cpu_cycle)
        }
    }

    /// Passes a key event on to the first controller. Nothing else changes.
    pub fn update_key(&mut self, key: KeyEvent)
        ensures
            final(self).cpu_sys.pad1.pressed() == after_key(old(self).cpu_sys.pad1.pressed(), key),
            final(self).cpu == old(self).cpu,
            final(self).cpu_sys@ == old(self).cpu_sys@,
            final(self).cpu_sys.rom == old(self).cpu_sys.rom,
            final(self).total_cycle == old(self).total_cycle,
    {
        match key {
            KeyEvent::PressA => self.cpu_sys.pad1.push_button(PadButton::A),
            KeyEvent::PressB => self.cpu_sys.pad1.push_button(PadButton::B),
            KeyEvent::PressSelect => self.cpu_sys.pad1.push_button(PadButton::Select),
            KeyEvent::PressStart => self.cpu_sys.pad1.push_button(PadButton::Start),
            KeyEvent::PressUp => self.cpu_sys.pad1.push_button(PadButton::Up),
            KeyEvent::PressDown => self.cpu_sys.pad1.push_button(PadButton::Down),
            KeyEvent::PressLeft => self.cpu_sys.pad1.push_button(PadButton::Left),
            KeyEvent::PressRight => self.cpu_sys.pad1.push_button(PadButton::Right),
            KeyEvent::ReleaseA => self.cpu_sys.pad1.release_button(PadButton::A),
            KeyEvent::ReleaseB => self.cpu_sys.pad1.release_button(PadButton::B),
            KeyEvent::ReleaseSelect => self.cpu_sys.pad1.release_button(PadButton::Select),
            KeyEvent::ReleaseStart => self.cpu_sys.pad1.release_button(PadButton::Start),
            KeyEvent::ReleaseUp => self.cpu_sys.pad1.release_button(PadButton::Up),
            KeyEvent::ReleaseDown => self.cpu_sys.pad1.release_button(PadButton::Down),
            KeyEvent::ReleaseLeft => self.cpu_sys.pad1.release_button(PadButton::Left),
            KeyEvent::ReleaseRight => self.cpu_sys.pad1.release_button(PadButton::Right),
        }
    }
}

} // verus!
