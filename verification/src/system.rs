//! The bus: 32 KiB of memory that can be written, below the cartridge's
//! program data, which cannot.
use vstd::prelude::*;
use crate::pad::Pad;
use crate::rom::Rom;

verus! {

/// Addresses on the bus.
pub const BUS_SIZE: usize = 0x10000;

/// First address of the cartridge's program data. Everything below it is
/// memory that can be written.
pub const ROM_BASE: u16 = 0x8000;

/// What a read of `addr` returns on a bus that holds `mem`.
pub open spec fn bus_read(mem: Seq<u8>, addr: u16) -> u8 {
    mem[addr as int]
}

/// What the bus holds after `data` is written to `addr`: the byte is stored
/// below the program data, and dropped from there on.
pub open spec fn bus_write(mem: Seq<u8>, addr: u16, data: u8) -> Seq<u8> {
    if addr < ROM_BASE {
        mem.update(addr as int, data)
    } else {
        mem
    }
}

/// What the bus holds once its memory is cleared: zero below the program
/// data, and from there on what it held.
pub open spec fn cleared(mem: Seq<u8>) -> Seq<u8> {
    Seq::new(
        BUS_SIZE as nat,
        |addr: int|
            if addr < ROM_BASE {
                0u8
            } else {
                mem[addr]
            },
    )
}

/// The 16-bit value whose low byte is `lo` and whose high byte is `hi`.
pub open spec fn word(lo: u8, hi: u8) -> u16 {
    (lo + 256 * hi) as u16
}

/// What the processor is wired to: memory, the cartridge and a controller.
pub struct System {
    /// Bus addresses `0x0000` to `0x7fff`.
    pub ram: [u8; 0x8000],
    /// Bus addresses `0x8000` to `0xffff`.
    pub rom: Rom,
    /// The first controller.
    pub pad1: Pad,
}

impl View for System {
    type V = Seq<u8>;

    /// The byte behind each of the 65536 addresses.
    open spec fn view(&self) -> Seq<u8> {
        Seq::new(
            BUS_SIZE as nat,
            |addr: int|
                if addr < ROM_BASE {
                    self.ram@[addr]
                } else {
                    self.rom.prg@[addr - ROM_BASE]
                },
        )
    }
}

impl System {
    /// The cartridge and the controller of `self` are those of `other`.
    pub open spec fn same_devices(self, other: System) -> bool {
        self.rom == other.rom && self.pad1 == other.pad1
    }

    /// A bus with cleared memory, no cartridge and no button held.
    pub fn new() -> (system: System)
        ensures
            system@ == Seq::new(BUS_SIZE as nat, |addr: int| 0u8),
            system.rom.chr@.len() == 0,
            system.pad1.buttons == 0,
    {
        System { ram: [0u8; 0x8000], rom: Rom::new(), pad1: Pad::new() }
    }

    /// Clears the memory and lets every button go. The cartridge stays.
    pub fn reset(&mut self)
        ensures
            final(self)@ == cleared(old(self)@),
            final(self).rom == old(self).rom,
            final(self).pad1.buttons == 0,
    {
        self.ram = [0u8; 0x8000];
        self.pad1 = Pad::new();
    }

    /// Reads the byte at `addr`. No read on this bus has a side effect, so
    /// one made for inspection returns what any other returns.
    pub fn read_u8(&self, addr: u16, is_debug: bool) -> (data: u8)
        ensures
            data == bus_read(self@, addr),
    {
        if addr < ROM_BASE {
            self.ram[addr as usize]
        } else {
            self.rom.prg[(addr - ROM_BASE) as usize]
        }
    }

    /// Writes `data` to `addr`. Below the program data the byte is stored;
    /// from there on the write is dropped, whoever makes it.
    pub fn write_u8(&mut self, addr: u16, data: u8, is_debug: bool)
        ensures
            final(self)@ == bus_write(old(self)@, addr, data),
            final(self).same_devices(*old(self)),
    {
        if addr < ROM_BASE {
            self.ram[addr as usize] = data;
        }
    }

    /// Reads the 16-bit value whose low byte is at `lo` and whose high byte
    /// is at `hi`.
    pub fn read_u16(&self, lo: u16, hi: u16) -> (data: u16)
        ensures
            data == word(bus_read(self@, lo), bus_read(self@, hi)),
    {
        let low = self.read_u8(lo, false);
        let high = self.read_u8(hi, false);
        make_word(low, high)
    }
}

/// Joins two bytes into a 16-bit value.
pub fn make_word(lo: u8, hi: u8) -> (w: u16)
    ensures
        w == word(lo, hi),
{
    let w: u16 = (lo as u16) | ((hi as u16) << 8);
    assert(((lo as u16) | ((hi as u16) << 8)) == (lo as u16) + 256 * (hi as u16)) by (bit_vector);
    w
}

/// The low byte of a 16-bit value.
pub fn low_byte(w: u16) -> (lo: u8)
    ensures
        lo == w % 256,
{
    let lo: u8 = (w & 0xff) as u8;
    assert(w & 0xff == w % 256) by (bit_vector);
    lo
}

/// The high byte of a 16-bit value.
pub fn high_byte(w: u16) -> (hi: u8)
    ensures
        hi == w / 256,
{
    let hi: u8 = (w >> 8) as u8;
    assert(w >> 8 == w / 256) by (bit_vector);
    hi
}

} // verus!
