//! The cartridge: a program image of one or two 16 KiB banks, and the
//! pattern data that comes with it.
use vstd::prelude::*;

verus! {

/// Bytes of the header that every image starts with.
pub const HEADER_SIZE: usize = 16;

/// Bytes of the trainer block that may follow the header.
pub const TRAINER_SIZE: usize = 512;

/// Bytes in one bank of program data.
pub const PRG_BANK_SIZE: usize = 0x4000;

/// Bytes in one bank of pattern data.
pub const CHR_BANK_SIZE: usize = 0x2000;

/// Bytes of address space that the program data fills.
pub const PRG_WINDOW: usize = 0x8000;

/// The image starts with a whole header that carries the format's signature.
pub open spec fn has_signature(image: Seq<u8>) -> bool {
    &&& image.len() >= HEADER_SIZE
    &&& image[0] == 0x4e
    &&& image[1] == 0x45
    &&& image[2] == 0x53
    &&& image[3] == 0x1a
}

/// Banks of program data that the header announces.
pub open spec fn prg_banks(image: Seq<u8>) -> int {
    image[4] as int
}

/// Banks of pattern data that the header announces.
pub open spec fn chr_banks(image: Seq<u8>) -> int {
    image[5] as int
}

/// The header announces a trainer block between itself and the program data.
pub open spec fn has_trainer(image: Seq<u8>) -> bool {
    image[6] & 0x04 != 0
}

/// Where the program data starts.
pub open spec fn prg_start(image: Seq<u8>) -> int {
    HEADER_SIZE + if has_trainer(image) {
        TRAINER_SIZE as int
    } else {
        0
    }
}

/// Where the pattern data starts.
pub open spec fn chr_start(image: Seq<u8>) -> int {
    prg_start(image) + prg_banks(image) * PRG_BANK_SIZE
}

/// Where the pattern data ends: the length the header asks for.
pub open spec fn image_end(image: Seq<u8>) -> int {
    chr_start(image) + chr_banks(image) * CHR_BANK_SIZE
}

/// An image can be loaded: it carries the signature, holds one or two banks
/// of program data, and is as long as its header says.
pub open spec fn image_valid(image: Seq<u8>) -> bool {
    &&& has_signature(image)
    &&& 1 <= prg_banks(image) <= 2
    &&& image.len() >= image_end(image)
}

/// The program data as the processor sees it from `0x8000` up: two banks as
/// they are, a single bank twice.
pub open spec fn image_prg(image: Seq<u8>) -> Seq<u8> {
    Seq::new(
        PRG_WINDOW as nat,
        |i: int| image[prg_start(image) + i % (prg_banks(image) * PRG_BANK_SIZE)],
    )
}

/// The pattern data of the image.
pub open spec fn image_chr(image: Seq<u8>) -> Seq<u8> {
    image.subrange(chr_start(image), image_end(image))
}

/// What a cartridge holds.
pub struct Rom {
    /// Program data, at bus addresses `0x8000` to `0xffff`.
    pub prg: [u8; 0x8000],
    /// Pattern data, for the picture unit.
    pub chr: Vec<u8>,
}

impl Rom {
    /// No cartridge: program data that reads as zero, no pattern data.
    pub fn new() -> (rom: Rom)
        ensures
            forall|i: int| 0 <= i < PRG_WINDOW ==> rom.prg@[i] == 0,
            rom.chr@.len() == 0,
    {
        Rom { prg: [0u8; 0x8000], chr: Vec::new() }
    }

    /// Checks `image` without loading anything.
    pub fn check_image(image: &[u8]) -> (ok: bool)
        ensures
            ok == image_valid(image@),
    {
        if image.len() < HEADER_SIZE {
            return false;
        }
        if image[0] != 0x4e || image[1] != 0x45 || image[2] != 0x53 || image[3] != 0x1a {
            return false;
        }
        let banks: usize = image[4] as usize;
        if banks < 1 || banks > 2 {
            return false;
        }
        let trainer: usize = if (image[6] & 0x04) != 0 {
            TRAINER_SIZE
        } else {
            0
        };
        let end: usize = HEADER_SIZE + trainer + banks * PRG_BANK_SIZE + (image[5] as usize)
            * CHR_BANK_SIZE;
        image.len() >= end
    }

    /// Loads `image`. A valid image replaces what the cartridge held; any
    /// other leaves it untouched.
    #[verifier::rlimit(50)]
    pub fn load_bin(&mut self, image: &[u8]) -> (ok: bool)
        ensures
            ok == image_valid(image@),
            ok ==> final(self).prg@ == image_prg(image@),
            ok ==> final(self).chr@ == image_chr(image@),
            !ok ==> *final(self) == *old(self),
    {
        if !Self::check_image(image) {
            return false;
        }
        let banks: usize = image[4] as usize;
        let start: usize = if (image[6] & 0x04) != 0 {
            HEADER_SIZE + TRAINER_SIZE
        } else {
            HEADER_SIZE
        };
        let size: usize = banks * PRG_BANK_SIZE;
        let chr_from: usize = start + size;
        let chr_to: usize = chr_from + (image[5] as usize) * CHR_BANK_SIZE;
        let mut i: usize = 0;
        while i < PRG_WINDOW
            invariant
                i <= PRG_WINDOW,
                image_valid(image@),
                size == prg_banks(image@) * PRG_BANK_SIZE,
                start == prg_start(image@),
                forall|k: int| 0 <= k < i ==> self.prg@[k] == image_prg(image@)[k],
            decreases PRG_WINDOW - i,
        {
            self.prg[i] = image[start + i % size];
            i += 1;
        }
        let mut chr: Vec<u8> = Vec::new();
        let mut j: usize = chr_from;
        while j < chr_to
            invariant
                chr_from <= j <= chr_to,
                chr_to <= image@.len(),
                chr@ == image@.subrange(chr_from as int, j as int),
            decreases chr_to - j,
        {
            chr.push(image[j]);
            j += 1;
        }
        self.chr = chr;
        true
    }
}

} // verus!
