//! The mapper interface: how cartridge hardware translates CPU and PPU
//! addresses into its banks.  Only mapper 0 (NROM) is implemented.

use vstd::prelude::*;

verus! {

/// What cartridge hardware must answer on the two buses.  Each mapper
/// describes its reads with the two spec functions, so code driving any
/// mapper knows exactly what a read returns.
pub trait Mapper {
    /// The byte CPU reads at `addr` see.
    spec fn prg_value(&self, addr: u16) -> u8;

    /// The byte PPU reads at `addr` see.
    spec fn chr_value(&self, addr: u16) -> u8;

    /// A scanline has completed (some mappers count these for IRQs).
    fn signal_scanline(&mut self);

    fn read_prg_byte(&self, addr: u16) -> (r: u8)
        ensures
            r == self.prg_value(addr),
    ;

    fn write_prg_byte(&mut self, addr: u16, data: u8);

    fn read_chr_byte(&self, addr: u16) -> (r: u8)
        ensures
            r == self.chr_value(addr),
    ;

    fn write_chr_byte(&mut self, addr: u16, data: u8);
}

/// Mapper 0 (NROM): PRG appears at `0x8000..=0xFFFF` as
/// `(addr - 0x8000) mod prg_len`, so a 16 KiB image appears twice; all
/// writes are ignored.  The pattern tables live with the PPU, so this
/// mapper carries no CHR of its own.
pub struct Mapper0 {
    pub prg_rom: Vec<u8>,
}

impl Mapper0 {
    pub fn new(prg_rom: Vec<u8>) -> (r: Self)
        ensures
            r.prg_rom@ == prg_rom@,
    {
        Self { prg_rom }
    }
}

impl Mapper for Mapper0 {
    open spec fn prg_value(&self, addr: u16) -> u8 {
        if addr < 0x8000 || self.prg_rom@.len() == 0 {
            0
        } else {
            self.prg_rom@[(addr - 0x8000) % (self.prg_rom@.len() as int)]
        }
    }

    open spec fn chr_value(&self, addr: u16) -> u8 {
        0
    }

    fn signal_scanline(&mut self)
        ensures
            *final(self) == *old(self),
    {
    }

    fn read_prg_byte(&self, addr: u16) -> (r: u8)
        ensures
            r == self.prg_value(addr),
    {
        if addr < 0x8000 || self.prg_rom.len() == 0 {
            0
        } else {
            self.prg_rom[((addr - 0x8000) as usize) % self.prg_rom.len()]
        }
    }

    fn write_prg_byte(&mut self, addr: u16, data: u8)
        ensures
            *final(self) == *old(self),
    {
    }

    fn read_chr_byte(&self, addr: u16) -> (r: u8)
        ensures
            r == self.chr_value(addr),
    {
        0
    }

    fn write_chr_byte(&mut self, addr: u16, data: u8)
        ensures
            *final(self) == *old(self),
    {
    }
}

} // verus!
