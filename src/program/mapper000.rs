use vstd::prelude::*;

use super::mapper::Mapper;
use crate::program::Mirroring;

verus! {

/// NROM: 16 or 32 KiB of fixed PRG ROM and 8 KiB of fixed CHR.
pub struct Mapper000 {
    pub prg_amount: usize,
    pub mirroring: Mirroring,
}

impl Mapper000 {
    pub open spec fn wf(&self) -> bool {
        self.prg_amount == 1 || self.prg_amount == 2
    }

    /// The PRG offset that a CPU address maps to.
    pub open spec fn prg_target(&self, address: u16) -> Option<usize> {
        if address >= 0x8000 {
            Some((if self.prg_amount == 1 { address & 0x3FFF } else { address & 0x7FFF }) as usize)
        } else {
            None
        }
    }

    /// The CHR offset that a PPU address maps to.
    pub open spec fn chr_target(&self, address: u16) -> Option<usize> {
        if address < 0x2000 {
            Some(address as usize)
        } else {
            None
        }
    }

    /// `mirroring_bit` is bit 0 of the header's flags: 0 horizontal, 1 vertical.
    pub fn new(prg_amount: usize, mirroring_bit: u8) -> (r: Self)
        requires
            prg_amount == 1 || prg_amount == 2,
        ensures
            r.wf(),
            r.prg_amount == prg_amount,
            r.mirroring == (if mirroring_bit & 1 == 0 {
                Mirroring::Horizontal
            } else {
                Mirroring::Vertical
            }),
    {
        let mirroring = if mirroring_bit & 1 == 0 {
            Mirroring::Horizontal
        } else {
            Mirroring::Vertical
        };
        Mapper000 { prg_amount, mirroring }
    }
}

impl Mapper for Mapper000 {
    fn prg_read_addr(&self, address: u16, cartridge_addr: &mut usize) -> (mapped: bool)
        ensures
            mapped == self.prg_target(address).is_some(),
            mapped ==> *final(cartridge_addr) == self.prg_target(address).unwrap(),
            !mapped ==> *final(cartridge_addr) == *old(cartridge_addr),
    {
        if address >= 0x8000 {
            *cartridge_addr = if self.prg_amount == 1 {
                address & 0x3FFF
            } else {
                address & 0x7FFF
            } as usize;
            return true;
        }
        false
    }

    fn prg_write_addr(&mut self, address: u16, data: u8)
        ensures
            *final(self) == *old(self),
    {
    }

    fn chr_read_addr(&self, address: u16, cartridge_addr: &mut usize) -> (mapped: bool)
        ensures
            mapped == self.chr_target(address).is_some(),
            mapped ==> *final(cartridge_addr) == self.chr_target(address).unwrap(),
            !mapped ==> *final(cartridge_addr) == *old(cartridge_addr),
    {
        if address < 0x2000 {
            *cartridge_addr = address as usize;
            return true;
        }
        false
    }

    fn chr_write_addr(&mut self, address: u16, data: u8)
        ensures
            *final(self) == *old(self),
    {
    }

    fn mirroring(&self) -> (m: Mirroring)
        ensures
            m == self.mirroring,
    {
        self.mirroring
    }
}

} // verus!
