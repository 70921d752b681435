use vstd::prelude::*;

use crate::program::Mirroring;

verus! {

/// What a cartridge's bank-switching chip does: it maps CPU and PPU addresses
/// in cartridge space to offsets into its ROM, takes bank-switch writes, and
/// says how the nametables are mirrored.
pub trait Mapper {
    /// Writes the PRG ROM offset for a CPU address; false where the address is
    /// not the cartridge's.
    fn prg_read_addr(&self, address: u16, cartridge_addr: &mut usize) -> (mapped: bool);

    /// Takes a CPU write in cartridge space.
    fn prg_write_addr(&mut self, address: u16, data: u8);

    /// Writes the CHR offset for a PPU address; false where the address is not
    /// in the pattern tables.
    fn chr_read_addr(&self, address: u16, cartridge_addr: &mut usize) -> (mapped: bool);

    /// Takes a PPU write in pattern-table space.
    fn chr_write_addr(&mut self, address: u16, data: u8);

    /// The nametable mirroring in force.
    fn mirroring(&self) -> Mirroring;
}

} // verus!
