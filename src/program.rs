use vstd::prelude::*;

pub mod mapper;
pub mod mapper000;
pub mod mapper001;

use mapper::Mapper;
use mapper000::Mapper000;
use mapper001::Mapper001;

verus! {

/// How the two KiB of nametable memory fill the four nametable slots.
#[derive(Clone, Copy, PartialEq, Eq, Structural, Debug)]
pub enum Mirroring {
    Horizontal,
    Vertical,
    OneScreenLower,
    OneScreenUpper,
}

pub const PRG_BLOCK_SIZE: usize = 16384;

pub const CHR_BLOCK_SIZE: usize = 8192;

/// Why a cartridge image was refused.
#[derive(Clone, Copy, PartialEq, Eq, Structural, Debug)]
pub enum CartridgeError {
    /// Shorter than a header, no PRG ROM, or an NROM image with more than 32 KiB.
    BadHeader,
    /// The file is shorter than its header says.
    Truncated,
    /// A mapper other than NROM (0) and MMC1 (1).
    UnsupportedMapper(u8),
}

/// The bank-switching chip that a cartridge carries.
pub enum MapperChip {
    Nrom(Mapper000),
    Mmc1(Mapper001),
}

impl MapperChip {
    pub open spec fn wf(&self) -> bool {
        match self {
            MapperChip::Nrom(m) => m.wf(),
            MapperChip::Mmc1(m) => m.wf(),
        }
    }

    pub open spec fn prg_target(&self, address: u16) -> Option<usize> {
        match self {
            MapperChip::Nrom(m) => m.prg_target(address),
            MapperChip::Mmc1(m) => m.prg_target(address),
        }
    }

    pub open spec fn chr_target(&self, address: u16) -> Option<usize> {
        match self {
            MapperChip::Nrom(m) => m.chr_target(address),
            MapperChip::Mmc1(m) => m.chr_target(address),
        }
    }

    pub open spec fn mirroring_spec(&self) -> Mirroring {
        match self {
            MapperChip::Nrom(m) => m.mirroring,
            MapperChip::Mmc1(m) => m.mirroring,
        }
    }

    pub open spec fn after_prg_write(&self, address: u16, data: u8) -> MapperChip {
        match self {
            MapperChip::Nrom(m) => MapperChip::Nrom(*m),
            MapperChip::Mmc1(m) => MapperChip::Mmc1(m.after_prg_write(address, data)),
        }
    }
}

/// A cartridge: PRG ROM, CHR ROM or RAM, and the mapper between them and the
/// consoles' address spaces.
pub struct Cartridge {
    pub prg_rom: Vec<u8>,
    pub chr_rom: Vec<u8>,
    /// Whether the pattern memory is RAM, which the PPU may write.
    pub chr_ram: bool,
    pub mapper: MapperChip,
}


/// The mapper number: high nibble from byte 7, low nibble from byte 6.
pub open spec fn header_mapper_id(b: Seq<u8>) -> u8 {
    ((b[7] & 0xF0) | (b[6] >> 4u8)) as u8
}

/// Where PRG ROM starts: after the header and the trainer, if there is one.
pub open spec fn prg_start(b: Seq<u8>) -> int {
    16 + if b[6] & 0x04 != 0 { 512int } else { 0int }
}

pub open spec fn prg_size(b: Seq<u8>) -> int {
    b[4] * PRG_BLOCK_SIZE
}

/// The bytes of CHR ROM that the file holds; none means CHR RAM.
pub open spec fn chr_size_in_file(b: Seq<u8>) -> int {
    b[5] * CHR_BLOCK_SIZE
}

/// Why an image is refused, if it is.
pub open spec fn image_error(b: Seq<u8>) -> Option<CartridgeError> {
    if b.len() < 16 {
        Some(CartridgeError::BadHeader)
    } else if header_mapper_id(b) != 0 && header_mapper_id(b) != 1 {
        Some(CartridgeError::UnsupportedMapper(header_mapper_id(b)))
    } else if b[4] == 0 || (header_mapper_id(b) == 0 && b[4] > 2) {
        Some(CartridgeError::BadHeader)
    } else if b.len() < prg_start(b) + prg_size(b) + chr_size_in_file(b) {
        Some(CartridgeError::Truncated)
    } else {
        None
    }
}

/// The mapper that a valid image's header asks for, at power-on.
pub open spec fn image_mapper(b: Seq<u8>) -> MapperChip {
    if header_mapper_id(b) == 0 {
        MapperChip::Nrom(
            Mapper000 {
                prg_amount: b[4] as usize,
                mirroring: if b[6] & 1 == 0 {
                    Mirroring::Horizontal
                } else {
                    Mirroring::Vertical
                },
            },
        )
    } else {
        MapperChip::Mmc1(Mapper001::fresh(b[4] as usize, b[5] as usize))
    }
}

/// Copies `len` bytes of `bytes` from `start` on.
fn copy_range(bytes: &Vec<u8>, start: usize, len: usize) -> (r: Vec<u8>)
    requires
        start + len <= bytes.len(),
    ensures
        r@ == bytes@.subrange(start as int, start + len),
{
    let mut r: Vec<u8> = Vec::new();
    let mut i: usize = 0;
    while i < len
        invariant
            start + len <= bytes.len(),
            i <= len,
            r@ == bytes@.subrange(start as int, start + i),
        decreases len - i,
    {
        r.push(bytes[start + i]);
        i = i + 1;
        assert(r@ =~= bytes@.subrange(start as int, start + i));
    }
    r
}

impl Cartridge {
    pub open spec fn wf(&self) -> bool {
        &&& self.prg_rom.len() > 0
        &&& self.chr_rom.len() > 0
        &&& self.mapper.wf()
    }

    /// The byte that a CPU read at `address` gets, where the cartridge answers.
    pub open spec fn prg_byte(&self, address: u16) -> Option<u8> {
        match self.mapper.prg_target(address) {
            Some(offset) => Some(self.prg_rom@[(offset as int) % (self.prg_rom@.len() as int)]),
            None => None,
        }
    }

    /// The byte at a pattern-table address; 0 outside the pattern tables.
    pub open spec fn chr_byte(&self, address: u16) -> u8 {
        match self.mapper.chr_target(address) {
            Some(offset) => self.chr_rom@[(offset as int) % (self.chr_rom@.len() as int)],
            None => 0,
        }
    }

    pub open spec fn mirroring_spec(&self) -> Mirroring {
        self.mapper.mirroring_spec()
    }

    /// Parses an iNES image: a 16-byte header, an optional 512-byte trainer, then
    /// PRG ROM in 16 KiB pages and CHR ROM in 8 KiB pages (none: 8 KiB of RAM).
    pub fn new(bytes: &Vec<u8>) -> (r: Result<Cartridge, CartridgeError>)
        ensures
            match r {
                Err(e) => image_error(bytes@) == Some(e),
                Ok(c) => {
                    &&& image_error(bytes@).is_none()
                    &&& c.wf()
                    &&& c.prg_rom@ == bytes@.subrange(
                        prg_start(bytes@),
                        prg_start(bytes@) + prg_size(bytes@),
                    )
                    &&& c.chr_ram == (bytes@[5] == 0)
                    &&& c.chr_rom@ == if bytes@[5] == 0 {
                        Seq::new(CHR_BLOCK_SIZE as nat, |i: int| 0u8)
                    } else {
                        bytes@.subrange(
                            prg_start(bytes@) + prg_size(bytes@),
                            prg_start(bytes@) + prg_size(bytes@) + chr_size_in_file(bytes@),
                        )
                    }
                    &&& c.mapper == image_mapper(bytes@)
                },
            },
    {
        if bytes.len() < 16 {
            return Err(CartridgeError::BadHeader);
        }
        let mapper_id = (bytes[7] & 0xF0) | (bytes[6] >> 4);
        if mapper_id != 0 && mapper_id != 1 {
            return Err(CartridgeError::UnsupportedMapper(mapper_id));
        }
        let prg_amount = bytes[4] as usize;
        let chr_amount = bytes[5] as usize;
        if prg_amount == 0 || (mapper_id == 0 && prg_amount > 2) {
            return Err(CartridgeError::BadHeader);
        }
        let prg_size = prg_amount * PRG_BLOCK_SIZE;
        let chr_file_size = chr_amount * CHR_BLOCK_SIZE;
        let start: usize = if bytes[6] & 0x04 != 0 {
            16 + 512
        } else {
            16
        };
        if bytes.len() < start + prg_size + chr_file_size {
            return Err(CartridgeError::Truncated);
        }
        let prg_rom = copy_range(bytes, start, prg_size);
        let chr_rom = if chr_amount == 0 {
            crate::ppu::zeroed(CHR_BLOCK_SIZE)
        } else {
            copy_range(bytes, start + prg_size, chr_file_size)
        };
        let mapper = if mapper_id == 0 {
            MapperChip::Nrom(Mapper000::new(prg_amount, bytes[6] & 1))
        } else {
            MapperChip::Mmc1(Mapper001::new(prg_amount, chr_amount))
        };
        proof {
            let f = bytes@[6];
            assert(f & 1 == 0 <==> (f & 1) & 1 == 0) by (bit_vector);
        }
        Ok(Cartridge { prg_rom, chr_rom, chr_ram: chr_amount == 0, mapper })
    }

    pub fn get_mirroring(&self) -> (m: Mirroring)
        ensures
            m == self.mirroring_spec(),
    {
        match &self.mapper {
            MapperChip::Nrom(m) => m.mirroring(),
            MapperChip::Mmc1(m) => m.mirroring(),
        }
    }

    /// Reads PRG ROM at a CPU address; `data` keeps its value where the
    /// cartridge does not answer.
    pub fn read_prg_rom(&self, address: u16, data: &mut u8)
        requires
            self.wf(),
        ensures
            *final(data) == match self.prg_byte(address) {
                Some(v) => v,
                None => *old(data),
            },
    {
        let mut cartridge_addr: usize = 0;
        let mapped = match &self.mapper {
            MapperChip::Nrom(m) => m.prg_read_addr(address, &mut cartridge_addr),
            MapperChip::Mmc1(m) => m.prg_read_addr(address, &mut cartridge_addr),
        };
        if mapped {
            *data = self.prg_rom[cartridge_addr % self.prg_rom.len()];
        }
    }

    /// Reads the pattern tables; `data` keeps its value outside them.
    pub fn read_chr_rom(&self, address: u16, data: &mut u8)
        requires
            self.wf(),
        ensures
            *final(data) == match self.mapper.chr_target(address) {
                Some(o) => self.chr_rom@[(o as int) % (self.chr_rom@.len() as int)],
                None => *old(data),
            },
    {
        let mut cartridge_addr: usize = 0;
        let mapped = match &self.mapper {
            MapperChip::Nrom(m) => m.chr_read_addr(address, &mut cartridge_addr),
            MapperChip::Mmc1(m) => m.chr_read_addr(address, &mut cartridge_addr),
        };
        if mapped {
            *data = self.chr_rom[cartridge_addr % self.chr_rom.len()];
        }
    }

    /// A CPU write in cartridge space: it goes to the mapper's registers.
    pub fn write_prg_rom(&mut self, address: u16, data: u8)
        requires
            old(self).wf(),
        ensures
            final(self).wf(),
            final(self).prg_rom == old(self).prg_rom,
            final(self).chr_rom == old(self).chr_rom,
            final(self).chr_ram == old(self).chr_ram,
            final(self).mapper == old(self).mapper.after_prg_write(address, data),
    {
        match &mut self.mapper {
            MapperChip::Nrom(m) => m.prg_write_addr(address, data),
            MapperChip::Mmc1(m) => m.prg_write_addr(address, data),
        }
    }

    /// A PPU write to the pattern tables: it lands where the mapper points if
    /// the pattern memory is RAM.
    pub fn write_chr_rom(&mut self, address: u16, data: u8)
        requires
            old(self).wf(),
        ensures
            final(self).wf(),
            final(self).prg_rom == old(self).prg_rom,
            final(self).chr_ram == old(self).chr_ram,
            final(self).mapper == old(self).mapper,
            final(self).chr_rom@ == match old(self).mapper.chr_target(address) {
                Some(o) => if old(self).chr_ram {
                    old(self).chr_rom@.update((o as int) % (old(self).chr_rom@.len() as int), data)
                } else {
                    old(self).chr_rom@
                },
                None => old(self).chr_rom@,
            },
    {
        let mut cartridge_addr: usize = 0;
        let mapped = match &mut self.mapper {
            MapperChip::Nrom(m) => {
                m.chr_write_addr(address, data);
                m.chr_read_addr(address, &mut cartridge_addr)
            },
            MapperChip::Mmc1(m) => {
                m.chr_write_addr(address, data);
                m.chr_read_addr(address, &mut cartridge_addr)
            },
        };
        if mapped && self.chr_ram {
            let len = self.chr_rom.len();
            self.chr_rom.set(cartridge_addr % len, data);
        }
    }
}

} // verus!
