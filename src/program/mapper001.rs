use vstd::prelude::*;

use super::mapper::Mapper;
use crate::program::Mirroring;

verus! {

pub const PRG_BLOCK_SIZE: usize = 16384;

pub const CHR_HALF_BLOCK_SIZE: usize = 4096;

/// How the PRG window at 0x8000..0xFFFF is switched.
#[derive(Clone, Copy, PartialEq, Eq, Structural, Debug)]
pub enum PrgMode {
    /// One 32 KiB bank.
    Switch32,
    /// 0x8000 fixed to the first bank, 0xC000 switched.
    FixFirst16,
    /// 0x8000 switched, 0xC000 fixed to the last bank.
    FixLast16,
}

/// How the pattern-table window is switched.
#[derive(Clone, Copy, PartialEq, Eq, Structural, Debug)]
pub enum ChrMode {
    /// Two 4 KiB banks.
    K4,
    /// One 8 KiB bank.
    K8,
}

/// MMC1: bank registers loaded five bits at a time through a serial port.
pub struct Mapper001 {
    pub prg_amount: usize,
    pub chr_amount: usize,
    /// 4 KiB bank numbers for 0x0000 and 0x1000 of the pattern tables.
    pub chr_bank_0: usize,
    pub chr_bank_1: usize,
    /// PRG offsets for 0x8000 and 0xC000.
    pub low_bank_offset: usize,
    pub high_bank_offset: usize,
    /// The serial shift register, filled from bit 4 downwards.
    pub shift_reg: u8,
    /// How many bits the shift register holds.
    pub prg_wrt_counter: u8,
    pub mirroring: Mirroring,
    pub prg_bank_mode: PrgMode,
    pub chr_bank_mode: ChrMode,
}

/// The shift register after one more bit, taken from bit 0 of `data`.
pub open spec fn shift_in(shift: u8, data: u8) -> u8 {
    ((shift >> 1u8) | ((data & 1u8) << 4u8)) as u8
}

/// The mirroring that bits 0..1 of the control register select.
pub open spec fn control_mirroring(value: u8) -> Mirroring {
    let m = value & 3;
    if m == 0 {
        Mirroring::OneScreenLower
    } else if m == 1 {
        Mirroring::OneScreenUpper
    } else if m == 2 {
        Mirroring::Vertical
    } else {
        Mirroring::Horizontal
    }
}

/// The PRG mode that bits 2..3 of the control register select.
pub open spec fn control_prg_mode(value: u8) -> PrgMode {
    let m = (value >> 2u8) & 3;
    if m <= 1 {
        PrgMode::Switch32
    } else if m == 2 {
        PrgMode::FixFirst16
    } else {
        PrgMode::FixLast16
    }
}

impl Mapper001 {
    /// The mapper at power-on: last bank fixed at 0xC000, 8 KiB CHR mode.
    pub open spec fn fresh(prg_amount: usize, chr_amount: usize) -> Mapper001 {
        Mapper001 {
            prg_amount,
            chr_amount,
            chr_bank_0: 0,
            chr_bank_1: 0,
            low_bank_offset: 0,
            high_bank_offset: ((prg_amount - 1) * PRG_BLOCK_SIZE) as usize,
            shift_reg: 0,
            prg_wrt_counter: 0,
            mirroring: Mirroring::OneScreenLower,
            prg_bank_mode: PrgMode::FixLast16,
            chr_bank_mode: ChrMode::K8,
        }
    }

    pub open spec fn wf(&self) -> bool {
        &&& 1 <= self.prg_amount <= 255
        &&& self.chr_bank_0 < 32
        &&& self.chr_bank_1 < 32
        &&& self.low_bank_offset <= 255 * PRG_BLOCK_SIZE
        &&& self.high_bank_offset <= 255 * PRG_BLOCK_SIZE
        &&& self.shift_reg < 32
        &&& self.prg_wrt_counter < 5
    }

    /// The offset of the last 16 KiB bank.
    pub open spec fn last_bank_offset(&self) -> usize {
        ((self.prg_amount - 1) * PRG_BLOCK_SIZE) as usize
    }

    /// The mapper after a write with bit 7 set: the serial port is emptied and
    /// the last bank is fixed at 0xC000.
    pub open spec fn after_reset(&self) -> Mapper001 {
        Mapper001 {
            low_bank_offset: 0,
            high_bank_offset: self.last_bank_offset(),
            shift_reg: 0,
            prg_wrt_counter: 0,
            prg_bank_mode: PrgMode::FixLast16,
            ..*self
        }
    }

    /// The mapper after a five-bit `value` is latched into the register that
    /// `address` selects; the serial port is then empty.
    pub open spec fn load_register(&self, address: u16, value: u8) -> Mapper001 {
        let cleared = Mapper001 { shift_reg: 0, prg_wrt_counter: 0, ..*self };
        if address < 0xA000 {
            let mode = control_prg_mode(value);
            Mapper001 {
                mirroring: control_mirroring(value),
                prg_bank_mode: mode,
                chr_bank_mode: if value & 0x10 == 0 { ChrMode::K8 } else { ChrMode::K4 },
                low_bank_offset: if mode == PrgMode::FixFirst16 { 0 } else { self.low_bank_offset },
                high_bank_offset: if mode == PrgMode::FixLast16 {
                    self.last_bank_offset()
                } else {
                    self.high_bank_offset
                },
                ..cleared
            }
        } else if address < 0xC000 {
            match self.chr_bank_mode {
                ChrMode::K4 => Mapper001 { chr_bank_0: value as usize, ..cleared },
                ChrMode::K8 => Mapper001 {
                    chr_bank_0: (value & 0x1E) as usize,
                    chr_bank_1: ((value & 0x1E) + 1) as usize,
                    ..cleared
                },
            }
        } else if address < 0xE000 {
            match self.chr_bank_mode {
                ChrMode::K4 => Mapper001 { chr_bank_1: value as usize, ..cleared },
                ChrMode::K8 => cleared,
            }
        } else {
            match self.prg_bank_mode {
                PrgMode::FixFirst16 => Mapper001 {
                    high_bank_offset: (value as usize * PRG_BLOCK_SIZE) as usize,
                    ..cleared
                },
                PrgMode::FixLast16 => Mapper001 {
                    low_bank_offset: (value as usize * PRG_BLOCK_SIZE) as usize,
                    ..cleared
                },
                PrgMode::Switch32 => Mapper001 {
                    low_bank_offset: ((value & 0x1E) as usize * PRG_BLOCK_SIZE) as usize,
                    high_bank_offset: (((value & 0x1E) as usize + 1) * PRG_BLOCK_SIZE) as usize,
                    ..cleared
                },
            }
        }
    }

    /// The mapper after a CPU write of `data` at `address`.
    pub open spec fn after_prg_write(&self, address: u16, data: u8) -> Mapper001 {
        if address < 0x8000 {
            *self
        } else if data & 0x80 != 0 {
            self.after_reset()
        } else if self.prg_wrt_counter == 4 {
            self.load_register(address, shift_in(self.shift_reg, data))
        } else {
            Mapper001 {
                shift_reg: shift_in(self.shift_reg, data),
                prg_wrt_counter: (self.prg_wrt_counter + 1) as u8,
                ..*self
            }
        }
    }

    /// The PRG offset that a CPU address maps to.
    pub open spec fn prg_target(&self, address: u16) -> Option<usize> {
        if address >= 0x8000 && address < 0xC000 {
            Some((self.low_bank_offset + (address & 0x3FFF)) as usize)
        } else if address >= 0xC000 {
            Some((self.high_bank_offset + (address & 0x3FFF)) as usize)
        } else {
            None
        }
    }

    /// The CHR offset that a PPU address maps to.
    pub open spec fn chr_target(&self, address: u16) -> Option<usize> {
        if address < 0x1000 {
            Some((self.chr_bank_0 * CHR_HALF_BLOCK_SIZE + address) as usize)
        } else if address < 0x2000 {
            Some((self.chr_bank_1 * CHR_HALF_BLOCK_SIZE + (address & 0x0FFF)) as usize)
        } else {
            None
        }
    }

    pub fn new(prg_amount: usize, chr_amount: usize) -> (r: Self)
        requires
            1 <= prg_amount <= 255,
        ensures
            r.wf(),
            r == Mapper001::fresh(prg_amount, chr_amount),
    {
        Mapper001 {
            prg_amount,
            chr_amount,
            chr_bank_0: 0,
            chr_bank_1: 0,
            low_bank_offset: 0,
            high_bank_offset: (prg_amount - 1) * PRG_BLOCK_SIZE,
            shift_reg: 0,
            prg_wrt_counter: 0,
            mirroring: Mirroring::OneScreenLower,
            prg_bank_mode: PrgMode::FixLast16,
            chr_bank_mode: ChrMode::K8,
        }
    }

    fn reset(&mut self)
        requires
            old(self).wf(),
        ensures
            *final(self) == old(self).after_reset(),
            final(self).wf(),
    {
        self.low_bank_offset = 0;
        self.high_bank_offset = (self.prg_amount - 1) * PRG_BLOCK_SIZE;
        self.shift_reg = 0;
        self.prg_wrt_counter = 0;
        self.prg_bank_mode = PrgMode::FixLast16;
    }

    /// Latches a full five-bit value into the register at `address`.
    fn load(&mut self, address: u16, value: u8)
        requires
            old(self).wf(),
            address >= 0x8000,
            value < 32,
        ensures
            *final(self) == old(self).load_register(address, value),
            final(self).wf(),
    {
        if address < 0xA000 {
            let m = value & 3;
            self.mirroring = if m == 0 {
                Mirroring::OneScreenLower
            } else if m == 1 {
                Mirroring::OneScreenUpper
            } else if m == 2 {
                Mirroring::Vertical
            } else {
                Mirroring::Horizontal
            };
            let p = (value >> 2) & 3;
            if p <= 1 {
                self.prg_bank_mode = PrgMode::Switch32;
            } else if p == 2 {
                self.low_bank_offset = 0;
                self.prg_bank_mode = PrgMode::FixFirst16;
            } else {
                self.high_bank_offset = (self.prg_amount - 1) * PRG_BLOCK_SIZE;
                self.prg_bank_mode = PrgMode::FixLast16;
            }
            self.chr_bank_mode = if value & 0x10 == 0 {
                ChrMode::K8
            } else {
                ChrMode::K4
            };
        } else if address < 0xC000 {
            match self.chr_bank_mode {
                ChrMode::K4 => {
                    self.chr_bank_0 = value as usize;
                },
                ChrMode::K8 => {
                    proof {
                        crate::bits::lemma_u8_bits(value);
                    }
                    self.chr_bank_0 = (value & 0x1E) as usize;
                    self.chr_bank_1 = (value & 0x1E) as usize + 1;
                },
            }
        } else if address < 0xE000 {
            match self.chr_bank_mode {
                ChrMode::K4 => {
                    self.chr_bank_1 = value as usize;
                },
                ChrMode::K8 => {},
            }
        } else {
            proof {
                crate::bits::lemma_u8_bits(value);
            }
            match self.prg_bank_mode {
                PrgMode::FixFirst16 => {
                    self.high_bank_offset = value as usize * PRG_BLOCK_SIZE;
                },
                PrgMode::FixLast16 => {
                    self.low_bank_offset = value as usize * PRG_BLOCK_SIZE;
                },
                PrgMode::Switch32 => {
                    self.low_bank_offset = (value & 0x1E) as usize * PRG_BLOCK_SIZE;
                    self.high_bank_offset = ((value & 0x1E) as usize + 1) * PRG_BLOCK_SIZE;
                },
            }
        }
        self.shift_reg = 0;
        self.prg_wrt_counter = 0;
    }
}

impl Mapper for Mapper001 {
    fn prg_read_addr(&self, address: u16, cartridge_addr: &mut usize) -> (mapped: bool)
        ensures
            self.wf() ==> mapped == self.prg_target(address).is_some(),
            self.wf() && mapped ==> *final(cartridge_addr) == self.prg_target(address).unwrap(),
            !mapped ==> *final(cartridge_addr) == *old(cartridge_addr),
    {
        if address >= 0x8000 && address < 0xC000 && self.low_bank_offset <= 255 * PRG_BLOCK_SIZE {
            *cartridge_addr = self.low_bank_offset + (address & 0x3FFF) as usize;
            return true;
        }
        if address >= 0xC000 && self.high_bank_offset <= 255 * PRG_BLOCK_SIZE {
            *cartridge_addr = self.high_bank_offset + (address & 0x3FFF) as usize;
            return true;
        }
        false
    }

    fn prg_write_addr(&mut self, address: u16, data: u8)
        ensures
            old(self).wf() ==> *final(self) == old(self).after_prg_write(address, data),
            old(self).wf() ==> final(self).wf(),
    {
        if !(1 <= self.prg_amount && self.prg_amount <= 255 && self.chr_bank_0 < 32
            && self.chr_bank_1 < 32 && self.low_bank_offset <= 255 * PRG_BLOCK_SIZE
            && self.high_bank_offset <= 255 * PRG_BLOCK_SIZE && self.shift_reg < 32
            && self.prg_wrt_counter < 5) {
            return ;
        }
        if address < 0x8000 {
            return ;
        }
        if data & 0x80 != 0 {
            self.reset();
            return ;
        }
        let old_shift = self.shift_reg;
        let shift = (old_shift >> 1) | ((data & 1) << 4);
        assert(shift < 32) by (bit_vector)
            requires
                shift == ((old_shift >> 1u8) | ((data & 1u8) << 4u8)) as u8,
                old_shift < 32,
        ;
        if self.prg_wrt_counter == 4 {
            self.load(address, shift);
        } else {
            self.shift_reg = shift;
            self.prg_wrt_counter = self.prg_wrt_counter + 1;
        }
    }

    fn chr_read_addr(&self, address: u16, cartridge_addr: &mut usize) -> (mapped: bool)
        ensures
            self.wf() ==> mapped == self.chr_target(address).is_some(),
            self.wf() && mapped ==> *final(cartridge_addr) == self.chr_target(address).unwrap(),
            !mapped ==> *final(cartridge_addr) == *old(cartridge_addr),
    {
        if address < 0x1000 && self.chr_bank_0 < 32 {
            *cartridge_addr = self.chr_bank_0 * CHR_HALF_BLOCK_SIZE + address as usize;
            return true;
        }
        if address >= 0x1000 && address < 0x2000 && self.chr_bank_1 < 32 {
            *cartridge_addr = self.chr_bank_1 * CHR_HALF_BLOCK_SIZE + (address & 0x0FFF) as usize;
            return true;
        }
        false
    }

    fn chr_write_addr(&mut self, address: u16, data: u8)
        ensures
            *final(self) == *old(self),
    {
    }

    fn mirroring(&self) -> (m: Mirroring)
        ensures
            m == self.mirroring,
    {
        self.mirroring
    }
}

/// Five bit writes without bit 7, starting from an empty serial port, load the
/// register that the last write's address selects with the five data bits,
/// first write in bit 0; the port is then empty again.
pub proof fn lemma_five_writes_load(
    m: Mapper001,
    a0: u16,
    a1: u16,
    a2: u16,
    a3: u16,
    a4: u16,
    d0: u8,
    d1: u8,
    d2: u8,
    d3: u8,
    d4: u8,
)
    requires
        m.wf(),
        m.prg_wrt_counter == 0,
        a0 >= 0x8000 && a1 >= 0x8000 && a2 >= 0x8000 && a3 >= 0x8000 && a4 >= 0x8000,
        d0 & 0x80 == 0 && d1 & 0x80 == 0 && d2 & 0x80 == 0 && d3 & 0x80 == 0 && d4 & 0x80 == 0,
    ensures
        ({
            let m5 = m.after_prg_write(a0, d0).after_prg_write(a1, d1).after_prg_write(
                a2,
                d2,
            ).after_prg_write(a3, d3).after_prg_write(a4, d4);
            &&& m5 == m.load_register(
                a4,
                ((d0 & 1) | ((d1 & 1) << 1u8) | ((d2 & 1) << 2u8) | ((d3 & 1) << 3u8) | ((d4 & 1)
                    << 4u8)) as u8,
            )
            &&& m5.prg_wrt_counter == 0
            &&& m5.shift_reg == 0
        }),
{
    let s0 = m.shift_reg;
    let s1 = shift_in(s0, d0);
    let s2 = shift_in(s1, d1);
    let s3 = shift_in(s2, d2);
    let s4 = shift_in(s3, d3);
    let s5 = shift_in(s4, d4);
    assert(s5 == ((d0 & 1) | ((d1 & 1) << 1u8) | ((d2 & 1) << 2u8) | ((d3 & 1) << 3u8) | ((d4 & 1)
        << 4u8)) as u8) by (bit_vector)
        requires
            s1 == ((s0 >> 1u8) | ((d0 & 1u8) << 4u8)) as u8,
            s2 == ((s1 >> 1u8) | ((d1 & 1u8) << 4u8)) as u8,
            s3 == ((s2 >> 1u8) | ((d2 & 1u8) << 4u8)) as u8,
            s4 == ((s3 >> 1u8) | ((d3 & 1u8) << 4u8)) as u8,
            s5 == ((s4 >> 1u8) | ((d4 & 1u8) << 4u8)) as u8,
            s0 < 32,
    ;
}

/// A write with bit 7 set empties the serial port and fixes the last bank at
/// 0xC000, whatever came before.
pub proof fn lemma_reset_write(m: Mapper001, address: u16, data: u8)
    requires
        address >= 0x8000,
        data & 0x80 != 0,
    ensures
        m.after_prg_write(address, data).prg_bank_mode == PrgMode::FixLast16,
        m.after_prg_write(address, data).prg_wrt_counter == 0,
        m.after_prg_write(address, data).shift_reg == 0,
        m.after_prg_write(address, data).high_bank_offset == m.last_bank_offset(),
{
}

} // verus!
