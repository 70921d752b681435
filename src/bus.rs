use vstd::prelude::*;

use crate::bits::lemma_u16_bits;
use crate::control::Controller;
use crate::ppu::Ppu;
use crate::program::Cartridge;

verus! {

/// The CPU's 16-bit address space: 2 KiB of RAM, the PPU registers, the
/// controller port, the OAM DMA port and the cartridge. It also runs OAM DMA.
pub struct Bus {
    /// 2 KiB of CPU RAM, mirrored over 0x0000..0x1FFF.
    pub cpu_ram: Vec<u8>,
    /// The PPU, which holds the cartridge.
    pub ppu: Ppu,
    pub controller_a: Controller,
    /// The last byte on the data bus, which unmapped reads return.
    pub previous_data: u8,
    pub dma_enable: bool,
    /// Set while DMA waits for an odd cycle to start on.
    pub dma_wait_clock: bool,
    /// The source page of DMA, as an address (page << 8).
    pub oam_page: u16,
    /// The DMA byte counter, which is also the OAM address written.
    pub oam_addr: u8,
    /// The byte that DMA read and will write next.
    pub oam_data: u8,
}

impl Bus {
    pub open spec fn wf(&self) -> bool {
        &&& self.cpu_ram.len() == 0x0800
        &&& self.ppu.wf()
        &&& self.oam_page & 0xFF == 0
    }

    /// That `after` has the PPU at the same dot of the same frame.
    pub open spec fn keeps_timing(&self, after: &Bus) -> bool {
        &&& after.ppu.cycle == self.ppu.cycle
        &&& after.ppu.skanline == self.ppu.skanline
        &&& after.ppu.frame_complete == self.ppu.frame_complete
    }

    /// The cartridge's answer to a CPU read, if it gives one.
    pub open spec fn cartridge_byte(&self, address: u16) -> Option<u8> {
        match self.ppu.cartridge {
            Some(c) => c.prg_byte(address),
            None => None,
        }
    }

    /// What a CPU read of `address` returns.
    pub open spec fn read_value(&self, address: u16) -> u8 {
        if address <= 0x1FFF {
            self.cpu_ram@[(address & 0x07FF) as int]
        } else if address <= 0x3FFF {
            self.ppu.read_result(address & 0x0007)
        } else if address == 0x4016 {
            self.controller_a.bit_spec()
        } else if address == 0x4017 {
            0
        } else if address >= 0x4020 {
            match self.cartridge_byte(address) {
                Some(v) => v,
                None => self.previous_data,
            }
        } else {
            self.previous_data
        }
    }

    /// The bus after a CPU read of `address`: reads of PPU registers and of the
    /// controller have effects, and the byte read stays on the data bus.
    pub open spec fn after_read(&self, address: u16) -> Bus {
        let v = self.read_value(address);
        if 0x2000 <= address <= 0x3FFF {
            Bus { ppu: self.ppu.after_cpu_read(address & 0x0007), previous_data: v, ..*self }
        } else if address == 0x4016 {
            Bus { controller_a: self.controller_a.after_read(), previous_data: v, ..*self }
        } else {
            Bus { previous_data: v, ..*self }
        }
    }

    /// That `after` is this bus after a CPU write of `data` at `address`.
    pub open spec fn written(&self, after: &Bus, address: u16, data: u8) -> bool {
        &&& after.wf()
        &&& after.previous_data == data
        &&& if address <= 0x1FFF {
            &&& after.cpu_ram@ == self.cpu_ram@.update((address & 0x07FF) as int, data)
            &&& *after == (Bus { cpu_ram: after.cpu_ram, previous_data: data, ..*self })
        } else if address <= 0x3FFF {
            &&& self.ppu.register_written(&after.ppu, address & 0x0007, data)
            &&& *after == (Bus { ppu: after.ppu, previous_data: data, ..*self })
        } else if address == 0x4014 {
            *after == (Bus {
                dma_enable: true,
                dma_wait_clock: true,
                oam_page: ((data as u16) << 8u16) as u16,
                oam_addr: 0,
                previous_data: data,
                ..*self
            })
        } else if address == 0x4016 {
            *after == (Bus {
                controller_a: self.controller_a.after_strobe(data & 1 != 0),
                previous_data: data,
                ..*self
            })
        } else if address >= 0x4020 {
            &&& after.cpu_ram == self.cpu_ram
            &&& after.controller_a == self.controller_a
            &&& after.dma_enable == self.dma_enable
            &&& after.dma_wait_clock == self.dma_wait_clock
            &&& after.oam_page == self.oam_page
            &&& after.oam_addr == self.oam_addr
            &&& after.oam_data == self.oam_data
            &&& match (self.ppu.cartridge, after.ppu.cartridge) {
                (Some(c), Some(d)) => {
                    &&& d.prg_rom == c.prg_rom
                    &&& d.chr_rom == c.chr_rom
                    &&& d.chr_ram == c.chr_ram
                    &&& d.mapper == c.mapper.after_prg_write(address, data)
                },
                (None, None) => true,
                _ => false,
            }
            &&& after.ppu == (Ppu { cartridge: after.ppu.cartridge, ..self.ppu })
        } else {
            *after == (Bus { previous_data: data, ..*self })
        }
    }

    pub fn new(controller_a: Controller, ppu: Ppu) -> (r: Bus)
        requires
            ppu.wf(),
        ensures
            r.wf(),
            r.cpu_ram@ == Seq::new(0x0800, |i: int| 0u8),
            r.ppu == ppu,
            r.controller_a == controller_a,
            r.previous_data == 0,
            !r.dma_enable,
            r.dma_wait_clock,
            r.oam_page == 0,
            r.oam_addr == 0,
    {
        proof {
            lemma_u16_bits(0);
        }
        Bus {
            cpu_ram: crate::ppu::zeroed(0x0800),
            ppu,
            controller_a,
            previous_data: 0,
            dma_enable: false,
            dma_wait_clock: true,
            oam_page: 0,
            oam_addr: 0,
            oam_data: 0,
        }
    }

    /// Plugs in a cartridge, for both the CPU and the PPU side.
    pub fn insert_cartridge(&mut self, cartridge: Cartridge)
        requires
            old(self).wf(),
            cartridge.wf(),
        ensures
            final(self).wf(),
            *final(self) == (Bus {
                ppu: Ppu { cartridge: Some(cartridge), ..old(self).ppu },
                ..*old(self)
            }),
    {
        self.ppu.insert_cartridge(cartridge);
    }

    /// A read without side effects, for a debugger.
    pub fn read_only_data(&self, address: u16) -> (r: u8)
        requires
            self.wf(),
        ensures
            r == if address <= 0x1FFF {
                self.cpu_ram@[(address & 0x07FF) as int]
            } else if address <= 0x3FFF {
                if address & 7 == 0 {
                    self.ppu.control
                } else if address & 7 == 1 {
                    self.ppu.mask
                } else if address & 7 == 2 {
                    self.ppu.status
                } else if address & 7 == 7 {
                    self.ppu.data_buffer
                } else {
                    0
                }
            } else if address == 0x4016 {
                self.controller_a.register
            } else if address >= 0x4020 {
                match self.cartridge_byte(address) {
                    Some(v) => v,
                    None => 0,
                }
            } else {
                0
            },
    {
        let mut data: u8 = 0;
        if address <= 0x1FFF {
            proof {
                lemma_ram_index(address);
            }
            data = self.cpu_ram[(address & 0x07FF) as usize];
        } else if address <= 0x3FFF {
            data = self.ppu.cpu_read_only(address & 0x0007);
        } else if address == 0x4016 {
            data = self.controller_a.read_register();
        } else if address >= 0x4020 {
            match &self.ppu.cartridge {
                Some(c) => c.read_prg_rom(address, &mut data),
                None => {},
            }
        }
        data
    }

    /// A CPU read.
    pub fn read_cpu_ram(&mut self, address: u16) -> (r: u8)
        requires
            old(self).wf(),
        ensures
            final(self).wf(),
            old(self).keeps_timing(final(self)),
            r == old(self).read_value(address),
            *final(self) == old(self).after_read(address),
    {
        let mut data = self.previous_data;
        if address <= 0x1FFF {
            proof {
                lemma_ram_index(address);
            }
            data = self.cpu_ram[(address & 0x07FF) as usize];
        } else if address <= 0x3FFF {
            data = self.ppu.cpu_read(address & 0x0007);
        } else if address == 0x4016 {
            data = self.controller_a.read_bit();
        } else if address == 0x4017 {
            data = 0;
        } else if address >= 0x4020 {
            match &self.ppu.cartridge {
                Some(c) => c.read_prg_rom(address, &mut data),
                None => {},
            }
        }
        self.previous_data = data;
        data
    }

    /// A CPU write.
    pub fn write_cpu_ram(&mut self, address: u16, data: u8)
        requires
            old(self).wf(),
        ensures
            old(self).written(final(self), address, data),
            old(self).keeps_timing(final(self)),
    {
        self.previous_data = data;
        if address <= 0x1FFF {
            proof {
                lemma_ram_index(address);
            }
            self.cpu_ram.set((address & 0x07FF) as usize, data);
        } else if address <= 0x3FFF {
            proof {
                lemma_u16_bits(address);
            }
            self.ppu.cpu_write(address & 0x0007, data);
        } else if address == 0x4014 {
            self.dma_enable = true;
            self.dma_wait_clock = true;
            self.oam_page = (data as u16) << 8;
            self.oam_addr = 0;
            proof {
                assert((((data as u16) << 8u16) as u16) & 0xFF == 0) by (bit_vector);
            }
        } else if address == 0x4016 {
            self.controller_a.strobe(data & 1 != 0);
        } else if address >= 0x4020 {
            match &mut self.ppu.cartridge {
                Some(c) => c.write_prg_rom(address, data),
                None => {},
            }
        }
    }

    /// The host's snapshot of the held buttons.
    pub fn write_input_value(&mut self, input_value: u8)
        requires
            old(self).wf(),
        ensures
            final(self).wf(),
            *final(self) == (Bus {
                controller_a: Controller {
                    buttons: input_value,
                    register: if old(self).controller_a.strobe {
                        input_value
                    } else {
                        old(self).controller_a.register
                    },
                    strobe: old(self).controller_a.strobe,
                },
                ..*old(self)
            }),
    {
        self.controller_a.update_register(input_value);
    }

    pub fn dma_enable(&self) -> (r: bool)
        ensures
            r == self.dma_enable,
    {
        self.dma_enable
    }

    pub fn disable_dma(&mut self)
        ensures
            *final(self) == (Bus { dma_enable: false, ..*old(self) }),
    {
        self.dma_enable = false;
    }

    pub fn dma_wait_clock(&self) -> (r: bool)
        ensures
            r == self.dma_wait_clock,
    {
        self.dma_wait_clock
    }

    pub fn set_dma_wait_clock(&mut self, wait: bool)
        ensures
            *final(self) == (Bus { dma_wait_clock: wait, ..*old(self) }),
    {
        self.dma_wait_clock = wait;
    }

    /// The read half of a DMA step: the next source byte.
    pub fn read_dma_byte(&mut self)
        requires
            old(self).wf(),
        ensures
            final(self).wf(),
            ({
                let a = (old(self).oam_page | old(self).oam_addr as u16) as u16;
                *final(self) == Bus { oam_data: old(self).read_value(a), ..old(self).after_read(a) }
            }),
    {
        let address = self.oam_page | self.oam_addr as u16;
        self.oam_data = self.read_cpu_ram(address);
    }

    /// The write half of a DMA step: the byte goes to OAM; after the 256th,
    /// DMA ends.
    pub fn write_dma_byte(&mut self)
        requires
            old(self).wf(),
        ensures
            final(self).wf(),
            final(self).ppu.oam_memory@ == old(self).ppu.oam_memory@.update(
                old(self).oam_addr as int,
                old(self).oam_data,
            ),
            final(self).ppu == (Ppu { oam_memory: final(self).ppu.oam_memory, ..old(self).ppu }),
            final(self).oam_addr == crate::ppu::wrap_inc(old(self).oam_addr),
            final(self).dma_enable == (old(self).dma_enable && old(self).oam_addr != 255),
            *final(self) == (Bus {
                ppu: final(self).ppu,
                oam_addr: final(self).oam_addr,
                dma_enable: final(self).dma_enable,
                ..*old(self)
            }),
    {
        self.ppu.write_oam_byte(self.oam_addr, self.oam_data);
        if self.oam_addr == 255 {
            self.oam_addr = 0;
            self.dma_enable = false;
        } else {
            self.oam_addr = self.oam_addr + 1;
        }
    }
}

proof fn lemma_ram_index(address: u16)
    ensures
        address & 0x07FF < 0x0800,
{
    lemma_u16_bits(address);
}

} // verus!
