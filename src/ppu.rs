use vstd::prelude::*;

use crate::bits::{lemma_u16_bits, lemma_u8_bits};
use crate::loopy::{coarse_x, coarse_y, fine_y, loopy, nametable_x, nametable_y};
use crate::program::Cartridge;
use crate::program::Mirroring;

verus! {

/// The picture-processing unit: its register file, its memories (nametables,
/// palette, sprite table, and the cartridge's pattern memory), and its dot
/// clock.
pub struct Ppu {
    /// The cartridge, whose CHR side the PPU reads; the bus reaches its PRG
    /// side through here.
    pub cartridge: Option<Cartridge>,
    /// Two KiB of nametable RAM.
    pub name_table: Vec<u8>,
    /// 32 bytes of palette RAM (0x3F00..0x3F1F).
    pub pallette: Vec<u8>,
    /// Primary OAM: 64 sprites of 4 bytes (Y, tile, attributes, X).
    pub oam_memory: Vec<u8>,
    /// Secondary OAM: the up to 8 sprites found for the next line.
    pub oam_tmp: Vec<u8>,
    /// The sprites being drawn on this line; byte 3 of each counts down X.
    pub oam_buffer: Vec<u8>,
    pub skanline: u16,
    pub cycle: u16,
    pub frame_complete: bool,
    /// Set from the start of vertical blank to the pre-render line.
    pub vblank: bool,
    /// The NMI line to the CPU.
    pub nmi_require: bool,
    pub control: u8,
    pub mask: u8,
    pub status: u8,
    pub oam_address_reg: u8,
    /// The current VRAM address `v` and the temporary one `t`.
    pub cur_addr: u16,
    pub tmp_addr: u16,
    pub fine_x_scroll: u8,
    /// The write toggle `w` shared by the scroll and address registers.
    pub latch: bool,
    pub data_buffer: u8,
    pub next_background_tile_id: u8,
    pub next_background_attribute: u8,
    pub next_background_low_pattern: u8,
    pub next_background_high_pattern: u8,
    pub bg_low_shift_register: u16,
    pub bg_high_shift_register: u16,
    pub bg_low_attribute_shift_register: u16,
    pub bg_high_attribute_shift_register: u16,
    pub sprite_low_shift_register: Vec<u8>,
    pub sprite_high_shift_register: Vec<u8>,
    pub sprite_priority_shift_register: Vec<u8>,
    pub sprite_attribute_shift_register: Vec<u8>,
    pub expected_sprite_zero_hit: bool,
    pub oam_counter: usize,
    pub oam_tmp_counter: usize,
    /// Set by every palette write, for a host that shows the palettes.
    pub update_pallettes: bool,
    /// The two pattern tables decoded for a debugger: 128 x 128 pixels of 2
    /// bits each, table 0 then table 1.
    pub patterns: Vec<u8>,
}

/// Where a nametable address (0x2000..0x3EFF) lands in the two KiB of RAM.
pub open spec fn nt_index(m: Mirroring, address: u16) -> int {
    let o = address & 0x0FFF;
    match m {
        Mirroring::Vertical => (o & 0x07FF) as int,
        Mirroring::Horizontal => (((o >> 1u16) & 0x0400) | (o & 0x03FF)) as int,
        Mirroring::OneScreenLower => (o & 0x03FF) as int,
        Mirroring::OneScreenUpper => (0x0400 | (o & 0x03FF)) as int,
    }
}

/// Where a palette address lands in the 32 bytes: 0x10, 0x14, 0x18 and 0x1C
/// are the entries 0x00, 0x04, 0x08 and 0x0C.
pub open spec fn palette_index(address: u16) -> int {
    let a = address & 0x1F;
    if a & 0x13 == 0x10 {
        (a & 0x0F) as int
    } else {
        a as int
    }
}

/// The step of the VRAM address after a data access: 1, or 32 with CTRL bit 2.
pub open spec fn increment_of(control: u8) -> u16 {
    if control & 0x04 != 0 {
        32
    } else {
        1
    }
}

/// One more, modulo 256.
pub open spec fn wrap_inc(x: u8) -> u8 {
    if x == 255 {
        0
    } else {
        (x + 1) as u8
    }
}

/// The dot after (`cycle`, `line`).
pub open spec fn next_dot(cycle: u16, line: u16) -> (u16, u16) {
    if cycle < 340 {
        ((cycle + 1) as u16, line)
    } else if line < 261 {
        (0, (line + 1) as u16)
    } else {
        (0, 0)
    }
}

proof fn lemma_nt_index_bound(m: Mirroring, address: u16)
    ensures
        0 <= nt_index(m, address) < 0x0800,
{
    lemma_u16_bits(address);
}

proof fn lemma_palette_index_bound(address: u16)
    ensures
        0 <= palette_index(address) < 0x20,
{
    lemma_u16_bits(address);
}

/// A palette mirror and the entry it stands for are one byte of palette RAM:
/// a write through either is what a read through either returns.
pub proof fn lemma_palette_mirror(address: u16)
    requires
        0x3F00 <= address <= 0x3FFF,
        address & 0x13 == 0x10,
    ensures
        palette_index(address) == palette_index((address - 0x10) as u16),
        palette_index(address) == (address & 0x0C) as int,
{
    let b = (address - 0x10) as u16;
    assert(0x3F00 <= address <= 0x3FFF && address & 0x13 == 0x10 ==> (address & 0x1F) & 0x13 == 0x10
        && (address & 0x1F) & 0x0F == address & 0x0C && (b & 0x1F) & 0x13 != 0x10 && b & 0x1F
        == address & 0x0C) by (bit_vector)
        requires
            b == (address - 0x10) as u16,
    ;
}

/// Pixel `j` (row-major, 128 wide) of the decoded pattern table `table`.
pub open spec fn pattern_pixel(p: &Ppu, table: u8, j: int) -> u8 {
    let py = j / 128;
    let px = j % 128;
    let address = (table * 0x1000 + ((py / 8) * 16 + px / 8) * 16 + py % 8) as u16;
    let shift = (7 - px % 8) as u8;
    ((((p.vram_read((address + 8) as u16) >> shift) & 1) << 1u8) | ((p.vram_read(address) >> shift)
        & 1)) as u8
}

/// The PPU after `n` CPU reads of the data register.
pub open spec fn data_reads(p: Ppu, n: nat) -> Ppu
    decreases n,
{
    if n == 0 {
        p
    } else {
        data_reads(p, (n - 1) as nat).after_cpu_read(7)
    }
}

/// The VRAM address after `n` steps of `inc` from `v`, in 15 bits.
pub open spec fn stepped(v: u16, inc: u16, n: nat) -> u16 {
    ((v + n * inc) % 0x8000) as u16
}

proof fn lemma_data_reads_state(q: Ppu, n: nat)
    requires
        q.cur_addr < 0x8000,
        forall|j: nat| j < n ==> #[trigger] stepped(q.cur_addr, increment_of(q.control), j) & 0x3FFF < 0x3F00,
    ensures
        data_reads(q, n).cur_addr == stepped(q.cur_addr, increment_of(q.control), n),
        data_reads(q, n) == (Ppu {
            cur_addr: data_reads(q, n).cur_addr,
            data_buffer: data_reads(q, n).data_buffer,
            ..q
        }),
        n > 0 ==> data_reads(q, n).data_buffer == q.vram_read(
            stepped(q.cur_addr, increment_of(q.control), (n - 1) as nat),
        ),
        n > 0 ==> data_reads(q, (n - 1) as nat).read_result(7) == if n == 1 {
            q.data_buffer
        } else {
            q.vram_read(stepped(q.cur_addr, increment_of(q.control), (n - 2) as nat))
        },
    decreases n,
{
    let inc = increment_of(q.control);
    if n > 0 {
        lemma_data_reads_state(q, (n - 1) as nat);
        let prev = data_reads(q, (n - 1) as nat);
        let a = prev.cur_addr;
        assert(a == stepped(q.cur_addr, inc, (n - 1) as nat));
        assert(a < 0x8000);
        let sum = (a + inc) as u16;
        lemma_u16_bits(sum);
        assert(sum & 0x7FFF == sum % 0x8000) by (bit_vector);
        assert((a + inc) % 0x8000 == (q.cur_addr + n * inc) % 0x8000) by (nonlinear_arith)
            requires
                a == (q.cur_addr + (n - 1) * inc) % 0x8000,
                inc == 1 || inc == 32,
        {
            vstd::arithmetic::div_mod::lemma_add_mod_noop(q.cur_addr + (n - 1) * inc, inc as int, 0x8000);
            vstd::arithmetic::div_mod::lemma_small_mod(inc as nat, 0x8000);
        }
        assert(stepped(q.cur_addr, inc, (n - 1) as nat) & 0x3FFF < 0x3F00);
    }
}

/// Writing the address register twice (high byte, then low byte) and then
/// reading the data register returns first the byte buffered before, then
/// the bytes at v, v + step, v + 2 step, ..., one read late, while the
/// addresses stay out of the palette.
pub proof fn lemma_address_then_data_reads(p: Ppu, high: u8, low: u8, k: nat)
    requires
        !p.latch,
        k < 7,
        forall|j: nat|
            j < 7 ==> #[trigger] stepped(
                ((((high & 0x3F) as u16) << 8u16) | (low as u16)) as u16,
                increment_of(p.control),
                j,
            ) & 0x3FFF < 0x3F00,
    ensures
        ({
            let v = ((((high & 0x3F) as u16) << 8u16) | (low as u16)) as u16;
            let q = p.after_plain_write(6, high).after_plain_write(6, low);
            data_reads(q, k).read_result(7) == if k == 0 {
                p.data_buffer
            } else {
                p.vram_read(stepped(v, increment_of(p.control), (k - 1) as nat))
            }
        }),
{
    let v = ((((high & 0x3F) as u16) << 8u16) | (low as u16)) as u16;
    let t0 = p.tmp_addr;
    let t1 = ((((high & 0x3F) as u16) << 8u16) | (t0 & 0x00FF)) as u16;
    let t2 = ((t1 & 0xFF00) | (low as u16)) as u16;
    assert(t2 == v && v < 0x8000) by (bit_vector)
        requires
            t1 == ((((high & 0x3F) as u16) << 8u16) | (t0 & 0x00FF)) as u16,
            t2 == ((t1 & 0xFF00) | (low as u16)) as u16,
            v == ((((high & 0x3F) as u16) << 8u16) | (low as u16)) as u16,
    ;
    let q = p.after_plain_write(6, high).after_plain_write(6, low);
    assert(q.cur_addr == v);
    assert(q == (Ppu { cur_addr: v, tmp_addr: v, latch: false, ..p }));
    lemma_data_reads_state(q, k + 1);
}

/// A read of STATUS leaves the write toggle clear.
pub proof fn lemma_status_read_clears_toggle(p: Ppu)
    ensures
        !p.after_cpu_read(2).latch,
        p.after_cpu_read(2).status & 0x80 == 0,
{
    let s = p.status;
    assert((s & 0x7F) & 0x80 == 0) by (bit_vector);
}

impl Ppu {
    pub open spec fn wf(&self) -> bool {
        &&& self.name_table.len() == 0x0800
        &&& self.pallette.len() == 0x20
        &&& self.oam_memory.len() == 0x0100
        &&& self.oam_tmp.len() == 0x20
        &&& self.oam_buffer.len() == 0x20
        &&& self.sprite_low_shift_register.len() == 8
        &&& self.sprite_high_shift_register.len() == 8
        &&& self.sprite_priority_shift_register.len() == 8
        &&& self.sprite_attribute_shift_register.len() == 8
        &&& self.cycle <= 340
        &&& self.skanline <= 261
        &&& self.cur_addr < 0x8000
        &&& self.tmp_addr < 0x8000
        &&& self.fine_x_scroll < 8
        &&& self.oam_counter <= 64
        &&& self.oam_tmp_counter <= 8
        &&& self.patterns.len() == 0x8000
        &&& match self.cartridge {
            Some(c) => c.wf(),
            None => true,
        }
    }

    /// The nametable mirroring: the cartridge's, horizontal without one.
    pub open spec fn mirroring_spec(&self) -> Mirroring {
        match self.cartridge {
            Some(c) => c.mirroring_spec(),
            None => Mirroring::Horizontal,
        }
    }

    /// The byte at a pattern-table address; 0 without a cartridge.
    pub open spec fn chr_spec(&self, address: u16) -> u8 {
        match self.cartridge {
            Some(c) => c.chr_byte(address),
            None => 0,
        }
    }

    /// The byte that the PPU reads at `address` of its 14-bit address space.
    pub open spec fn vram_read(&self, address: u16) -> u8 {
        let a = address & 0x3FFF;
        if a < 0x2000 {
            self.chr_spec(a)
        } else if a < 0x3F00 {
            self.name_table@[nt_index(self.mirroring_spec(), a)]
        } else if self.mask & 0x01 != 0 {
            self.pallette@[palette_index(a)] & 0x30
        } else {
            self.pallette@[palette_index(a)]
        }
    }

    /// What a CPU read of register `address` (0..7) returns.
    pub open spec fn read_result(&self, address: u16) -> u8 {
        if address == 2 {
            (self.status & 0xE0) | (self.data_buffer & 0x1F)
        } else if address == 4 {
            self.oam_memory@[self.oam_address_reg as int]
        } else if address == 7 {
            if self.cur_addr & 0x3FFF >= 0x3F00 {
                self.vram_read(self.cur_addr)
            } else {
                self.data_buffer
            }
        } else {
            0
        }
    }

    /// The PPU after a CPU read of register `address` (0..7).
    pub open spec fn after_cpu_read(&self, address: u16) -> Ppu {
        if address == 2 {
            Ppu { status: self.status & 0x7F, latch: false, ..*self }
        } else if address == 7 {
            Ppu {
                data_buffer: self.vram_read(self.cur_addr),
                cur_addr: (((self.cur_addr + increment_of(self.control)) as u16) & 0x7FFF) as u16,
                ..*self
            }
        } else {
            *self
        }
    }

    /// The PPU after a CPU write of register `address`, for the registers that
    /// write no memory (all but 4 and 7).
    pub open spec fn after_plain_write(&self, address: u16, data: u8) -> Ppu {
        if address == 0 {
            Ppu {
                control: data,
                tmp_addr: ((self.tmp_addr & 0x73FF) | (((data & 0x03) as u16) << 10u16)) as u16,
                nmi_require: self.nmi_require || (self.vblank && self.status & 0x80 != 0
                    && self.control & 0x80 == 0 && data & 0x80 != 0),
                ..*self
            }
        } else if address == 1 {
            Ppu { mask: data, ..*self }
        } else if address == 3 {
            Ppu { oam_address_reg: data, ..*self }
        } else if address == 5 {
            if !self.latch {
                Ppu {
                    tmp_addr: loopy(
                        fine_y(self.tmp_addr),
                        nametable_y(self.tmp_addr),
                        nametable_x(self.tmp_addr),
                        coarse_y(self.tmp_addr),
                        (data >> 3u8) as u16,
                    ),
                    fine_x_scroll: data & 0x07,
                    latch: true,
                    ..*self
                }
            } else {
                Ppu {
                    tmp_addr: loopy(
                        (data & 0x07) as u16,
                        nametable_y(self.tmp_addr),
                        nametable_x(self.tmp_addr),
                        (data >> 3u8) as u16,
                        coarse_x(self.tmp_addr),
                    ),
                    latch: false,
                    ..*self
                }
            }
        } else if address == 6 {
            if !self.latch {
                Ppu {
                    tmp_addr: ((((data & 0x3F) as u16) << 8u16) | (self.tmp_addr & 0x00FF)) as u16,
                    latch: true,
                    ..*self
                }
            } else {
                let t = ((self.tmp_addr & 0xFF00) | (data as u16)) as u16;
                Ppu { tmp_addr: t, cur_addr: t, latch: false, ..*self }
            }
        } else {
            *self
        }
    }

    /// Power-on state, with no cartridge.
    pub fn new() -> (r: Ppu)
        ensures
            r.wf(),
            r.cartridge.is_none(),
            r.cycle == 0,
            r.skanline == 0,
            r.control == 0,
            r.mask == 0,
            r.status == 0,
            r.cur_addr == 0,
            r.tmp_addr == 0,
            r.fine_x_scroll == 0,
            !r.latch,
            !r.nmi_require,
            !r.vblank,
            !r.frame_complete,
            r.data_buffer == 0,
            r.oam_address_reg == 0,
            r.name_table@ == Seq::new(0x0800, |i: int| 0u8),
            r.pallette@ == Seq::new(0x20, |i: int| 0u8),
            r.oam_memory@ == Seq::new(0x0100, |i: int| 0u8),
    {
        Ppu {
            cartridge: None,
            name_table: zeroed(0x0800),
            pallette: zeroed(0x20),
            oam_memory: zeroed(0x0100),
            oam_tmp: filled(0x20, 0xFF),
            oam_buffer: filled(0x20, 0xFF),
            skanline: 0,
            cycle: 0,
            frame_complete: false,
            vblank: false,
            nmi_require: false,
            control: 0,
            mask: 0,
            status: 0,
            oam_address_reg: 0,
            cur_addr: 0,
            tmp_addr: 0,
            fine_x_scroll: 0,
            latch: false,
            data_buffer: 0,
            next_background_tile_id: 0,
            next_background_attribute: 0,
            next_background_low_pattern: 0,
            next_background_high_pattern: 0,
            bg_low_shift_register: 0,
            bg_high_shift_register: 0,
            bg_low_attribute_shift_register: 0,
            bg_high_attribute_shift_register: 0,
            sprite_low_shift_register: zeroed(8),
            sprite_high_shift_register: zeroed(8),
            sprite_priority_shift_register: zeroed(8),
            sprite_attribute_shift_register: zeroed(8),
            expected_sprite_zero_hit: false,
            oam_counter: 0,
            oam_tmp_counter: 0,
            update_pallettes: false,
            patterns: zeroed(0x8000),
        }
    }

    /// Plugs in a cartridge; its mapper decides the nametable mirroring.
    pub fn insert_cartridge(&mut self, cartridge: Cartridge)
        requires
            old(self).wf(),
            cartridge.wf(),
        ensures
            final(self).wf(),
            *final(self) == (Ppu { cartridge: Some(cartridge), ..*old(self) }),
    {
        self.cartridge = Some(cartridge);
    }

    /// Clears the registers and restarts the frame; memories are kept.
    pub fn reset(&mut self)
        requires
            old(self).wf(),
        ensures
            final(self).wf(),
            final(self).skanline == 0,
            final(self).cycle == 0,
            !final(self).frame_complete,
            !final(self).vblank,
            !final(self).nmi_require,
            final(self).control == 0,
            final(self).mask == 0,
            final(self).status == 0,
            final(self).oam_address_reg == 0,
            final(self).cur_addr == 0,
            final(self).tmp_addr == 0,
            final(self).fine_x_scroll == 0,
            !final(self).latch,
            final(self).data_buffer == 0,
            final(self).cartridge == old(self).cartridge,
            final(self).name_table == old(self).name_table,
            final(self).pallette == old(self).pallette,
            final(self).oam_memory == old(self).oam_memory,
    {
        self.skanline = 0;
        self.cycle = 0;
        self.frame_complete = false;
        self.vblank = false;
        self.nmi_require = false;
        self.control = 0;
        self.mask = 0;
        self.status = 0;
        self.oam_address_reg = 0;
        self.cur_addr = 0;
        self.tmp_addr = 0;
        self.fine_x_scroll = 0;
        self.latch = false;
        self.data_buffer = 0;
        self.next_background_tile_id = 0;
        self.next_background_attribute = 0;
        self.next_background_low_pattern = 0;
        self.next_background_high_pattern = 0;
        self.bg_low_shift_register = 0;
        self.bg_high_shift_register = 0;
        self.bg_low_attribute_shift_register = 0;
        self.bg_high_attribute_shift_register = 0;
        self.sprite_low_shift_register = zeroed(8);
        self.sprite_high_shift_register = zeroed(8);
        self.sprite_priority_shift_register = zeroed(8);
        self.sprite_attribute_shift_register = zeroed(8);
        self.expected_sprite_zero_hit = false;
        self.oam_counter = 0;
        self.oam_tmp_counter = 0;
    }

    /// A register's value without side effects, for a debugger.
    pub fn cpu_read_only(&self, address: u16) -> (r: u8)
        ensures
            r == if address == 0 {
                self.control
            } else if address == 1 {
                self.mask
            } else if address == 2 {
                self.status
            } else if address == 7 {
                self.data_buffer
            } else {
                0
            },
    {
        if address == 0 {
            self.control
        } else if address == 1 {
            self.mask
        } else if address == 2 {
            self.status
        } else if address == 7 {
            self.data_buffer
        } else {
            0
        }
    }

    /// A CPU read of register `address` (0..7). STATUS clears vertical blank
    /// and the write toggle; DATA answers from the read buffer, but for the
    /// palette, and steps the VRAM address.
    pub fn cpu_read(&mut self, address: u16) -> (r: u8)
        requires
            old(self).wf(),
        ensures
            final(self).wf(),
            r == old(self).read_result(address),
            *final(self) == old(self).after_cpu_read(address),
    {
        if address == 2 {
            let data = (self.status & 0xE0) | (self.data_buffer & 0x1F);
            self.status = self.status & 0x7F;
            self.latch = false;
            data
        } else if address == 4 {
            self.read_oam_byte(self.oam_address_reg)
        } else if address == 7 {
            let mut data = self.data_buffer;
            self.data_buffer = self.read_ppu(self.cur_addr);
            if self.cur_addr & 0x3FFF >= 0x3F00 {
                data = self.data_buffer;
            }
            let increment: u16 = if self.control & 0x04 != 0 {
                32
            } else {
                1
            };
            let sum = self.cur_addr + increment;
            proof {
                lemma_u16_bits(sum);
            }
            self.cur_addr = sum & 0x7FFF;
            data
        } else {
            0
        }
    }

    /// A CPU write of register `address` (0..7).
    pub fn cpu_write(&mut self, address: u16, data: u8)
        requires
            old(self).wf(),
            address < 8,
        ensures
            final(self).wf(),
            old(self).register_written(final(self), address, data),
    {
        if address == 0 {
            let old_nmi = self.control & 0x80 != 0;
            self.control = data;
            let t = self.tmp_addr;
            self.tmp_addr = (t & 0x73FF) | (((data & 0x03) as u16) << 10);
            assert(t < 0x8000 ==> (t & 0x73FF) | (((data & 0x03) as u16) << 10u16) < 0x8000)
                by (bit_vector);
            if self.vblank && self.status & 0x80 != 0 && !old_nmi && data & 0x80 != 0 {
                self.nmi_require = true;
            }
        } else if address == 1 {
            self.mask = data;
        } else if address == 3 {
            self.oam_address_reg = data;
        } else if address == 4 {
            self.write_oam_byte(self.oam_address_reg, data);
            self.oam_address_reg = if self.oam_address_reg == 255 {
                0
            } else {
                self.oam_address_reg + 1
            };
        } else if address == 5 {
            let t = self.tmp_addr;
            if !self.latch {
                let r = (t & 0x7FE0) | ((data >> 3) as u16);
                assert(t < 0x8000 ==> r < 0x8000 && r == loopy(
                    fine_y(t),
                    nametable_y(t),
                    nametable_x(t),
                    coarse_y(t),
                    (data >> 3u8) as u16,
                )) by (bit_vector)
                    requires
                        r == (t & 0x7FE0) | ((data >> 3u8) as u16),
                ;
                self.tmp_addr = r;
                self.fine_x_scroll = data & 0x07;
                proof {
                    lemma_u8_bits(data);
                }
                self.latch = true;
            } else {
                let r = (t & 0x0C1F) | (((data >> 3) as u16) << 5) | (((data & 0x07) as u16) << 12);
                assert(t < 0x8000 ==> r < 0x8000 && r == loopy(
                    (data & 0x07) as u16,
                    nametable_y(t),
                    nametable_x(t),
                    (data >> 3u8) as u16,
                    coarse_x(t),
                )) by (bit_vector)
                    requires
                        r == (t & 0x0C1F) | (((data >> 3u8) as u16) << 5u16) | (((data & 0x07)
                            as u16) << 12u16),
                ;
                self.tmp_addr = r;
                self.latch = false;
            }
        } else if address == 6 {
            let t = self.tmp_addr;
            if !self.latch {
                let r = (((data & 0x3F) as u16) << 8) | (t & 0x00FF);
                assert(r < 0x8000) by (bit_vector)
                    requires
                        r == (((data & 0x3F) as u16) << 8u16) | (t & 0x00FF),
                ;
                self.tmp_addr = r;
                self.latch = true;
            } else {
                let r = (t & 0xFF00) | (data as u16);
                assert(t < 0x8000 ==> r < 0x8000) by (bit_vector)
                    requires
                        r == (t & 0xFF00) | (data as u16),
                ;
                self.tmp_addr = r;
                self.cur_addr = r;
                self.latch = false;
            }
        } else if address == 7 {
            let v = self.cur_addr;
            self.write_ppu(v, data);
            let increment: u16 = if self.control & 0x04 != 0 {
                32
            } else {
                1
            };
            let sum = v + increment;
            proof {
                lemma_u16_bits(sum);
            }
            self.cur_addr = sum & 0x7FFF;
        }
    }

    /// That `after` is this PPU after a CPU write of `data` to register
    /// `address` (0..7).
    pub open spec fn register_written(&self, after: &Ppu, address: u16, data: u8) -> bool {
        &&& address != 4 && address != 7 ==> *after == self.after_plain_write(
                address,
                data,
            )
        &&& address == 4 ==> {
                &&& after.oam_memory@ == self.oam_memory@.update(
                    self.oam_address_reg as int,
                    data,
                )
                &&& *after == (Ppu {
                    oam_memory: after.oam_memory,
                    oam_address_reg: wrap_inc(self.oam_address_reg),
                    ..*self
                })
            }
        &&& address == 7 ==> {
                &&& after.cur_addr == ((self.cur_addr + increment_of(self.control)) as u16)
                    & 0x7FFF
                &&& self.written(after, self.cur_addr, data)
                &&& after.control == self.control
                &&& after.mask == self.mask
                &&& after.status == self.status
                &&& after.tmp_addr == self.tmp_addr
                &&& after.latch == self.latch
                &&& after.data_buffer == self.data_buffer
                &&& after.nmi_require == self.nmi_require
                &&& after.cycle == self.cycle
                &&& after.skanline == self.skanline
                &&& after.frame_complete == self.frame_complete
                &&& after.oam_memory == self.oam_memory
            }
    }

    /// That `after` is this PPU after a write of `data` at VRAM `address`:
    /// pattern memory through the mapper, nametables through the mirroring,
    /// palette through its mirrors.
    pub open spec fn written(&self, after: &Ppu, address: u16, data: u8) -> bool {
        let a = address & 0x3FFF;
        if a < 0x2000 {
            &&& after.name_table == self.name_table
            &&& after.pallette == self.pallette
            &&& after.update_pallettes == self.update_pallettes
            &&& match (self.cartridge, after.cartridge) {
                (Some(c), Some(d)) => {
                    &&& d.wf()
                    &&& d.prg_rom == c.prg_rom
                    &&& d.chr_ram == c.chr_ram
                    &&& d.mapper == c.mapper
                    &&& d.chr_rom@ == match c.mapper.chr_target(a) {
                        Some(o) => if c.chr_ram {
                            c.chr_rom@.update((o as int) % (c.chr_rom@.len() as int), data)
                        } else {
                            c.chr_rom@
                        },
                        None => c.chr_rom@,
                    }
                },
                (None, None) => true,
                _ => false,
            }
        } else if a < 0x3F00 {
            &&& after.cartridge == self.cartridge
            &&& after.name_table@ == self.name_table@.update(
                nt_index(self.mirroring_spec(), a),
                data,
            )
            &&& after.pallette == self.pallette
            &&& after.update_pallettes == self.update_pallettes
        } else {
            &&& after.cartridge == self.cartridge
            &&& after.name_table == self.name_table
            &&& after.pallette@ == self.pallette@.update(palette_index(a), data)
            &&& after.update_pallettes
        }
    }

    /// Reads the PPU's address space: pattern tables from the cartridge,
    /// nametables through the mirroring, the palette through its mirrors.
    pub fn read_ppu(&self, address: u16) -> (r: u8)
        requires
            self.wf(),
        ensures
            r == self.vram_read(address),
    {
        let a = address & 0x3FFF;
        if a < 0x2000 {
            self.read_from_cartridge(a)
        } else if a < 0x3F00 {
            let i = self.nt_offset(a);
            self.name_table[i]
        } else {
            proof {
                lemma_palette_index_bound(a);
            }
            let p = self.pallette[palette_offset(a)];
            if self.mask & 0x01 != 0 {
                p & 0x30
            } else {
                p
            }
        }
    }

    /// Writes the PPU's address space.
    pub fn write_ppu(&mut self, address: u16, data: u8)
        requires
            old(self).wf(),
        ensures
            final(self).wf(),
            old(self).written(final(self), address, data),
            *final(self) == (Ppu {
                cartridge: final(self).cartridge,
                name_table: final(self).name_table,
                pallette: final(self).pallette,
                update_pallettes: final(self).update_pallettes,
                ..*old(self)
            }),
    {
        let a = address & 0x3FFF;
        if a < 0x2000 {
            match &mut self.cartridge {
                Some(c) => c.write_chr_rom(a, data),
                None => {},
            }
        } else if a < 0x3F00 {
            let i = self.nt_offset(a);
            self.name_table.set(i, data);
        } else {
            proof {
                lemma_palette_index_bound(a);
            }
            self.pallette.set(palette_offset(a), data);
            self.update_pallettes = true;
        }
    }

    /// The index into nametable RAM for a nametable address.
    fn nt_offset(&self, address: u16) -> (i: usize)
        requires
            self.wf(),
        ensures
            i == nt_index(self.mirroring_spec(), address),
            i < 0x0800,
    {
        proof {
            lemma_nt_index_bound(self.mirroring_spec(), address);
        }
        let m = match &self.cartridge {
            Some(c) => c.get_mirroring(),
            None => Mirroring::Horizontal,
        };
        let o = address & 0x0FFF;
        match m {
            Mirroring::Vertical => (o & 0x07FF) as usize,
            Mirroring::Horizontal => (((o >> 1) & 0x0400) | (o & 0x03FF)) as usize,
            Mirroring::OneScreenLower => (o & 0x03FF) as usize,
            Mirroring::OneScreenUpper => (0x0400 | (o & 0x03FF)) as usize,
        }
    }

    /// A byte of pattern memory; 0 without a cartridge.
    fn read_from_cartridge(&self, address: u16) -> (r: u8)
        requires
            self.wf(),
        ensures
            r == self.chr_spec(address),
    {
        let mut data: u8 = 0;
        match &self.cartridge {
            Some(c) => c.read_chr_rom(address, &mut data),
            None => {},
        }
        data
    }

    /// The DMA port into OAM.
    pub fn write_oam_byte(&mut self, address: u8, data: u8)
        requires
            old(self).wf(),
        ensures
            final(self).wf(),
            final(self).oam_memory@ == old(self).oam_memory@.update(address as int, data),
            *final(self) == (Ppu { oam_memory: final(self).oam_memory, ..*old(self) }),
    {
        self.oam_memory.set(address as usize, data);
    }

    pub fn read_oam_byte(&self, address: u8) -> (r: u8)
        requires
            self.wf(),
        ensures
            r == self.oam_memory@[address as int],
    {
        self.oam_memory[address as usize]
    }

    /// The 1 KiB of nametable RAM that nametable `name_table` (0 or 1) holds.
    pub fn read_name_table(&self, name_table: u16) -> (r: Vec<u8>)
        requires
            self.wf(),
            name_table < 2,
        ensures
            r@ == self.name_table@.subrange(name_table * 0x400, name_table * 0x400 + 0x400),
    {
        let base = (name_table as usize) * 0x400;
        let mut r: Vec<u8> = Vec::new();
        let mut i: usize = 0;
        while i < 0x400
            invariant
                self.wf(),
                base == name_table * 0x400,
                name_table < 2,
                i <= 0x400,
                r@ == self.name_table@.subrange(base as int, base + i),
            decreases 0x400 - i,
        {
            r.push(self.name_table[base + i]);
            i = i + 1;
            assert(r@ =~= self.name_table@.subrange(base as int, base + i));
        }
        r
    }

    /// Decodes pattern table `table` (0 or 1) into `patterns`: 16 x 16 tiles
    /// of 8 x 8 pixels, each pixel the 2-bit colour index of its two planes.
    pub fn read_all_sprites(&mut self, table: u8)
        requires
            old(self).wf(),
            table < 2,
        ensures
            final(self).wf(),
            *final(self) == (Ppu { patterns: final(self).patterns, ..*old(self) }),
            forall|j: int|
                0 <= j < 0x4000 ==> #[trigger] final(self).patterns@[table * 0x4000 + j]
                    == pattern_pixel(old(self), table, j),
            forall|j: int|
                0 <= j < 0x8000 && !(table * 0x4000 <= j < table * 0x4000 + 0x4000) ==> #[trigger] final(self).patterns@[j] == old(self).patterns@[j],
    {
        let ghost start = *self;
        let base = (table as usize) * 0x4000;
        let mut idx: usize = 0;
        while idx < 0x4000
            invariant
                self.wf(),
                start.wf(),
                table < 2,
                base == table * 0x4000,
                idx <= 0x4000,
                *self == (Ppu { patterns: self.patterns, ..start }),
                forall|j: int| 0 <= j < idx ==> #[trigger] self.patterns@[base + j] == pattern_pixel(&start, table, j),
                forall|j: int|
                    0 <= j < 0x8000 && !(base <= j < base + idx) ==> #[trigger] self.patterns@[j]
                        == start.patterns@[j],
            decreases 0x4000 - idx,
        {
            let py = idx / 128;
            let px = idx % 128;
            let tile = (py / 8) * 16 + px / 8;
            let row = py % 8;
            assert(tile * 16 + row < 0x1000) by (nonlinear_arith)
                requires
                    idx < 0x4000,
                    py == idx / 128,
                    px == idx % 128,
                    tile == (py / 8) * 16 + px / 8,
                    row == py % 8,
            ;
            let address = (table as u16) * 0x1000 + (tile * 16 + row) as u16;
            let low = self.read_ppu(address);
            let high = self.read_ppu(address + 8);
            let shift = (7 - px % 8) as u8;
            let pixel = (((high >> shift) & 1) << 1) | ((low >> shift) & 1);
            assert(pixel == pattern_pixel(&start, table, idx as int));
            self.patterns.set(base + idx, pixel);
            idx = idx + 1;
        }
    }

    /// The colours of the 32 palette entries, for a host that shows them.
    pub fn palette_colors(&self) -> (r: Vec<u32>)
        requires
            self.wf(),
        ensures
            r@.len() == 32,
            forall|i: int|
                0 <= i < 32 ==> #[trigger] r@[i] == crate::render::system_palette(
                    self.vram_read((0x3F00 + i) as u16) & 0x3F,
                ),
    {
        let mut r: Vec<u32> = Vec::new();
        let mut i: u16 = 0;
        while i < 32
            invariant
                self.wf(),
                i <= 32,
                r@.len() == i,
                forall|k: int|
                    0 <= k < i ==> #[trigger] r@[k] == crate::render::system_palette(
                        self.vram_read((0x3F00 + k) as u16) & 0x3F,
                    ),
            decreases 32 - i,
        {
            let raw = self.read_ppu(0x3F00 + i);
            proof {
                lemma_u8_bits(raw);
            }
            r.push(crate::render::system_color(raw & 0x3F));
            i = i + 1;
        }
        r
    }

    /// The NMI line to the CPU.
    pub fn nmi_require(&self) -> (r: bool)
        ensures
            r == self.nmi_require,
    {
        self.nmi_require
    }

    /// Lowers the NMI line once the CPU has taken the interrupt.
    pub fn reset_nmi_require(&mut self)
        ensures
            *final(self) == (Ppu { nmi_require: false, ..*old(self) }),
    {
        self.nmi_require = false;
    }
}

/// The index into palette RAM for a palette address.
fn palette_offset(address: u16) -> (i: usize)
    ensures
        i == palette_index(address),
        i < 0x20,
{
    proof {
        lemma_palette_index_bound(address);
    }
    let a = address & 0x1F;
    if a & 0x13 == 0x10 {
        (a & 0x0F) as usize
    } else {
        a as usize
    }
}

/// `len` zero bytes.
pub fn zeroed(len: usize) -> (r: Vec<u8>)
    ensures
        r@ == Seq::new(len as nat, |i: int| 0u8),
{
    filled(len, 0)
}

/// `len` copies of `value`.
pub fn filled(len: usize, value: u8) -> (r: Vec<u8>)
    ensures
        r@ == Seq::new(len as nat, |i: int| value),
{
    let mut r: Vec<u8> = Vec::new();
    let mut i: usize = 0;
    while i < len
        invariant
            i <= len,
            r@ == Seq::new(i as nat, |k: int| value),
        decreases len - i,
    {
        r.push(value);
        i = i + 1;
        assert(r@ =~= Seq::new(i as nat, |k: int| value));
    }
    r
}

} // verus!
