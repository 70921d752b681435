use vstd::prelude::*;

use crate::bits::{lemma_u16_bits, lemma_u8_bits};
use crate::loopy::{
    attribute_address, coarse_x, coarse_x_step, coarse_y, copy_horizontal, copy_vertical, fine_y,
    increment_coarse_x, increment_fine_y, tile_address,
};
use crate::ppu::{next_dot, Ppu};

verus! {

/// The 24-bit RGB colour of each of the 64 entries of the system palette.
pub open spec fn system_palette(index: u8) -> u32 {
    match index {
        0 => 0x545454,
        1 => 0x001E74,
        2 => 0x081090,
        3 => 0x300088,
        4 => 0x440064,
        5 => 0x5C0030,
        6 => 0x540400,
        7 => 0x3C1800,
        8 => 0x202A00,
        9 => 0x083A00,
        10 => 0x004000,
        11 => 0x003C00,
        12 => 0x00323C,
        13 => 0x000000,
        14 => 0x000000,
        15 => 0x000000,
        16 => 0x989698,
        17 => 0x084CC4,
        18 => 0x3032EC,
        19 => 0x5C1EE4,
        20 => 0x8814B0,
        21 => 0xA01464,
        22 => 0x982220,
        23 => 0x783C00,
        24 => 0x545A00,
        25 => 0x287200,
        26 => 0x087C00,
        27 => 0x007628,
        28 => 0x006678,
        29 => 0x000000,
        30 => 0x000000,
        31 => 0x000000,
        32 => 0xECEEEC,
        33 => 0x4C9AEC,
        34 => 0x787CEC,
        35 => 0xB062EC,
        36 => 0xE454EC,
        37 => 0xEC58B4,
        38 => 0xEC6A64,
        39 => 0xD48820,
        40 => 0xA0AA00,
        41 => 0x74C400,
        42 => 0x4CD020,
        43 => 0x38CC6C,
        44 => 0x38B4CC,
        45 => 0x3C3C3C,
        46 => 0x000000,
        47 => 0x000000,
        48 => 0xECEEEC,
        49 => 0xA8CCEC,
        50 => 0xBCBCEC,
        51 => 0xD4B2EC,
        52 => 0xECAEEC,
        53 => 0xECAED4,
        54 => 0xECB4B0,
        55 => 0xE4C490,
        56 => 0xCCD278,
        57 => 0xB4DE78,
        58 => 0xA8E290,
        59 => 0x98E2B4,
        60 => 0xA0D6E4,
        61 => 0xA0A2A0,
        62 => 0x000000,
        _ => 0x000000,
    }
}

/// Looks up a colour of the system palette.
pub fn system_color(index: u8) -> (c: u32)
    requires
        index < 64,
    ensures
        c == system_palette(index),
{
    match index {
        0 => 0x545454,
        1 => 0x001E74,
        2 => 0x081090,
        3 => 0x300088,
        4 => 0x440064,
        5 => 0x5C0030,
        6 => 0x540400,
        7 => 0x3C1800,
        8 => 0x202A00,
        9 => 0x083A00,
        10 => 0x004000,
        11 => 0x003C00,
        12 => 0x00323C,
        13 => 0x000000,
        14 => 0x000000,
        15 => 0x000000,
        16 => 0x989698,
        17 => 0x084CC4,
        18 => 0x3032EC,
        19 => 0x5C1EE4,
        20 => 0x8814B0,
        21 => 0xA01464,
        22 => 0x982220,
        23 => 0x783C00,
        24 => 0x545A00,
        25 => 0x287200,
        26 => 0x087C00,
        27 => 0x007628,
        28 => 0x006678,
        29 => 0x000000,
        30 => 0x000000,
        31 => 0x000000,
        32 => 0xECEEEC,
        33 => 0x4C9AEC,
        34 => 0x787CEC,
        35 => 0xB062EC,
        36 => 0xE454EC,
        37 => 0xEC58B4,
        38 => 0xEC6A64,
        39 => 0xD48820,
        40 => 0xA0AA00,
        41 => 0x74C400,
        42 => 0x4CD020,
        43 => 0x38CC6C,
        44 => 0x38B4CC,
        45 => 0x3C3C3C,
        46 => 0x000000,
        47 => 0x000000,
        48 => 0xECEEEC,
        49 => 0xA8CCEC,
        50 => 0xBCBCEC,
        51 => 0xD4B2EC,
        52 => 0xECAEEC,
        53 => 0xECAED4,
        54 => 0xECB4B0,
        55 => 0xE4C490,
        56 => 0xCCD278,
        57 => 0xB4DE78,
        58 => 0xA8E290,
        59 => 0x98E2B4,
        60 => 0xA0D6E4,
        61 => 0xA0A2A0,
        62 => 0x000000,
        _ => 0x000000,
    }
}

/// Bit `i` of `x`.
pub open spec fn bit(x: u8, i: u8) -> u8 {
    (x >> i) & 1
}

/// That `r` is `b` with its bit order reversed.
pub open spec fn reversed(b: u8, r: u8) -> bool {
    &&& bit(r, 0) == bit(b, 7)
    &&& bit(r, 1) == bit(b, 6)
    &&& bit(r, 2) == bit(b, 5)
    &&& bit(r, 3) == bit(b, 4)
    &&& bit(r, 4) == bit(b, 3)
    &&& bit(r, 5) == bit(b, 2)
    &&& bit(r, 6) == bit(b, 1)
    &&& bit(r, 7) == bit(b, 0)
}

/// `b` with its bit order reversed, so that a plane fetched MSB-first shifts
/// out LSB-first.
pub fn reverse_bits(b: u8) -> (r: u8)
    ensures
        reversed(b, r),
{
    let r = ((b & 0x01) << 7) | ((b & 0x02) << 5) | ((b & 0x04) << 3) | ((b & 0x08) << 1) | ((b
        & 0x10) >> 1) | ((b & 0x20) >> 3) | ((b & 0x40) >> 5) | ((b & 0x80) >> 7);
    assert((r >> 0u8) & 1 == (b >> 7u8) & 1 && (r >> 1u8) & 1 == (b >> 6u8) & 1 && (r >> 2u8) & 1
        == (b >> 5u8) & 1 && (r >> 3u8) & 1 == (b >> 4u8) & 1 && (r >> 4u8) & 1 == (b >> 3u8) & 1
        && (r >> 5u8) & 1 == (b >> 2u8) & 1 && (r >> 6u8) & 1 == (b >> 1u8) & 1 && (r >> 7u8) & 1
        == (b >> 0u8) & 1) by (bit_vector)
        requires
            r == ((b & 0x01) << 7u8) | ((b & 0x02) << 5u8) | ((b & 0x04) << 3u8) | ((b & 0x08)
                << 1u8) | ((b & 0x10) >> 1u8) | ((b & 0x20) >> 3u8) | ((b & 0x40) >> 5u8) | ((b
                & 0x80) >> 7u8),
    ;
    r
}

/// The palette address of the composed pixel: a transparent background shows
/// an opaque sprite; a transparent sprite shows the background; two opaque
/// pixels go by the sprite's priority (0: in front); all transparent is the
/// backdrop at 0x3F00.
pub open spec fn compose_spec(bg: u16, sprite: u16, priority: u16) -> u16 {
    if bg & 3 == 0 && sprite & 3 == 0 {
        0x3F00
    } else if bg & 3 == 0 {
        (0x3F10 + sprite) as u16
    } else if sprite & 3 == 0 {
        (0x3F00 + bg) as u16
    } else if priority == 0 {
        (0x3F10 + sprite) as u16
    } else {
        (0x3F00 + bg) as u16
    }
}

pub fn compose(bg: u16, sprite: u16, priority: u16) -> (r: u16)
    requires
        bg < 16,
        sprite < 16,
    ensures
        r == compose_spec(bg, sprite, priority),
{
    if bg & 3 == 0 && sprite & 3 == 0 {
        0x3F00
    } else if bg & 3 == 0 {
        0x3F10 + sprite
    } else if sprite & 3 == 0 {
        0x3F00 + bg
    } else if priority == 0 {
        0x3F10 + sprite
    } else {
        0x3F00 + bg
    }
}

/// Whether the dot (`cycle`, `line`) puts a pixel on the screen.
pub open spec fn visible(cycle: u16, line: u16) -> bool {
    1 <= cycle <= 256 && line <= 239
}

/// What rendering leaves alone: the memories, the CPU-side registers, and the
/// timing state.
pub open spec fn keeps_frame_state(a: &Ppu, b: &Ppu) -> bool {
    &&& b.cartridge == a.cartridge
    &&& b.name_table == a.name_table
    &&& b.pallette == a.pallette
    &&& b.oam_memory == a.oam_memory
    &&& b.control == a.control
    &&& b.mask == a.mask
    &&& b.tmp_addr == a.tmp_addr
    &&& b.fine_x_scroll == a.fine_x_scroll
    &&& b.latch == a.latch
    &&& b.data_buffer == a.data_buffer
    &&& b.oam_address_reg == a.oam_address_reg
    &&& b.update_pallettes == a.update_pallettes
    &&& b.nmi_require == a.nmi_require
    &&& b.vblank == a.vblank
    &&& b.frame_complete == a.frame_complete
    &&& b.cycle == a.cycle
    &&& b.skanline == a.skanline
    &&& b.status & 0x80 == a.status & 0x80
}

/// What drawing a pixel leaves alone of the sprite side: the active sprites
/// and their shifters.
pub open spec fn keeps_sprite_state(a: &Ppu, b: &Ppu) -> bool {
    &&& b.oam_buffer == a.oam_buffer
    &&& b.sprite_low_shift_register == a.sprite_low_shift_register
    &&& b.sprite_high_shift_register == a.sprite_high_shift_register
    &&& b.sprite_priority_shift_register == a.sprite_priority_shift_register
    &&& b.sprite_attribute_shift_register == a.sprite_attribute_shift_register
}

/// The background pixel that the shifters hold at bit 0.
pub open spec fn shifter_pixel(p: &Ppu) -> u16 {
    (((p.bg_high_attribute_shift_register & 1) << 3u16) | ((p.bg_low_attribute_shift_register & 1)
        << 2u16) | ((p.bg_high_shift_register & 1) << 1u16) | (p.bg_low_shift_register & 1)) as u16
}

/// The background pixel of this dot: the shifters' one if background
/// rendering is on and the left-column mask lets it through, else 0.
pub open spec fn background_pixel(p: &Ppu) -> u16 {
    if p.mask & 0x08 != 0 && visible(p.cycle, p.skanline) && (p.mask & 0x02 != 0 || p.cycle > 8) {
        shifter_pixel(p)
    } else {
        0
    }
}

/// The sprite pixel of this dot, with its priority in bit 4: the first opaque
/// one of the active sprites if sprite rendering is on and the left-column
/// mask lets it through, else 0.
pub open spec fn sprite_pixel(p: &Ppu) -> u16 {
    if p.mask & 0x10 != 0 && visible(p.cycle, p.skanline) && (p.mask & 0x04 != 0 || p.cycle > 8) {
        first_sprite_pixel(p, 8)
    } else {
        0
    }
}

proof fn lemma_first_sprite_pixel_kept(a: &Ppu, b: &Ppu, n: int)
    requires
        keeps_sprite_state(a, b),
    ensures
        first_sprite_pixel(a, n) == first_sprite_pixel(b, n),
    decreases n,
{
    if n > 0 {
        lemma_first_sprite_pixel_kept(a, b, n - 1);
    }
}

/// STATUS after a dot from `o` to `f`: the sprite flags of the dot, then
/// vertical blank set at dot 1 of line 241, and all three flags cleared at dot
/// 1 of line 261.
pub open spec fn status_after_dot(o: Ppu, f: Ppu) -> bool {
    f.status == if f.cycle == 1 && f.skanline == 241 {
        sprite_status(&o, background_pixel(&o)) | 0x80
    } else if f.cycle == 1 && f.skanline == 261 {
        sprite_status(&o, background_pixel(&o)) & 0x1F
    } else {
        sprite_status(&o, background_pixel(&o))
    }
}

/// What one dot does to the PPU, from `o` to `f`, and the pixel `color` it
/// gives: the contract of `Ppu::clock`.
#[verifier::opaque]
pub open spec fn ppu_dot(o: Ppu, f: Ppu, color: Option<u32>) -> bool {
    &&& status_after_dot(o, f)
    &&& ((f.cycle, f.skanline) == next_dot(o.cycle, o.skanline))
    &&& (f.frame_complete == (o.frame_complete || (o.cycle == 340
        && o.skanline == 261)))
    &&& (color.is_some() == visible(o.cycle, o.skanline))
    &&& (visible(o.cycle, o.skanline) ==> color == Some(
        system_palette(
            o.vram_read(
                compose_spec(
                    background_pixel(&o),
                    sprite_pixel(&o) & 0x0F,
                    sprite_pixel(&o) >> 4u16,
                ),
            ) & 0x3F,
        ),
    ))
    &&& (visible(o.cycle, o.skanline) && o.mask & 0x18 == 0 ==> color
        == Some(system_palette(o.vram_read(0x3F00) & 0x3F)))
    &&& (o.cycle == 257 && o.skanline <= 239 ==> f.oam_buffer == o.oam_tmp
        && forall|i: int|
        0 <= i < 8 ==> #[trigger] slot_loaded(&swapped_in(&o), &f,
            i,
        ))
    &&& (f.cartridge == o.cartridge)
    &&& (f.name_table == o.name_table)
    &&& (f.pallette == o.pallette)
    &&& (f.oam_memory == o.oam_memory)
    &&& (f.control == o.control)
    &&& (f.mask == o.mask)
    &&& (f.tmp_addr == o.tmp_addr)
    &&& (f.fine_x_scroll == o.fine_x_scroll)
    &&& (f.latch == o.latch)
    &&& (f.data_buffer == o.data_buffer)
    &&& (f.oam_address_reg == o.oam_address_reg)
    &&& (f.update_pallettes == o.update_pallettes)
    &&& (o.mask & 0x08 == 0 ==> f.cur_addr == o.cur_addr)
    &&& (f.cycle == 1 && f.skanline == 241 ==> f.status & 0x80 != 0
        && f.vblank && f.nmi_require == (o.nmi_require
        || o.control & 0x80 != 0))
    &&& (f.cycle == 1 && f.skanline == 261 ==> f.status & 0xE0 == 0
        && !f.vblank && f.nmi_require == o.nmi_require)
    &&& (!(f.cycle == 1 && (f.skanline == 241 || f.skanline == 261))
        ==> f.status & 0x80 == o.status & 0x80 && f.vblank
        == o.vblank && f.nmi_require == o.nmi_require)
}

/// What the sprite evaluation of a dot reads and leaves: the position in
/// primary OAM, the count of sprites found, and the sprite-zero expectation.
pub open spec fn keeps_eval_state(a: &Ppu, b: &Ppu) -> bool {
    &&& b.oam_counter == a.oam_counter
    &&& b.oam_tmp_counter == a.oam_tmp_counter
    &&& b.expected_sprite_zero_hit == a.expected_sprite_zero_hit
}

/// Whether this dot checks the next sprite of primary OAM against the line.
pub open spec fn evaluates(p: &Ppu) -> bool {
    p.mask & 0x10 != 0 && visible(p.cycle, p.skanline) && 64 < p.cycle <= 256 && p.oam_counter < 64
}

/// Whether the sprite that evaluation checks next covers this line.
pub open spec fn candidate_on_line(p: &Ppu) -> bool {
    let y = p.oam_memory@[4 * p.oam_counter as int];
    y <= p.skanline < y + sprite_height(p.control)
}

/// STATUS after this dot's evaluation: a ninth sprite on the line sets the
/// overflow flag (bit 5).
pub open spec fn after_eval_status(p: &Ppu) -> u8 {
    if evaluates(p) && candidate_on_line(p) && p.oam_tmp_counter == 8 {
        p.status | 0x20
    } else {
        p.status
    }
}

/// Whether sprite zero is expected on the line after this dot's evaluation:
/// it is when evaluation finds sprite 0 on the line before a hit.
pub open spec fn expected_after_eval(p: &Ppu) -> bool {
    p.expected_sprite_zero_hit || (evaluates(p) && candidate_on_line(p) && p.oam_counter == 0
        && p.status & 0x40 == 0)
}

/// Whether this dot is a sprite-zero hit, over background pixel `bg`:
/// sprite rendering draws here, sprite zero is expected, the first sprite
/// slot is opaque, the background is opaque, and the left-column masks let
/// both through.
pub open spec fn zero_hit(p: &Ppu, bg: u16) -> bool {
    &&& p.mask & 0x10 != 0
    &&& visible(p.cycle, p.skanline)
    &&& (p.mask & 0x04 != 0 || p.cycle > 8)
    &&& expected_after_eval(p)
    &&& first_sprite_pixel(p, 1) & 3 != 0
    &&& bg & 3 != 0
    &&& (p.mask & 0x06 == 0x06 || p.cycle > 8)
}

/// STATUS after the sprite work of this dot: overflow (bit 5) from
/// evaluation, sprite-zero hit (bit 6) from drawing.
pub open spec fn sprite_status(p: &Ppu, bg: u16) -> u8 {
    if zero_hit(p, bg) {
        after_eval_status(p) | 0x40
    } else {
        after_eval_status(p)
    }
}

/// The background pattern table: 0x1000 with CTRL bit 4.
pub open spec fn bg_table(control: u8) -> u16 {
    if control & 0x10 != 0 {
        0x1000
    } else {
        0
    }
}

/// Sprite height: 16 with CTRL bit 5, else 8.
pub open spec fn sprite_height(control: u8) -> u16 {
    if control & 0x20 != 0 {
        16
    } else {
        8
    }
}

/// The address of the low pattern plane of a sprite row: 8x8 sprites take
/// their table from CTRL bit 3, 8x16 ones from bit 0 of the tile number.
pub open spec fn sprite_row_address(control: u8, id: u8, row: u16) -> u16 {
    if control & 0x20 == 0 {
        ((if control & 0x08 != 0 { 0x1000u16 } else { 0u16 }) + (id as u16) * 16 + row) as u16
    } else {
        let table: u16 = if id & 1 != 0 { 0x1000 } else { 0 };
        let tile = (id & 0xFE) as u16 + if row >= 8 { 1u16 } else { 0u16 };
        (table + tile * 16 + (row % 8)) as u16
    }
}

/// `p` with the sprites found for the next line made the active ones.
pub open spec fn swapped_in(p: &Ppu) -> Ppu {
    Ppu { oam_buffer: p.oam_tmp, ..*p }
}

/// That slot `i` of `q` holds what dot 257 loads for the sprite in slot `i`
/// of `p`'s active buffer: if the sprite covers the line, its pattern row
/// (flipped vertically by attribute bit 7; bit-reversed unless attribute bit
/// 6 flips it horizontally), its palette and its priority; else nothing.
pub open spec fn slot_loaded(p: &Ppu, q: &Ppu, i: int) -> bool {
    let y = p.oam_buffer@[4 * i];
    let id = p.oam_buffer@[4 * i + 1];
    let attributes = p.oam_buffer@[4 * i + 2];
    let height = sprite_height(p.control);
    if y <= p.skanline < y + height {
        let offset = (p.skanline - y) as u16;
        let row = if attributes & 0x80 != 0 {
            (height - 1 - offset) as u16
        } else {
            offset
        };
        let address = sprite_row_address(p.control, id, row);
        let low = p.vram_read(address);
        let high = p.vram_read((address + 8) as u16);
        &&& if attributes & 0x40 == 0 {
            reversed(low, q.sprite_low_shift_register@[i]) && reversed(
                high,
                q.sprite_high_shift_register@[i],
            )
        } else {
            q.sprite_low_shift_register@[i] == low && q.sprite_high_shift_register@[i] == high
        }
        &&& q.sprite_attribute_shift_register@[i] == attributes & 0x03
        &&& q.sprite_priority_shift_register@[i] == if attributes & 0x20 == 0 {
            0u8
        } else {
            1u8
        }
    } else {
        &&& q.sprite_low_shift_register@[i] == 0
        &&& q.sprite_high_shift_register@[i] == 0
        &&& q.sprite_attribute_shift_register@[i] == 0
        &&& q.sprite_priority_shift_register@[i] == 0
    }
}

/// The 5-bit pixel (priority, palette, pattern) that sprite slot `i` of `p`
/// offers at this dot, 0 when transparent or not yet reached.
pub open spec fn slot_pixel(p: &Ppu, i: int) -> u16 {
    let lo = p.sprite_low_shift_register@[i] & 1;
    let hi = p.sprite_high_shift_register@[i] & 1;
    if p.oam_buffer@[4 * i + 3] == 0 && (lo != 0 || hi != 0) {
        (((p.sprite_priority_shift_register@[i] as u16) << 4u16) | ((
        p.sprite_attribute_shift_register@[i] as u16) << 2u16) | ((hi as u16) << 1u16) | (lo as u16)) as u16
    } else {
        0
    }
}

/// The first opaque pixel among slots `0..n`.
pub open spec fn first_sprite_pixel(p: &Ppu, n: int) -> u16
    decreases n,
{
    if n <= 0 {
        0
    } else {
        let w = first_sprite_pixel(p, n - 1);
        if w != 0 {
            w
        } else {
            slot_pixel(p, n - 1)
        }
    }
}

impl Ppu {
    /// Shifts one pixel out of the four background shifters: bits 3..0 are
    /// attribute high, attribute low, pattern high, pattern low.
    pub fn pop_bg_pixel(&mut self) -> (r: u16)
        requires
            old(self).wf(),
        ensures
            final(self).wf(),
            r == ((old(self).bg_high_attribute_shift_register & 1) << 3u16) | ((
            old(self).bg_low_attribute_shift_register & 1) << 2u16) | ((
            old(self).bg_high_shift_register & 1) << 1u16) | (old(self).bg_low_shift_register & 1),
            r < 16,
            *final(self) == (Ppu {
                bg_high_attribute_shift_register: old(self).bg_high_attribute_shift_register >> 1u16,
                bg_low_attribute_shift_register: old(self).bg_low_attribute_shift_register >> 1u16,
                bg_high_shift_register: old(self).bg_high_shift_register >> 1u16,
                bg_low_shift_register: old(self).bg_low_shift_register >> 1u16,
                ..*old(self)
            }),
    {
        let a = self.bg_high_attribute_shift_register;
        let b = self.bg_low_attribute_shift_register;
        let c = self.bg_high_shift_register;
        let d = self.bg_low_shift_register;
        let r = ((a & 1) << 3) | ((b & 1) << 2) | ((c & 1) << 1) | (d & 1);
        assert(r < 16) by (bit_vector)
            requires
                r == ((a & 1) << 3u16) | ((b & 1) << 2u16) | ((c & 1) << 1u16) | (d & 1),
        ;
        self.bg_high_attribute_shift_register = a >> 1;
        self.bg_low_attribute_shift_register = b >> 1;
        self.bg_high_shift_register = c >> 1;
        self.bg_low_shift_register = d >> 1;
        r
    }

    /// Dots 1..64: one byte of secondary OAM is set to 0xFF on each even dot.
    fn clear_secondary_oam(&mut self)
        requires
            old(self).wf(),
            1 <= old(self).cycle <= 64,
        ensures
            final(self).wf(),
            keeps_frame_state(old(self), final(self)),
            keeps_sprite_state(old(self), final(self)),
            keeps_eval_state(old(self), final(self)),
            final(self).cur_addr == old(self).cur_addr,
            final(self).status == old(self).status,
            old(self).cycle % 2 == 0 ==> final(self).oam_tmp@ == old(self).oam_tmp@.update(
                ((old(self).cycle - 1) / 8) * 4 + (old(self).cycle / 2) % 4,
                0xFF,
            ),
            old(self).cycle % 2 != 0 ==> final(self).oam_tmp == old(self).oam_tmp,
    {
        if self.cycle % 2 == 0 {
            let slot = ((self.cycle - 1) / 8) as usize;
            let byte = ((self.cycle / 2) % 4) as usize;
            self.oam_tmp.set(slot * 4 + byte, 0xFF);
        }
    }

    /// Dots 65..256: checks the next sprite of primary OAM against this line
    /// and copies it into secondary OAM if there is room; a ninth one sets the
    /// overflow flag.
    fn evaluate_sprite(&mut self)
        requires
            old(self).wf(),
            old(self).oam_counter < 64,
        ensures
            final(self).wf(),
            keeps_frame_state(old(self), final(self)),
            keeps_sprite_state(old(self), final(self)),
            final(self).cur_addr == old(self).cur_addr,
            final(self).oam_counter == old(self).oam_counter + 1,
            final(self).expected_sprite_zero_hit == (old(self).expected_sprite_zero_hit || (
            candidate_on_line(old(self)) && old(self).oam_counter == 0 && old(self).status & 0x40
                == 0)),
            ({
                let y = old(self).oam_memory@[4 * old(self).oam_counter as int];
                let hit = y <= old(self).skanline < y + sprite_height(old(self).control);
                &&& !hit ==> final(self).oam_tmp == old(self).oam_tmp
                    && final(self).oam_tmp_counter == old(self).oam_tmp_counter
                    && final(self).status == old(self).status
                &&& hit && old(self).oam_tmp_counter < 8 ==> final(self).oam_tmp_counter
                    == old(self).oam_tmp_counter + 1 && final(self).status == old(self).status
                    && forall|k: int|
                    0 <= k < 4 ==> #[trigger] final(self).oam_tmp@[4 * old(self).oam_tmp_counter + k]
                        == old(self).oam_memory@[4 * old(self).oam_counter + k]
                &&& hit && old(self).oam_tmp_counter == 8 ==> final(self).status == old(self).status
                    | 0x20 && final(self).oam_tmp == old(self).oam_tmp
            }),
    {
        let base = self.oam_counter * 4;
        let y = self.oam_memory[base];
        let height: u16 = if self.control & 0x20 != 0 {
            16
        } else {
            8
        };
        if y as u16 <= self.skanline && self.skanline < y as u16 + height {
            if self.oam_counter == 0 && self.status & 0x40 == 0 {
                self.expected_sprite_zero_hit = true;
            }
            if self.oam_tmp_counter < 8 {
                let dst = self.oam_tmp_counter * 4;
                let mut k: usize = 0;
                while k < 4
                    invariant
                        self.wf(),
                        keeps_frame_state(old(self), self),
                        keeps_sprite_state(old(self), self),
                        self.expected_sprite_zero_hit == (old(self).expected_sprite_zero_hit || (
                        candidate_on_line(old(self)) && old(self).oam_counter == 0 && old(self).status
                            & 0x40 == 0)),
                        self.cur_addr == old(self).cur_addr,
                        self.status == old(self).status,
                        self.oam_counter == old(self).oam_counter,
                        self.oam_tmp_counter == old(self).oam_tmp_counter,
                        self.oam_tmp_counter < 8,
                        self.oam_counter < 64,
                        base == 4 * self.oam_counter,
                        dst == 4 * self.oam_tmp_counter,
                        k <= 4,
                        forall|j: int| 0 <= j < k ==> #[trigger] self.oam_tmp@[dst + j] == self.oam_memory@[base + j],
                    decreases 4 - k,
                {
                    let b = self.oam_memory[base + k];
                    self.oam_tmp.set(dst + k, b);
                    k = k + 1;
                }
                self.oam_tmp_counter = self.oam_tmp_counter + 1;
            } else {
                let st = self.status;
                proof {
                    lemma_u8_bits(st);
                }
                self.status = st | 0x20;
            }
        }
        self.oam_counter = self.oam_counter + 1;
    }

    /// Dot 257: loads each active slot's pattern row, palette and priority
    /// for the line; a slot whose sprite is not on the line is emptied.
    #[verifier::rlimit(60)]
    fn update_sprite_shift_registers(&mut self)
        requires
            old(self).wf(),
        ensures
            final(self).wf(),
            keeps_frame_state(old(self), final(self)),
            final(self).cur_addr == old(self).cur_addr,
            final(self).status == old(self).status,
            final(self).oam_buffer == old(self).oam_buffer,
            forall|i: int| 0 <= i < 8 ==> #[trigger] slot_loaded(old(self), final(self), i),
    {
        let mut i: usize = 0;
        while i < 8
            invariant
                self.wf(),
                old(self).wf(),
                keeps_frame_state(old(self), self),
                self.cur_addr == old(self).cur_addr,
                self.status == old(self).status,
                self.oam_buffer == old(self).oam_buffer,
                i <= 8,
                forall|j: int| 0 <= j < i ==> #[trigger] slot_loaded(old(self), self, j),
            decreases 8 - i,
        {
            let ghost before = *self;
            let y = self.oam_buffer[4 * i];
            let id = self.oam_buffer[4 * i + 1];
            let attributes = self.oam_buffer[4 * i + 2];
            let height: u16 = if self.control & 0x20 != 0 {
                16
            } else {
                8
            };
            if y as u16 <= self.skanline && self.skanline < y as u16 + height {
                let y_offset = self.skanline - y as u16;
                let row = if attributes & 0x80 != 0 {
                    height - 1 - y_offset
                } else {
                    y_offset
                };
                let address = if self.control & 0x20 == 0 {
                    let table: u16 = if self.control & 0x08 != 0 {
                        0x1000
                    } else {
                        0
                    };
                    table + (id as u16) * 16 + row
                } else {
                    let table: u16 = if id & 1 != 0 {
                        0x1000
                    } else {
                        0
                    };
                    let tile = (id & 0xFE) as u16 + if row >= 8 {
                        1
                    } else {
                        0
                    };
                    table + tile * 16 + row % 8
                };
                assert(address == sprite_row_address(self.control, id, row));
                let raw_low = self.read_ppu(address);
                let raw_high = self.read_ppu(address + 8);
                let mut low = raw_low;
                let mut high = raw_high;
                if attributes & 0x40 == 0 {
                    low = reverse_bits(raw_low);
                    high = reverse_bits(raw_high);
                }
                self.sprite_low_shift_register.set(i, low);
                self.sprite_high_shift_register.set(i, high);
                self.sprite_attribute_shift_register.set(i, attributes & 0x03);
                self.sprite_priority_shift_register.set(
                    i,
                    if attributes & 0x20 == 0 {
                        0
                    } else {
                        1
                    },
                );
                assert(raw_low == old(self).vram_read(address));
                assert(raw_high == old(self).vram_read((address + 8) as u16));
            } else {
                self.sprite_low_shift_register.set(i, 0);
                self.sprite_high_shift_register.set(i, 0);
                self.sprite_attribute_shift_register.set(i, 0);
                self.sprite_priority_shift_register.set(i, 0);
            }
            assert(slot_loaded(old(self), self, i as int));
            assert forall|j: int| 0 <= j < i + 1 implies #[trigger] slot_loaded(old(self), self, j) by {
                if j < i {
                    assert(slot_loaded(old(self), &before, j));
                }
            }
            i = i + 1;
        }
    }

    /// Each slot whose X countdown is done shifts out one pixel, the others
    /// count down; the first opaque pixel wins. Sprite zero over an opaque
    /// background sets the zero-hit flag.
    fn pop_sprite_pixel_with_priority(&mut self, bg_pixel: u16) -> (r: u16)
        requires
            old(self).wf(),
        ensures
            final(self).wf(),
            keeps_frame_state(old(self), final(self)),
            final(self).cur_addr == old(self).cur_addr,
            keeps_eval_state(old(self), final(self)),
            final(self).oam_tmp == old(self).oam_tmp,
            r == first_sprite_pixel(old(self), 8),
            final(self).status == if old(self).expected_sprite_zero_hit && first_sprite_pixel(
                old(self),
                1,
            ) & 3 != 0 && bg_pixel & 3 != 0 && (old(self).mask & 0x06 == 0x06 || old(self).cycle > 8) {
                old(self).status | 0x40
            } else {
                old(self).status
            },
            forall|j: int|
                0 <= j < 8 ==> #[trigger] final(self).sprite_low_shift_register@[j] == if old(self).oam_buffer@[4 * j + 3] == 0 {
                    old(self).sprite_low_shift_register@[j] >> 1u8
                } else {
                    old(self).sprite_low_shift_register@[j]
                },
            forall|j: int|
                0 <= j < 8 ==> #[trigger] final(self).sprite_high_shift_register@[j] == if old(self).oam_buffer@[4 * j + 3] == 0 {
                    old(self).sprite_high_shift_register@[j] >> 1u8
                } else {
                    old(self).sprite_high_shift_register@[j]
                },
            forall|j: int|
                0 <= j < 8 ==> #[trigger] final(self).oam_buffer@[4 * j + 3] == if old(self).oam_buffer@[4 * j + 3] == 0 {
                    0
                } else {
                    (old(self).oam_buffer@[4 * j + 3] - 1) as u8
                },
            forall|k: int|
                0 <= k < 32 && k % 4 != 3 ==> #[trigger] final(self).oam_buffer@[k] == old(self).oam_buffer@[k],
            final(self).sprite_priority_shift_register == old(self).sprite_priority_shift_register,
            final(self).sprite_attribute_shift_register == old(self).sprite_attribute_shift_register,
    {
        let ghost start = *self;
        let mut pixel: u16 = 0;
        let mut i: usize = 0;
        while i < 8
            invariant
                self.wf(),
                keeps_frame_state(&start, self),
                start.wf(),
                self.cur_addr == start.cur_addr,
                i <= 8,
                pixel == first_sprite_pixel(&start, i as int),
                forall|j: int|
                    i <= j < 8 ==> #[trigger] self.sprite_low_shift_register@[j]
                        == start.sprite_low_shift_register@[j],
                forall|j: int|
                    i <= j < 8 ==> #[trigger] self.sprite_high_shift_register@[j]
                        == start.sprite_high_shift_register@[j],
                forall|j: int|
                    i <= j < 8 ==> #[trigger] self.oam_buffer@[4 * j + 3] == start.oam_buffer@[4 * j
                        + 3],
                self.sprite_priority_shift_register == start.sprite_priority_shift_register,
                self.sprite_attribute_shift_register == start.sprite_attribute_shift_register,
                keeps_eval_state(&start, self),
                self.oam_tmp == start.oam_tmp,
                self.status == if i > 0 && start.expected_sprite_zero_hit && first_sprite_pixel(&start, 1)
                    & 3 != 0 && bg_pixel & 3 != 0 && (start.mask & 0x06 == 0x06 || start.cycle > 8) {
                    start.status | 0x40
                } else {
                    start.status
                },
                forall|j: int|
                    0 <= j < i ==> #[trigger] self.sprite_low_shift_register@[j] == if start.oam_buffer@[4 * j + 3] == 0 {
                        start.sprite_low_shift_register@[j] >> 1u8
                    } else {
                        start.sprite_low_shift_register@[j]
                    },
                forall|j: int|
                    0 <= j < i ==> #[trigger] self.sprite_high_shift_register@[j] == if start.oam_buffer@[4 * j + 3] == 0 {
                        start.sprite_high_shift_register@[j] >> 1u8
                    } else {
                        start.sprite_high_shift_register@[j]
                    },
                forall|j: int|
                    0 <= j < i ==> #[trigger] self.oam_buffer@[4 * j + 3] == if start.oam_buffer@[4 * j + 3] == 0 {
                        0
                    } else {
                        (start.oam_buffer@[4 * j + 3] - 1) as u8
                    },
                forall|k: int|
                    0 <= k < 32 && k % 4 != 3 ==> #[trigger] self.oam_buffer@[k] == start.oam_buffer@[k],
            decreases 8 - i,
        {
            assert(self.sprite_low_shift_register@[i as int] == start.sprite_low_shift_register@[i as int]);
            assert(self.sprite_high_shift_register@[i as int] == start.sprite_high_shift_register@[i as int]);
            assert(self.oam_buffer@[4 * i + 3] == start.oam_buffer@[4 * i + 3]);
            proof {
                reveal_with_fuel(first_sprite_pixel, 2);
                lemma_u16_bits(0);
            }
            if self.oam_buffer[4 * i + 3] == 0 {
                let lo = self.sprite_low_shift_register[i] & 1;
                let hi = self.sprite_high_shift_register[i] & 1;
                let low_reg = self.sprite_low_shift_register[i];
                let high_reg = self.sprite_high_shift_register[i];
                self.sprite_low_shift_register.set(i, low_reg >> 1);
                self.sprite_high_shift_register.set(i, high_reg >> 1);
                if pixel == 0 && (lo != 0 || hi != 0) {
                    pixel = ((self.sprite_priority_shift_register[i] as u16) << 4) | ((
                    self.sprite_attribute_shift_register[i] as u16) << 2) | ((hi as u16) << 1)
                        | (lo as u16);
                }
                if i == 0 && self.expected_sprite_zero_hit && pixel & 0x03 != 0 && bg_pixel & 0x03
                    != 0 && (self.mask & 0x06 == 0x06 || self.cycle > 8) {
                    let st = self.status;
                    proof {
                        lemma_u8_bits(st);
                    }
                    self.status = st | 0x40;
                }
            } else {
                let x = self.oam_buffer[4 * i + 3];
                self.oam_buffer.set(4 * i + 3, x - 1);
            }
            i = i + 1;
        }
        pixel
    }

    /// The background work of one dot: shifting and fetching on the visible
    /// and prefetch dots, the scroll steps at dots 256 and 257, the vertical
    /// copy on the pre-render line. Returns the background pixel (4 bits).
    fn render_background(&mut self) -> (bg_pixel: u16)
        requires
            old(self).wf(),
        ensures
            final(self).wf(),
            keeps_frame_state(old(self), final(self)),
            final(self).status == old(self).status,
            keeps_sprite_state(old(self), final(self)),
            keeps_eval_state(old(self), final(self)),
            bg_pixel < 16,
            bg_pixel == background_pixel(old(self)),
            old(self).cycle == 257 ==> *final(self) == (Ppu { cur_addr: final(self).cur_addr, ..*old(self) }),
            old(self).mask & 0x08 == 0 ==> bg_pixel == 0 && final(self).cur_addr == old(self).cur_addr,
    {
        let cycle = self.cycle;
        let line = self.skanline;
        let on_screen = cycle >= 1 && cycle <= 256 && line <= 239;
        let render_line = line <= 239 || line == 261;
        let mut bg_pixel: u16 = 0;
        if self.mask & 0x08 != 0 {
            if on_screen {
                let p = self.pop_bg_pixel();
                if self.mask & 0x02 != 0 || cycle > 8 {
                    bg_pixel = p;
                }
                self.fetching_data_trough_cycles();
            }
            if cycle >= 321 && cycle <= 336 && render_line {
                self.pop_bg_pixel();
                self.fetching_data_trough_cycles();
            }
            if line == 261 && cycle >= 1 && cycle <= 256 {
                self.fetching_data_trough_cycles();
            }
            if cycle == 256 && render_line {
                self.cur_addr = increment_fine_y(self.cur_addr);
            }
            if cycle == 257 && render_line {
                self.cur_addr = copy_horizontal(self.cur_addr, self.tmp_addr);
            }
            if line == 261 && cycle >= 280 && cycle <= 304 {
                self.cur_addr = copy_vertical(self.cur_addr, self.tmp_addr);
            }
            if (cycle == 337 || cycle == 339) && render_line {
                self.next_background_tile_id = self.read_ppu(tile_address(self.cur_addr));
            }
        }
        bg_pixel
    }

    /// The sprite work of one visible dot: clearing and filling secondary OAM,
    /// and the sprite pixel. Returns the pixel (4 bits) and its priority.
    fn render_sprites(&mut self, bg_pixel: u16) -> (r: (u16, u16))
        requires
            old(self).wf(),
        ensures
            final(self).wf(),
            keeps_frame_state(old(self), final(self)),
            final(self).cur_addr == old(self).cur_addr,
            r.0 < 16,
            r.0 == sprite_pixel(old(self)) & 0x0F,
            !visible(old(self).cycle, old(self).skanline) ==> *final(self) == *old(self),
            r.1 == sprite_pixel(old(self)) >> 4u16,
            old(self).mask & 0x10 == 0 ==> r.0 == 0,
            final(self).status == sprite_status(old(self), bg_pixel),
    {
        let cycle = self.cycle;
        let line = self.skanline;
        let on_screen = cycle >= 1 && cycle <= 256 && line <= 239;
        let mut sprite_pixel: u16 = 0;
        let mut sprite_priority: u16 = 0;
        proof {
            lemma_u16_bits(0);
        }
        if self.mask & 0x10 != 0 && on_screen {
            if cycle <= 64 {
                self.clear_secondary_oam();
            }
            if cycle > 64 && cycle <= 256 && self.oam_counter < 64 {
                self.evaluate_sprite();
            }
            if self.mask & 0x04 != 0 || cycle > 8 {
                proof {
                    lemma_first_sprite_pixel_kept(old(self), self, 8);
                }
                proof {
                    lemma_first_sprite_pixel_kept(old(self), self, 1);
                }
                let sp = self.pop_sprite_pixel_with_priority(bg_pixel);
                proof {
                    lemma_u16_bits(sp);
                }
                sprite_pixel = sp & 0x0F;
                sprite_priority = sp >> 4;
            }
        }
        (sprite_pixel, sprite_priority)
    }

    /// Moves to the next dot and runs the vertical-blank edges.
    fn advance_dot(&mut self)
        requires
            old(self).wf(),
        ensures
            final(self).status == if final(self).cycle == 1 && final(self).skanline == 241 {
                old(self).status | 0x80
            } else if final(self).cycle == 1 && final(self).skanline == 261 {
                old(self).status & 0x1F
            } else {
                old(self).status
            },
            final(self).wf(),
            (final(self).cycle, final(self).skanline) == next_dot(old(self).cycle, old(self).skanline),
            final(self).frame_complete == (old(self).frame_complete || (old(self).cycle == 340
                && old(self).skanline == 261)),
            final(self).cartridge == old(self).cartridge,
            final(self).name_table == old(self).name_table,
            final(self).pallette == old(self).pallette,
            final(self).oam_memory == old(self).oam_memory,
            final(self).control == old(self).control,
            final(self).mask == old(self).mask,
            final(self).tmp_addr == old(self).tmp_addr,
            final(self).cur_addr == old(self).cur_addr,
            final(self).fine_x_scroll == old(self).fine_x_scroll,
            final(self).latch == old(self).latch,
            final(self).data_buffer == old(self).data_buffer,
            final(self).oam_address_reg == old(self).oam_address_reg,
            final(self).update_pallettes == old(self).update_pallettes,
            !(final(self).cycle == 1 && final(self).skanline == 261) ==> keeps_sprite_state(
                old(self),
                final(self),
            ),
            final(self).cycle == 1 && final(self).skanline == 241 ==> final(self).status & 0x80 != 0
                && final(self).vblank && final(self).nmi_require == (old(self).nmi_require
                || old(self).control & 0x80 != 0),
            final(self).cycle == 1 && final(self).skanline == 261 ==> final(self).status & 0xE0 == 0
                && !final(self).vblank && final(self).nmi_require == old(self).nmi_require,
            !(final(self).cycle == 1 && (final(self).skanline == 241 || final(self).skanline == 261))
                ==> final(self).status == old(self).status && final(self).vblank
                == old(self).vblank && final(self).nmi_require == old(self).nmi_require,
    {
        if self.cycle < 340 {
            self.cycle = self.cycle + 1;
        } else {
            self.cycle = 0;
            self.oam_counter = 0;
            self.oam_tmp_counter = 0;
            if self.skanline < 261 {
                self.skanline = self.skanline + 1;
            } else {
                self.skanline = 0;
                self.frame_complete = true;
            }
        }
        if self.skanline == 241 && self.cycle == 1 {
            let st = self.status;
            proof {
                lemma_u8_bits(st);
            }
            self.status = st | 0x80;
            self.vblank = true;
            if self.control & 0x80 != 0 {
                self.nmi_require = true;
            }
        }
        if self.skanline == 261 && self.cycle == 1 {
            let st = self.status;
            proof {
                lemma_u8_bits(st);
            }
            self.status = st & 0x1F;
            self.expected_sprite_zero_hit = false;
            self.vblank = false;
            self.sprite_low_shift_register = crate::ppu::zeroed(8);
            self.sprite_high_shift_register = crate::ppu::zeroed(8);
            self.sprite_attribute_shift_register = crate::ppu::zeroed(8);
            self.sprite_priority_shift_register = crate::ppu::zeroed(8);
        }
    }

    /// Advances one dot. Returns the pixel's colour on a visible dot (dots
    /// 1..256 of lines 0..239), None elsewhere. Dot 1 of line 241 starts
    /// vertical blank and raises the NMI line if CTRL bit 7 asks; dot 1 of
    /// line 261 ends it and clears the sprite flags.
    pub fn clock(&mut self) -> (color: Option<u32>)
        requires
            old(self).wf(),
        ensures
            status_after_dot(*old(self), *final(self)),
            final(self).wf(),
            (final(self).cycle, final(self).skanline) == next_dot(old(self).cycle, old(self).skanline),
            final(self).frame_complete == (old(self).frame_complete || (old(self).cycle == 340
                && old(self).skanline == 261)),
            color.is_some() == visible(old(self).cycle, old(self).skanline),
            visible(old(self).cycle, old(self).skanline) ==> color == Some(
                system_palette(
                    old(self).vram_read(
                        compose_spec(
                            background_pixel(old(self)),
                            sprite_pixel(old(self)) & 0x0F,
                            sprite_pixel(old(self)) >> 4u16,
                        ),
                    ) & 0x3F,
                ),
            ),
            visible(old(self).cycle, old(self).skanline) && old(self).mask & 0x18 == 0 ==> color
                == Some(system_palette(old(self).vram_read(0x3F00) & 0x3F)),
            old(self).cycle == 257 && old(self).skanline <= 239 ==> final(self).oam_buffer == old(self).oam_tmp
                && forall|i: int|
                0 <= i < 8 ==> #[trigger] slot_loaded(
                    &swapped_in(old(self)),
                    final(self),
                    i,
                ),
            final(self).cartridge == old(self).cartridge,
            final(self).name_table == old(self).name_table,
            final(self).pallette == old(self).pallette,
            final(self).oam_memory == old(self).oam_memory,
            final(self).control == old(self).control,
            final(self).mask == old(self).mask,
            final(self).tmp_addr == old(self).tmp_addr,
            final(self).fine_x_scroll == old(self).fine_x_scroll,
            final(self).latch == old(self).latch,
            final(self).data_buffer == old(self).data_buffer,
            final(self).oam_address_reg == old(self).oam_address_reg,
            final(self).update_pallettes == old(self).update_pallettes,
            old(self).mask & 0x08 == 0 ==> final(self).cur_addr == old(self).cur_addr,
            final(self).cycle == 1 && final(self).skanline == 241 ==> final(self).status & 0x80 != 0
                && final(self).vblank && final(self).nmi_require == (old(self).nmi_require
                || old(self).control & 0x80 != 0),
            final(self).cycle == 1 && final(self).skanline == 261 ==> final(self).status & 0xE0 == 0
                && !final(self).vblank && final(self).nmi_require == old(self).nmi_require,
            !(final(self).cycle == 1 && (final(self).skanline == 241 || final(self).skanline == 261))
                ==> final(self).status & 0x80 == old(self).status & 0x80 && final(self).vblank
                == old(self).vblank && final(self).nmi_require == old(self).nmi_require,
    {
        let cycle = self.cycle;
        let line = self.skanline;
        let on_screen = cycle >= 1 && cycle <= 256 && line <= 239;
        let m = self.mask;
        proof {
            lemma_u8_bits(m);
        }
        let bg_pixel = self.render_background();
        proof {
            lemma_first_sprite_pixel_kept(old(self), self, 8);
            lemma_first_sprite_pixel_kept(old(self), self, 1);
        }
        let ghost mid = *self;
        let (sprite_pixel, sprite_priority) = self.render_sprites(bg_pixel);
        assert(sprite_status(&mid, bg_pixel) == sprite_status(old(self), background_pixel(old(self))));
        let mut color: Option<u32> = None;
        if on_screen {
            proof {
                lemma_u16_bits(0);
            }
            let address = compose(bg_pixel, sprite_pixel, sprite_priority);
            let raw = self.read_ppu(address);
            proof {
                lemma_u8_bits(raw);
            }
            color = Some(system_color(raw & 0x3F));
        }
        if cycle == 257 && line <= 239 {
            std::mem::swap(&mut self.oam_tmp, &mut self.oam_buffer);
            let ghost swapped = *self;
            self.update_sprite_shift_registers();
            proof {
                assert forall|i: int| 0 <= i < 8 implies #[trigger] slot_loaded(
                    &swapped_in(old(self)),
                    self,
                    i,
                ) by {
                    assert(slot_loaded(&swapped, self, i));
                }
            }
        }
        let ghost before_advance = *self;
        self.advance_dot();
        proof {
            if cycle == 257 && line <= 239 {
                assert forall|i: int| 0 <= i < 8 implies #[trigger] slot_loaded(
                    &swapped_in(old(self)),
                    self,
                    i,
                ) by {
                    assert(slot_loaded(&swapped_in(old(self)), &before_advance, i));
                }
            }
        }
        color
    }

    /// Loads the next tile's pattern planes and attribute bits into the upper
    /// half of the shifters, aligned by fine X.
    fn set_next_data_to_shift_registers(&mut self)
        requires
            old(self).wf(),
        ensures
            final(self).wf(),
            keeps_frame_state(old(self), final(self)),
            keeps_sprite_state(old(self), final(self)),
            keeps_eval_state(old(self), final(self)),
            final(self).cur_addr == old(self).cur_addr,
            final(self).status == old(self).status,
    {
        let fx = self.fine_x_scroll;
        self.bg_low_shift_register = (self.bg_low_shift_register & 0x00FF) | (
        (self.next_background_low_pattern as u16) << (8 - fx) as u16);
        self.bg_high_shift_register = (self.bg_high_shift_register & 0x00FF) | (
        (self.next_background_high_pattern as u16) << (8 - fx) as u16);
        let cy = ((self.cur_addr >> 5) & 0x1F) as u8;
        let cx = (self.cur_addr & 0x1F) as u8;
        let idx = (cy & 0x02) | ((cx >> 1) & 0x01);
        assert(idx <= 3) by (bit_vector)
            requires
                idx == (cy & 0x02) | ((cx >> 1u8) & 0x01),
        ;
        let low_bit = (self.next_background_attribute >> (idx * 2)) & 0x01;
        let high_bit = (self.next_background_attribute >> (idx * 2 + 1)) & 0x01;
        let low_fill: u16 = if low_bit == 1 {
            0xFF00
        } else {
            0
        };
        let high_fill: u16 = if high_bit == 1 {
            0xFF00
        } else {
            0
        };
        self.bg_low_attribute_shift_register = (self.bg_low_attribute_shift_register & 0x00FF) | (
        low_fill >> fx as u16);
        self.bg_high_attribute_shift_register = (self.bg_high_attribute_shift_register & 0x00FF) | (
        high_fill >> fx as u16);
    }

    /// One dot of the 8-dot background fetch cadence: nametable byte (1),
    /// attribute byte (3), pattern low (5), pattern high (7), then the
    /// shifter reload and the coarse X step (0).
    fn fetching_data_trough_cycles(&mut self)
        requires
            old(self).wf(),
        ensures
            final(self).wf(),
            keeps_frame_state(old(self), final(self)),
            keeps_sprite_state(old(self), final(self)),
            keeps_eval_state(old(self), final(self)),
            final(self).status == old(self).status,
            old(self).cycle % 8 == 1 ==> final(self).next_background_tile_id == old(self).vram_read(
                0x2000 | (old(self).cur_addr & 0x0FFF),
            ),
            old(self).cycle % 8 == 3 ==> final(self).next_background_attribute == old(self).vram_read(
                0x23C0 | (old(self).cur_addr & 0x0C00) | ((old(self).cur_addr >> 4u16) & 0x38) | ((
                old(self).cur_addr >> 2u16) & 0x07),
            ),
            old(self).cycle % 8 == 5 ==> bit(final(self).next_background_low_pattern, 0) == bit(
                old(self).vram_read(
                    (bg_table(old(self).control) + old(self).next_background_tile_id as u16 * 16
                        + fine_y(old(self).cur_addr)) as u16,
                ),
                7,
            ),
            old(self).cycle % 8 == 7 ==> bit(final(self).next_background_high_pattern, 0) == bit(
                old(self).vram_read(
                    (bg_table(old(self).control) + old(self).next_background_tile_id as u16 * 16
                        + 8 + fine_y(old(self).cur_addr)) as u16,
                ),
                7,
            ),
            final(self).cur_addr == if old(self).cycle % 8 == 0 {
                coarse_x_step(old(self).cur_addr)
            } else {
                old(self).cur_addr
            },
    {
        let phase = self.cycle % 8;
        if phase == 1 {
            self.next_background_tile_id = self.read_ppu(tile_address(self.cur_addr));
        } else if phase == 3 {
            self.next_background_attribute = self.read_ppu(attribute_address(self.cur_addr));
        } else if phase == 5 {
            let table: u16 = if self.control & 0x10 != 0 {
                0x1000
            } else {
                0
            };
            let v = self.cur_addr;
            let fy = (v >> 12) & 7;
            proof {
                lemma_u16_bits(v);
            }
            let address = table + self.next_background_tile_id as u16 * 16 + fy;
            self.next_background_low_pattern = reverse_bits(self.read_ppu(address));
        } else if phase == 7 {
            let table: u16 = if self.control & 0x10 != 0 {
                0x1000
            } else {
                0
            };
            let v = self.cur_addr;
            let fy = (v >> 12) & 7;
            proof {
                lemma_u16_bits(v);
            }
            let address = table + self.next_background_tile_id as u16 * 16 + 8 + fy;
            self.next_background_high_pattern = reverse_bits(self.read_ppu(address));
        } else if phase == 0 {
            self.set_next_data_to_shift_registers();
            self.cur_addr = increment_coarse_x(self.cur_addr);
        }
    }
}

} // verus!
