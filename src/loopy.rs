use vstd::prelude::*;

verus! {

// The PPU's 15-bit VRAM address, laid out as
// fine Y [14:12] | nametable [11:10] | coarse Y [9:5] | coarse X [4:0].
pub open spec fn coarse_x(v: u16) -> u16 {
    v & 0x1F
}

pub open spec fn coarse_y(v: u16) -> u16 {
    (v >> 5u16) & 0x1F
}

/// Bit 10: the horizontal nametable select.
pub open spec fn nametable_x(v: u16) -> u16 {
    (v >> 10u16) & 1
}

/// Bit 11: the vertical nametable select.
pub open spec fn nametable_y(v: u16) -> u16 {
    (v >> 11u16) & 1
}

pub open spec fn fine_y(v: u16) -> u16 {
    (v >> 12u16) & 7
}

/// Builds an address from its fields.
pub open spec fn loopy(fy: u16, ny: u16, nx: u16, cy: u16, cx: u16) -> u16 {
    ((fy << 12u16) | (ny << 11u16) | (nx << 10u16) | (cy << 5u16) | cx) as u16
}

/// What the coarse X step makes of `v`.
pub open spec fn coarse_x_step(v: u16) -> u16 {
    if coarse_x(v) == 31 {
        loopy(fine_y(v), nametable_y(v), (1 - nametable_x(v)) as u16, coarse_y(v), 0)
    } else {
        loopy(fine_y(v), nametable_y(v), nametable_x(v), coarse_y(v), (coarse_x(v) + 1) as u16)
    }
}

/// The coarse X step at the end of each tile: 31 wraps to 0 and switches the
/// horizontal nametable.
pub fn increment_coarse_x(v: u16) -> (r: u16)
    requires
        v < 0x8000,
    ensures
        r < 0x8000,
        r == coarse_x_step(v),
{
    if v & 0x1F == 31 {
        let r = (v & !0x1Fu16) ^ 0x0400;
        assert(v & 0x1F == 31 && v < 0x8000 ==> r < 0x8000 && r == loopy(
            fine_y(v),
            nametable_y(v),
            (1 - nametable_x(v)) as u16,
            coarse_y(v),
            0,
        )) by (bit_vector)
            requires
                r == (v & !0x1Fu16) ^ 0x0400,
        ;
        r
    } else {
        let r = v + 1;
        assert(v & 0x1F != 31 && v < 0x8000 ==> r < 0x8000 && r == loopy(
            fine_y(v),
            nametable_y(v),
            nametable_x(v),
            coarse_y(v),
            ((v & 0x1F) + 1) as u16,
        )) by (bit_vector)
            requires
                r == v + 1,
        ;
        r
    }
}

/// What the coarse Y step makes of `v`.
pub open spec fn coarse_y_step(v: u16) -> u16 {
    if coarse_y(v) == 29 {
        loopy(fine_y(v), (1 - nametable_y(v)) as u16, nametable_x(v), 0, coarse_x(v))
    } else if coarse_y(v) == 31 {
        loopy(fine_y(v), nametable_y(v), nametable_x(v), 0, coarse_x(v))
    } else {
        loopy(fine_y(v), nametable_y(v), nametable_x(v), (coarse_y(v) + 1) as u16, coarse_x(v))
    }
}

/// The coarse Y step: 29 wraps to 0 and switches the vertical nametable; 31,
/// outside the picture, wraps to 0 without a switch.
pub fn increment_coarse_y(v: u16) -> (r: u16)
    requires
        v < 0x8000,
    ensures
        r < 0x8000,
        r == coarse_y_step(v),
{
    let cy = (v >> 5) & 0x1F;
    if cy == 29 {
        let r = (v & !0x03E0u16) ^ 0x0800;
        assert((v >> 5u16) & 0x1F == 29 && v < 0x8000 ==> r < 0x8000 && r == loopy(
            fine_y(v),
            (1 - nametable_y(v)) as u16,
            nametable_x(v),
            0,
            coarse_x(v),
        )) by (bit_vector)
            requires
                r == (v & !0x03E0u16) ^ 0x0800,
        ;
        r
    } else if cy == 31 {
        let r = v & !0x03E0u16;
        assert((v >> 5u16) & 0x1F == 31 && v < 0x8000 ==> r < 0x8000 && r == loopy(
            fine_y(v),
            nametable_y(v),
            nametable_x(v),
            0,
            coarse_x(v),
        )) by (bit_vector)
            requires
                r == v & !0x03E0u16,
        ;
        r
    } else {
        let r = v + 0x20;
        assert((v >> 5u16) & 0x1F != 31 && v < 0x8000 ==> r < 0x8000 && r == loopy(
            fine_y(v),
            nametable_y(v),
            nametable_x(v),
            (((v >> 5u16) & 0x1F) + 1) as u16,
            coarse_x(v),
        )) by (bit_vector)
            requires
                r == v + 0x20,
        ;
        r
    }
}

/// The fine Y step at dot 256: 7 wraps to 0 and carries into coarse Y.
pub fn increment_fine_y(v: u16) -> (r: u16)
    requires
        v < 0x8000,
    ensures
        r < 0x8000,
        fine_y(v) == 7 ==> r == coarse_y_step(
            loopy(0, nametable_y(v), nametable_x(v), coarse_y(v), coarse_x(v)),
        ),
        fine_y(v) != 7 ==> r == loopy(
            (fine_y(v) + 1) as u16,
            nametable_y(v),
            nametable_x(v),
            coarse_y(v),
            coarse_x(v),
        ),
{
    if v & 0x7000 == 0x7000 {
        assert(v & 0x7000 == 0x7000 ==> (v >> 12u16) & 7 == 7) by (bit_vector);
        assert(v & 0x0FFF < 0x8000) by (bit_vector);
        assert(v < 0x8000 ==> v & 0x0FFF == loopy(0, nametable_y(v), nametable_x(v), coarse_y(v), coarse_x(v))
            && coarse_y(v & 0x0FFF) == coarse_y(v) && fine_y(v & 0x0FFF) == 0 && nametable_y(v & 0x0FFF)
            == nametable_y(v) && nametable_x(v & 0x0FFF) == nametable_x(v) && coarse_x(v & 0x0FFF)
            == coarse_x(v)) by (bit_vector);
        increment_coarse_y(v & 0x0FFF)
    } else {
        let r = v + 0x1000;
        assert(v & 0x7000 != 0x7000 ==> (v >> 12u16) & 7 != 7) by (bit_vector);
        assert(v & 0x7000 != 0x7000 && v < 0x8000 ==> r < 0x8000 && r
            == loopy(
            (((v >> 12u16) & 7) + 1) as u16,
            nametable_y(v),
            nametable_x(v),
            coarse_y(v),
            coarse_x(v),
        )) by (bit_vector)
            requires
                r == v + 0x1000,
        ;
        r
    }
}

/// The nametable byte for the tile under `v`.
pub fn tile_address(v: u16) -> (r: u16)
    ensures
        r == 0x2000 | (v & 0x0FFF),
{
    0x2000 | (v & 0x0FFF)
}

/// The attribute byte for the 4x4-tile block under `v`.
pub fn attribute_address(v: u16) -> (r: u16)
    ensures
        r == 0x23C0 | (v & 0x0C00) | ((v >> 4u16) & 0x38) | ((v >> 2u16) & 0x07),
{
    0x23C0 | (v & 0x0C00) | ((v >> 4) & 0x38) | ((v >> 2) & 0x07)
}

/// Dot 257: the horizontal bits of `t` (coarse X, bit 10) go into `v`.
pub fn copy_horizontal(v: u16, t: u16) -> (r: u16)
    requires
        v < 0x8000,
        t < 0x8000,
    ensures
        r < 0x8000,
        r == loopy(fine_y(v), nametable_y(v), nametable_x(t), coarse_y(v), coarse_x(t)),
{
    let r = (v & !0x041Fu16) | (t & 0x041F);
    assert(v < 0x8000 && t < 0x8000 ==> r < 0x8000 && r == loopy(
        fine_y(v),
        nametable_y(v),
        nametable_x(t),
        coarse_y(v),
        coarse_x(t),
    )) by (bit_vector)
        requires
            r == (v & !0x041Fu16) | (t & 0x041F),
    ;
    r
}

/// The pre-render line: the vertical bits of `t` (fine Y, bit 11, coarse Y)
/// go into `v`.
pub fn copy_vertical(v: u16, t: u16) -> (r: u16)
    requires
        v < 0x8000,
        t < 0x8000,
    ensures
        r < 0x8000,
        r == loopy(fine_y(t), nametable_y(t), nametable_x(v), coarse_y(t), coarse_x(v)),
{
    let r = (v & 0x041F) | (t & 0x7BE0);
    assert(v < 0x8000 && t < 0x8000 ==> r < 0x8000 && r == loopy(
        fine_y(t),
        nametable_y(t),
        nametable_x(v),
        coarse_y(t),
        coarse_x(v),
    )) by (bit_vector)
        requires
            r == (v & 0x041F) | (t & 0x7BE0),
    ;
    r
}

} // verus!
