use vstd::prelude::*;

use crate::bus::Bus;
use crate::control::Controller;
use crate::emu6502::{cpu_cycle, nmi_entry, word, Emu6502, FLAG_I, FLAG_U};
use crate::render::{
    background_pixel, compose_spec, ppu_dot, sprite_pixel, system_palette, visible,
};
use crate::ppu::{next_dot, Ppu};
use crate::program::Cartridge;

verus! {

/// Master ticks in one frame: 341 dots by 262 lines.
pub const FRAME_TICKS: u32 = 89342;

/// The position of a dot in its frame.
pub open spec fn dot_position(cycle: u16, line: u16) -> int {
    line * 341 + cycle
}

/// The dot `n` dots after (`cycle`, `line`).
pub open spec fn dots_after(cycle: u16, line: u16, n: nat) -> (u16, u16)
    decreases n,
{
    if n == 0 {
        (cycle, line)
    } else {
        let (c, l) = dots_after(cycle, line, (n - 1) as nat);
        next_dot(c, l)
    }
}

/// Each dot moves the frame position on by one, modulo the frame.
pub proof fn lemma_next_dot_position(cycle: u16, line: u16)
    requires
        cycle <= 340,
        line <= 261,
    ensures
        dot_position(next_dot(cycle, line).0, next_dot(cycle, line).1) == (dot_position(cycle, line)
            + 1) % (FRAME_TICKS as int),
        next_dot(cycle, line).0 <= 340,
        next_dot(cycle, line).1 <= 261,
{
    assert(line * 341 + cycle + 1 <= 89342) by (nonlinear_arith)
        requires
            cycle <= 340,
            line <= 261,
    ;
    if cycle == 340 && line < 261 {
        assert((line + 1) * 341 == line * 341 + 341) by (nonlinear_arith);
    }
}

/// `n` dots move the frame position on by `n`, modulo the frame.
pub proof fn lemma_dots_after_position(cycle: u16, line: u16, n: nat)
    requires
        cycle <= 340,
        line <= 261,
    ensures
        dot_position(dots_after(cycle, line, n).0, dots_after(cycle, line, n).1) == (dot_position(
            cycle,
            line,
        ) + n) % (FRAME_TICKS as int),
        dots_after(cycle, line, n).0 <= 340,
        dots_after(cycle, line, n).1 <= 261,
    decreases n,
{
    if n > 0 {
        lemma_dots_after_position(cycle, line, (n - 1) as nat);
        let (c, l) = dots_after(cycle, line, (n - 1) as nat);
        lemma_next_dot_position(c, l);
        let p = dot_position(cycle, line);
        assert(((p + (n - 1)) % 89342 + 1) % 89342 == (p + n) % 89342) by {
            vstd::arithmetic::div_mod::lemma_add_mod_noop(p + (n - 1), 1, 89342);
            vstd::arithmetic::div_mod::lemma_small_mod(1, 89342);
        }
    }
}

proof fn lemma_position_unique(c1: u16, l1: u16, c2: u16, l2: u16)
    requires
        c1 <= 340,
        c2 <= 340,
        dot_position(c1, l1) == dot_position(c2, l2),
    ensures
        c1 == c2,
        l1 == l2,
{
    assert(c1 == c2 && l1 == l2) by (nonlinear_arith)
        requires
            c1 <= 340,
            c2 <= 340,
            l1 * 341 + c1 == l2 * 341 + c2,
    ;
}

/// 341 dots take the PPU to the same dot of the next line, modulo 262 lines.
pub proof fn lemma_line_of_dots(cycle: u16, line: u16)
    requires
        cycle <= 340,
        line <= 261,
    ensures
        dots_after(cycle, line, 341) == (cycle, ((line + 1) % 262) as u16),
{
    lemma_dots_after_position(cycle, line, 341);
    let (c, l) = dots_after(cycle, line, 341);
    let l2 = ((line + 1) % 262) as u16;
    if line < 261 {
        assert(dot_position(cycle, line) + 341 < 89342) by (nonlinear_arith)
            requires
                cycle <= 340,
                line < 261,
        ;
        assert(dot_position(cycle, l2) == dot_position(cycle, line) + 341) by (nonlinear_arith)
            requires
                l2 == line + 1,
        ;
    } else {
        assert(dot_position(cycle, l2) == dot_position(cycle, line) + 341 - 89342) by (
        nonlinear_arith)
            requires
                l2 == 0,
                line == 261,
        ;
    }
    lemma_position_unique(c, l, cycle, l2);
}

/// In any 341 x 262 consecutive dots the frame ends exactly once: the step
/// from (340, 261) to (0, 0) comes after `k` dots for exactly one `k` below
/// a frame's length.
pub proof fn lemma_one_frame_end(cycle: u16, line: u16, k: nat)
    requires
        cycle <= 340,
        line <= 261,
        k < FRAME_TICKS,
    ensures
        (dots_after(cycle, line, k) == (340u16, 261u16)) <==> k == (FRAME_TICKS - 1
            - dot_position(cycle, line)) % (FRAME_TICKS as int),
{
    lemma_dots_after_position(cycle, line, k);
    let (c, l) = dots_after(cycle, line, k);
    let p = dot_position(cycle, line);
    assert(0 <= p < 89342) by (nonlinear_arith)
        requires
            cycle <= 340,
            line <= 261,
            p == line * 341 + cycle,
    ;
    assert(dot_position(340, 261) == 89341);
    if dots_after(cycle, line, k) == (340u16, 261u16) {
        assert((p + k) % 89342 == 89341);
        assert(k == (89341 - p) % 89342) by (nonlinear_arith)
            requires
                (p + k) % 89342 == 89341,
                0 <= p < 89342,
                0 <= k < 89342,
        ;
    }
    if k == (89341 - p) % 89342 {
        assert((p + k) % 89342 == 89341) by (nonlinear_arith)
            requires
                k == (89341 - p) % 89342,
                0 <= p < 89342,
        ;
        lemma_position_unique(c, l, 340, 261);
    }
}

/// The DMA engine's state: waiting for alignment, the byte counter, and
/// whether it runs.
pub struct DmaState {
    pub wait: bool,
    pub counter: u8,
    pub enable: bool,
}

/// The DMA state of a bus.
pub open spec fn dma_state(bus: Bus) -> DmaState {
    DmaState { wait: bus.dma_wait_clock, counter: bus.oam_addr, enable: bus.dma_enable }
}

/// One CPU slot of a running DMA, on an odd or even cycle: the wait ends on
/// an odd cycle; then even cycles read and odd cycles write, and the 256th
/// write ends DMA.
pub open spec fn dma_slot(s: DmaState, odd: bool) -> DmaState {
    if !s.enable {
        s
    } else if s.wait {
        if odd {
            DmaState { wait: false, ..s }
        } else {
            s
        }
    } else if !odd {
        s
    } else if s.counter == 255 {
        DmaState { counter: 0, enable: false, ..s }
    } else {
        DmaState { counter: (s.counter + 1) as u8, ..s }
    }
}

/// `n` CPU slots of DMA, the first on an odd cycle if `odd`, parity
/// alternating.
pub open spec fn dma_run(s: DmaState, odd: bool, n: nat) -> DmaState
    decreases n,
{
    if n == 0 {
        s
    } else {
        dma_run(dma_slot(s, odd), !odd, (n - 1) as nat)
    }
}

proof fn lemma_dma_aligned(m: nat)
    requires
        m <= 512,
    ensures
        dma_run(DmaState { wait: false, counter: 0, enable: true }, false, m) == (DmaState {
            wait: false,
            counter: ((m / 2) % 256) as u8,
            enable: m < 512,
        }),
    decreases m,
{
    if m > 0 {
        lemma_dma_aligned_step((m - 1) as nat);
    }
}

proof fn lemma_dma_run_split(s: DmaState, odd: bool, n: nat)
    requires
        n > 0,
    ensures
        dma_run(s, odd, n) == dma_slot(
            dma_run(s, odd, (n - 1) as nat),
            if (n - 1) % 2 == 0 {
                odd
            } else {
                !odd
            },
        ),
    decreases n,
{
    reveal_with_fuel(dma_run, 2);
    if n > 1 {
        lemma_dma_run_split(dma_slot(s, odd), !odd, (n - 1) as nat);
        assert(dma_run(s, odd, (n - 1) as nat) == dma_run(dma_slot(s, odd), !odd, (n - 2) as nat));
        assert(dma_run(s, odd, n) == dma_run(dma_slot(s, odd), !odd, (n - 1) as nat));
    }
}

proof fn lemma_dma_aligned_step(m: nat)
    requires
        m < 512,
    ensures
        dma_run(DmaState { wait: false, counter: 0, enable: true }, false, m + 1) == (DmaState {
            wait: false,
            counter: (((m + 1) / 2) % 256) as u8,
            enable: m + 1 < 512,
        }),
    decreases m,
{
    let s0 = DmaState { wait: false, counter: 0, enable: true };
    if m > 0 {
        lemma_dma_aligned_step((m - 1) as nat);
    }
    lemma_dma_run_split(s0, false, m + 1);
}

/// OAM DMA from its start (waiting, counter 0) keeps the CPU suspended for
/// 513 CPU slots when it starts on an odd cycle and 514 on an even one, and
/// the counter, which is the OAM address of each write, runs through all 256
/// bytes back to 0.
pub proof fn lemma_dma_duration(odd: bool, n: nat)
    ensures
        ({
            let start = DmaState { wait: true, counter: 0, enable: true };
            let total: nat = if odd { 513 } else { 514 };
            &&& n < total ==> dma_run(start, odd, n).enable
            &&& dma_run(start, odd, total) == (DmaState { wait: false, counter: 0, enable: false })
        }),
{
    let start = DmaState { wait: true, counter: 0, enable: true };
    let aligned = DmaState { wait: false, counter: 0, enable: true };
    reveal_with_fuel(dma_run, 3);
    if odd {
        assert(dma_slot(start, true) == aligned);
        lemma_dma_aligned(512);
        assert(dma_run(start, true, 513) == dma_run(aligned, false, 512));
        if n < 513 && n > 0 {
            lemma_dma_aligned((n - 1) as nat);
            assert(dma_run(start, true, n) == dma_run(aligned, false, (n - 1) as nat));
        }
    } else {
        assert(dma_slot(start, false) == start);
        assert(dma_slot(start, true) == aligned);
        lemma_dma_aligned(512);
        assert(dma_run(start, false, 514) == dma_run(aligned, false, 512));
        if n < 514 && n > 1 {
            lemma_dma_aligned((n - 2) as nat);
            assert(dma_run(start, false, n) == dma_run(aligned, false, (n - 2) as nat));
        }
    }
}

/// The shade of a decoded pattern pixel: four greys for the four colour
/// indices.
pub open spec fn pattern_shade(v: u8) -> u32 {
    if v == 0 {
        0x222222
    } else if v == 1 {
        0x5555AA
    } else if v == 2 {
        0xDDCCAA
    } else if v == 3 {
        0x55AA99
    } else {
        0
    }
}

/// The CPU's share of a master tick with counter `counter`, from (`c`, `b`)
/// to (`fc`, `fb`): on every third tick one CPU cycle, or while DMA runs one
/// DMA step instead: the wait for an odd cycle, a read of the next source
/// byte on an even cycle, its write into OAM on an odd one.
pub open spec fn cpu_or_dma(c: Emu6502, b: Bus, fc: Emu6502, fb: Bus, counter: u32) -> bool {
    if counter % 3 != 0 {
        fc == c && fb == b
    } else if !b.dma_enable {
        cpu_cycle(c, b, fc, fb)
    } else {
        &&& fc == c
        &&& if b.dma_wait_clock {
            fb == if counter % 2 == 1 {
                Bus { dma_wait_clock: false, ..b }
            } else {
                b
            }
        } else if counter % 2 == 0 {
            let a = (b.oam_page | b.oam_addr as u16) as u16;
            fb == Bus { oam_data: b.read_value(a), ..b.after_read(a) }
        } else {
            &&& fb.ppu.oam_memory@ == b.ppu.oam_memory@.update(b.oam_addr as int, b.oam_data)
            &&& fb == (Bus {
                ppu: Ppu { oam_memory: fb.ppu.oam_memory, ..b.ppu },
                oam_addr: crate::ppu::wrap_inc(b.oam_addr),
                dma_enable: b.oam_addr != 255,
                ..b
            })
        }
    }
}

/// One master tick from `o` to `f`, returning `color`: the PPU's dot (to
/// `dot_ppu`); then, if the NMI line is high, the CPU between instructions and DMA
/// off, the NMI taken (to `c2` and `bx`) and the line lowered (to `b2`); then
/// the CPU's or DMA's share; then the counter moves on.
pub open spec fn tick_steps(
    o: Device,
    dot_ppu: Ppu,
    c2: Emu6502,
    bx: Bus,
    b2: Bus,
    f: Device,
    color: Option<u32>,
) -> bool {
    let b1 = Bus { ppu: dot_ppu, ..o.bus };
    let deliver = dot_ppu.nmi_require && o.cpu.cycle_counter == 0 && !o.bus.dma_enable;
    &&& ppu_dot(o.bus.ppu, dot_ppu, color)
    &&& f.nmi_serviced == deliver
    &&& if deliver {
        nmi_entry(o.cpu, b1, c2, bx) && b2 == Bus { ppu: Ppu { nmi_require: false, ..bx.ppu }, ..bx }
    } else {
        c2 == o.cpu && b2 == b1
    }
    &&& cpu_or_dma(c2, b2, f.cpu, f.bus, o.clock_counter)
    &&& f.clock_counter == ((o.clock_counter + 1) % 0x1_0000_0000) as u32
}

/// That `s` is `o` after `k` master ticks: the counter moved on by `k`, the
/// PPU `k` dots on, and the frame flag set if one of those dots ended a frame.
pub open spec fn ran(o: Device, s: Device, k: nat) -> bool {
    &&& s.clock_counter == (o.clock_counter + k) % 0x1_0000_0000
    &&& (s.bus.ppu.cycle, s.bus.ppu.skanline) == dots_after(o.bus.ppu.cycle, o.bus.ppu.skanline, k)
    &&& s.bus.ppu.frame_complete == (o.bus.ppu.frame_complete || exists|j: nat|
        j < k && #[trigger] dots_after(o.bus.ppu.cycle, o.bus.ppu.skanline, j) == (340u16, 261u16))
}

proof fn lemma_ran_step(o: Device, s: Device, t: Device, k: nat)
    requires
        ran(o, s, k),
        t.clock_counter == (s.clock_counter + 1) % 0x1_0000_0000,
        (t.bus.ppu.cycle, t.bus.ppu.skanline) == next_dot(s.bus.ppu.cycle, s.bus.ppu.skanline),
        t.bus.ppu.frame_complete == (s.bus.ppu.frame_complete || (s.bus.ppu.cycle == 340
            && s.bus.ppu.skanline == 261)),
    ensures
        ran(o, t, k + 1),
{
    let c0 = o.bus.ppu.cycle;
    let l0 = o.bus.ppu.skanline;
    assert(dots_after(c0, l0, k + 1) == next_dot(dots_after(c0, l0, k).0, dots_after(c0, l0, k).1));
    vstd::arithmetic::div_mod::lemma_add_mod_noop(o.clock_counter + k, 1, 0x1_0000_0000);
    vstd::arithmetic::div_mod::lemma_small_mod(1, 0x1_0000_0000);
    let ends = exists|j: nat| j < k + 1 && #[trigger] dots_after(c0, l0, j) == (340u16, 261u16);
    if s.bus.ppu.cycle == 340 && s.bus.ppu.skanline == 261 {
        assert(dots_after(c0, l0, k) == (340u16, 261u16));
    }
    if ends {
        let j = choose|j: nat| j < k + 1 && #[trigger] dots_after(c0, l0, j) == (340u16, 261u16);
        if j < k {
            assert(exists|i: nat| i < k && #[trigger] dots_after(c0, l0, i) == (340u16, 261u16));
        }
    }
}

/// The console: CPU, bus (with PPU, controller and cartridge), and the master
/// clock that interleaves them.
pub struct Device {
    pub cpu: Emu6502,
    pub bus: Bus,
    /// Master ticks so far, modulo 2^32.
    pub clock_counter: u32,
    /// Whether the last tick delivered an NMI to the CPU.
    pub nmi_serviced: bool,
}

impl Device {
    pub open spec fn wf(&self) -> bool {
        self.cpu.wf() && self.bus.wf()
    }

    pub fn new() -> (r: Device)
        ensures
            r.wf(),
            r.clock_counter == 0,
            r.bus.ppu.cartridge.is_none(),
            !r.bus.dma_enable,
            !r.nmi_serviced,
    {
        let controller_a = Controller::new();
        let ppu = Ppu::new();
        let bus = Bus::new(controller_a, ppu);
        let cpu = Emu6502::new();
        Device { cpu, bus, clock_counter: 0, nmi_serviced: false }
    }

    /// Plugs in a cartridge and resets the CPU, which loads PC from the reset
    /// vector.
    pub fn insert_cartridge(&mut self, cartridge: Cartridge)
        requires
            old(self).wf(),
            cartridge.wf(),
        ensures
            final(self).wf(),
            final(self).bus.ppu.cartridge == Some(cartridge),
            final(self).cpu.prog_counter == word(
                cartridge.prg_byte(0xFFFC).unwrap(),
                cartridge.prg_byte(0xFFFD).unwrap(),
            ),
            final(self).cpu.stack_ptr == 0xFD,
            final(self).cpu.status == FLAG_I | FLAG_U,
            final(self).cpu.acc == 0 && final(self).cpu.x == 0 && final(self).cpu.y == 0,
            final(self).cpu.cycle_counter == 8,
    {
        self.bus.insert_cartridge(cartridge);
        self.cpu.reset(&mut self.bus);
        self.bus.ppu.read_all_sprites(0);
        self.bus.ppu.read_all_sprites(1);
    }

    /// The host's reset: PPU and CPU clear their registers and the frame
    /// starts over; the CPU loads PC from the reset vector.
    pub fn reset(&mut self)
        requires
            old(self).wf(),
        ensures
            final(self).wf(),
            final(self).bus.ppu.cycle == 0 && final(self).bus.ppu.skanline == 0,
            final(self).bus.ppu.control == 0 && final(self).bus.ppu.mask == 0,
            final(self).bus.ppu.status == 0,
            final(self).bus.ppu.cur_addr == 0 && final(self).bus.ppu.tmp_addr == 0,
            !final(self).bus.ppu.latch,
            !final(self).bus.ppu.frame_complete,
            final(self).bus.cpu_ram == old(self).bus.cpu_ram,
            !final(self).bus.ppu.nmi_require,
            final(self).bus.ppu.cartridge == old(self).bus.ppu.cartridge,
            final(self).cpu.stack_ptr == 0xFD,
            final(self).cpu.status == FLAG_I | FLAG_U,
            final(self).cpu.acc == 0 && final(self).cpu.x == 0 && final(self).cpu.y == 0,
            final(self).cpu.cycle_counter == 8,
            old(self).bus.ppu.cartridge matches Some(c) ==> final(self).cpu.prog_counter == word(
                c.prg_byte(0xFFFC).unwrap(),
                c.prg_byte(0xFFFD).unwrap(),
            ),
    {
        self.bus.ppu.reset();
        self.cpu.reset(&mut self.bus);
    }

    /// The grey shade in which a debugger shows a decoded pattern pixel.
    pub fn read_pixel_pattern_table(&self, idx: usize, table: u8) -> (r: u32)
        requires
            self.wf(),
            idx < 0x4000,
            table < 2,
        ensures
            r == pattern_shade(self.bus.ppu.patterns@[table * 0x4000 + idx]),
    {
        let v = self.bus.ppu.patterns[(table as usize) * 0x4000 + idx];
        if v == 0 {
            0x222222
        } else if v == 1 {
            0x5555AA
        } else if v == 2 {
            0xDDCCAA
        } else if v == 3 {
            0x55AA99
        } else {
            0
        }
    }

    /// The palette's colours if it changed since the last call, for a host
    /// that shows them; the change flag is then cleared.
    pub fn update_pallettes(&mut self) -> (r: Option<Vec<u32>>)
        requires
            old(self).wf(),
        ensures
            final(self).wf(),
            !final(self).bus.ppu.update_pallettes,
            r.is_some() == old(self).bus.ppu.update_pallettes,
            r matches Some(colors) ==> colors@.len() == 32 && forall|i: int|
                0 <= i < 32 ==> #[trigger] colors@[i] == crate::render::system_palette(
                    old(self).bus.ppu.vram_read((0x3F00 + i) as u16) & 0x3F,
                ),
    {
        if self.bus.ppu.update_pallettes {
            let colors = self.bus.ppu.palette_colors();
            self.bus.ppu.update_pallettes = false;
            Some(colors)
        } else {
            None
        }
    }

    /// Runs master ticks until the PPU completes a frame, and returns how
    /// many ran; the host then takes the picture and clears the flag. From a
    /// cleared flag the PPU stops at dot 0 of line 0.
    pub fn clock_frame(&mut self) -> (ticks: u32)
        requires
            old(self).wf(),
        ensures
            final(self).wf(),
            final(self).bus.ppu.frame_complete,
            ticks <= FRAME_TICKS,
            ran(*old(self), *final(self), ticks as nat),
            !old(self).bus.ppu.frame_complete ==> final(self).bus.ppu.cycle == 0
                && final(self).bus.ppu.skanline == 0,
            old(self).bus.ppu.frame_complete ==> ticks == 0,
    {
        let ghost start = *self;
        let ghost c0 = self.bus.ppu.cycle;
        let ghost l0 = self.bus.ppu.skanline;
        proof {
            assert(0 <= dot_position(c0, l0) < 89342) by (nonlinear_arith)
                requires
                    c0 <= 340,
                    l0 <= 261,
            ;
            assert(!(exists|j: nat| j < 0 && #[trigger] dots_after(c0, l0, j) == (340u16, 261u16)));
        }
        let mut k: u32 = 0;
        while !self.bus.ppu.frame_complete && k < FRAME_TICKS
            invariant
                self.wf(),
                k <= FRAME_TICKS,
                0 <= dot_position(c0, l0) < 89342,
                c0 == start.bus.ppu.cycle,
                l0 == start.bus.ppu.skanline,
                ran(start, *self, k as nat),
                start.bus.ppu.frame_complete ==> k == 0,
                !self.bus.ppu.frame_complete ==> dot_position(self.bus.ppu.cycle, self.bus.ppu.skanline)
                    == dot_position(c0, l0) + k,
                !start.bus.ppu.frame_complete && self.bus.ppu.frame_complete ==> self.bus.ppu.cycle == 0
                    && self.bus.ppu.skanline == 0,
            decreases FRAME_TICKS - k,
        {
            let ghost before = *self;
            self.clock();
            proof {
                lemma_ran_step(start, before, *self, k as nat);
                lemma_next_dot_position(before.bus.ppu.cycle, before.bus.ppu.skanline);
                if !self.bus.ppu.frame_complete {
                    assert(!(before.bus.ppu.cycle == 340 && before.bus.ppu.skanline == 261));
                    assert(dot_position(before.bus.ppu.cycle, before.bus.ppu.skanline) < 89341) by (
                    nonlinear_arith)
                        requires
                            before.bus.ppu.cycle <= 340,
                            before.bus.ppu.skanline <= 261,
                            !(before.bus.ppu.cycle == 340 && before.bus.ppu.skanline == 261),
                    ;
                }
            }
            k = k + 1;
        }
        proof {
            if !self.bus.ppu.frame_complete {
                assert(dot_position(self.bus.ppu.cycle, self.bus.ppu.skanline) < 89342) by (
                nonlinear_arith)
                    requires
                        self.bus.ppu.cycle <= 340,
                        self.bus.ppu.skanline <= 261,
                ;
            }
        }
        k
    }

    /// Runs master ticks until the CPU finishes an instruction, for stepping
    /// in a debugger; gives up on a halted CPU or after 2048 ticks. Returns
    /// whether an instruction was finished.
    pub fn clock_instruction(&mut self) -> (completed: bool)
        requires
            old(self).wf(),
        ensures
            final(self).wf(),
            completed == final(self).cpu.clock_complete,
            exists|k: nat|
                #![trigger ran(*old(self), *final(self), k)]
                k <= 2048 && ran(*old(self), *final(self), k) && (completed || final(self).cpu.halted
                    || k == 2048) && (!old(self).cpu.halted ==> k >= 1),
    {
        let ghost start = *self;
        let mut k: u32 = 0;
        self.cpu.clock_complete = false;
        proof {
            assert(!(exists|j: nat| j < 0 && #[trigger] dots_after(start.bus.ppu.cycle, start.bus.ppu.skanline, j) == (340u16, 261u16)));
            assert(ran(start, *self, 0));
        }
        while !self.cpu.clock_complete && !self.cpu.halted && k < 2048
            invariant
                self.wf(),
                k <= 2048,
                ran(start, *self, k as nat),
                self.cpu.halted ==> start.cpu.halted || k >= 1,
                k == 0 ==> self.cpu.halted == start.cpu.halted && !self.cpu.clock_complete,
            decreases 2048 - k,
        {
            let ghost before = *self;
            self.clock();
            proof {
                lemma_ran_step(start, before, *self, k as nat);
            }
            k = k + 1;
        }
        assert(ran(start, *self, k as nat));
        self.cpu.clock_complete
    }

    /// Runs `amount` master ticks.
    pub fn clock_amount(&mut self, amount: u32)
        requires
            old(self).wf(),
        ensures
            final(self).wf(),
            ran(*old(self), *final(self), amount as nat),
    {
        let ghost start = *self;
        let mut k: u32 = 0;
        proof {
            assert(!(exists|j: nat| j < 0 && #[trigger] dots_after(start.bus.ppu.cycle, start.bus.ppu.skanline, j) == (340u16, 261u16)));
        }
        while k < amount
            invariant
                self.wf(),
                k <= amount,
                ran(start, *self, k as nat),
            decreases amount - k,
        {
            let ghost before = *self;
            self.clock();
            proof {
                lemma_ran_step(start, before, *self, k as nat);
            }
            k = k + 1;
        }
    }

    /// The CPU's share of a master tick: on every third tick the CPU advances
    /// one cycle, or DMA one step while it runs.
    fn step_cpu_or_dma(&mut self)
        requires
            old(self).wf(),
        ensures
            final(self).wf(),
            old(self).bus.keeps_timing(&final(self).bus),
            final(self).clock_counter == old(self).clock_counter,
            final(self).nmi_serviced == old(self).nmi_serviced,
            cpu_or_dma(old(self).cpu, old(self).bus, final(self).cpu, final(self).bus, old(self).clock_counter),
            old(self).cpu.cycle_counter > 0 && !old(self).bus.dma_enable ==> final(self).bus == old(self).bus,
            old(self).clock_counter % 3 != 0 ==> *final(self) == *old(self),
            old(self).bus.dma_enable ==> final(self).cpu == old(self).cpu,
            old(self).bus.dma_enable ==> dma_state(final(self).bus) == if old(self).clock_counter
                % 3 == 0 {
                dma_slot(dma_state(old(self).bus), old(self).clock_counter % 2 == 1)
            } else {
                dma_state(old(self).bus)
            },
    {
        proof {
            reveal(cpu_cycle);
        }
        if self.clock_counter % 3 == 0 {
            if !self.bus.dma_enable() {
                self.cpu.clock(&mut self.bus);
            } else if self.bus.dma_wait_clock() {
                if self.clock_counter % 2 == 1 {
                    self.bus.set_dma_wait_clock(false);
                }
            } else if self.clock_counter % 2 == 0 {
                self.bus.read_dma_byte();
            } else {
                self.bus.write_dma_byte();
            }
        }
    }

    /// The PPU's share of a master tick: one dot.
    fn step_ppu(&mut self) -> (color: Option<u32>)
        requires
            old(self).wf(),
        ensures
            final(self).wf(),
            ppu_dot(old(self).bus.ppu, final(self).bus.ppu, color),
            *final(self) == (Device { bus: Bus { ppu: final(self).bus.ppu, ..old(self).bus }, ..*old(self) }),
            (final(self).bus.ppu.cycle, final(self).bus.ppu.skanline) == next_dot(
                old(self).bus.ppu.cycle,
                old(self).bus.ppu.skanline,
            ),
            final(self).bus.ppu.frame_complete == (old(self).bus.ppu.frame_complete || (old(self).bus.ppu.cycle == 340 && old(self).bus.ppu.skanline == 261)),
            final(self).bus.ppu.nmi_require == (old(self).bus.ppu.nmi_require || (next_dot(
                old(self).bus.ppu.cycle,
                old(self).bus.ppu.skanline,
            ) == (1u16, 241u16) && old(self).bus.ppu.control & 0x80 != 0)),
            color.is_some() == visible(old(self).bus.ppu.cycle, old(self).bus.ppu.skanline),
            visible(old(self).bus.ppu.cycle, old(self).bus.ppu.skanline) ==> color == Some(
                system_palette(
                    old(self).bus.ppu.vram_read(
                        compose_spec(
                            background_pixel(&old(self).bus.ppu),
                            sprite_pixel(&old(self).bus.ppu) & 0x0F,
                            sprite_pixel(&old(self).bus.ppu) >> 4u16,
                        ),
                    ) & 0x3F,
                ),
            ),
    {
        let color = self.bus.ppu.clock();
        proof {
            reveal(ppu_dot);
        }
        color
    }

    /// Takes a pending NMI: when the line is high, the CPU is between
    /// instructions and DMA is off, the CPU enters the NMI handler and the
    /// line is lowered.
    fn deliver_nmi(&mut self)
        requires
            old(self).wf(),
        ensures
            final(self).wf(),
            final(self).clock_counter == old(self).clock_counter,
            old(self).bus.keeps_timing(&final(self).bus),
            final(self).nmi_serviced == (old(self).bus.ppu.nmi_require && old(self).cpu.cycle_counter
                == 0 && !old(self).bus.dma_enable),
            final(self).nmi_serviced ==> exists|bx: Bus|
                #[trigger] nmi_entry(old(self).cpu, old(self).bus, final(self).cpu, bx) && final(self).bus == (Bus {
                    ppu: Ppu { nmi_require: false, ..bx.ppu },
                    ..bx
                }),
            final(self).nmi_serviced ==> final(self).cpu.cycle_counter == 8 && !final(self).bus.dma_enable
                && !final(self).bus.ppu.nmi_require,
            !final(self).nmi_serviced ==> final(self).cpu == old(self).cpu && final(self).bus == old(self).bus,
    {
        self.nmi_serviced = false;
        if self.bus.ppu.nmi_require() && self.cpu.cycle_counter == 0 && !self.bus.dma_enable() {
            self.cpu.nmi(&mut self.bus);
            let ghost bx = self.bus;
            proof {
                reveal(nmi_entry);
            }
            self.bus.ppu.reset_nmi_require();
            self.nmi_serviced = true;
            assert(nmi_entry(old(self).cpu, old(self).bus, self.cpu, bx));
        }
    }

    /// One master tick: the PPU advances one dot; an NMI line that is high is
    /// delivered when the CPU is between instructions and DMA is off, and
    /// lowered; on every third tick the CPU advances one cycle, or DMA one
    /// step while it runs (waiting for an odd tick to start, then reading on
    /// even and writing on odd ones). Returns the PPU's pixel.
    pub fn clock(&mut self) -> (color: Option<u32>)
        requires
            old(self).wf(),
        ensures
            final(self).wf(),
            exists|dot_ppu: Ppu, c2: Emu6502, bx: Bus, b2: Bus|
                #[trigger] tick_steps(*old(self), dot_ppu, c2, bx, b2, *final(self), color),
            final(self).clock_counter == (old(self).clock_counter + 1) % 0x1_0000_0000,
            (final(self).bus.ppu.cycle, final(self).bus.ppu.skanline) == next_dot(
                old(self).bus.ppu.cycle,
                old(self).bus.ppu.skanline,
            ),
            final(self).bus.ppu.frame_complete == (old(self).bus.ppu.frame_complete || (old(self).bus.ppu.cycle == 340 && old(self).bus.ppu.skanline == 261)),
            color.is_some() == visible(old(self).bus.ppu.cycle, old(self).bus.ppu.skanline),
            visible(old(self).bus.ppu.cycle, old(self).bus.ppu.skanline) ==> color == Some(
                system_palette(
                    old(self).bus.ppu.vram_read(
                        compose_spec(
                            background_pixel(&old(self).bus.ppu),
                            sprite_pixel(&old(self).bus.ppu) & 0x0F,
                            sprite_pixel(&old(self).bus.ppu) >> 4u16,
                        ),
                    ) & 0x3F,
                ),
            ),
            final(self).nmi_serviced == ((old(self).bus.ppu.nmi_require || (next_dot(
                old(self).bus.ppu.cycle,
                old(self).bus.ppu.skanline,
            ) == (1u16, 241u16) && old(self).bus.ppu.control & 0x80 != 0)) && old(self).cpu.cycle_counter
                == 0 && !old(self).bus.dma_enable),
            final(self).nmi_serviced ==> !final(self).bus.ppu.nmi_require,
            old(self).clock_counter % 3 != 0 && !final(self).nmi_serviced ==> final(self).cpu
                == old(self).cpu,
            old(self).bus.dma_enable ==> final(self).cpu == old(self).cpu,
            old(self).bus.dma_enable ==> dma_state(final(self).bus) == if old(self).clock_counter
                % 3 == 0 {
                dma_slot(dma_state(old(self).bus), old(self).clock_counter % 2 == 1)
            } else {
                dma_state(old(self).bus)
            },
    {
        let ghost start = *self;
        let color = self.step_ppu();
        let ghost dot_ppu = self.bus.ppu;
        self.deliver_nmi();
        let ghost c2 = self.cpu;
        let ghost b2 = self.bus;
        self.step_cpu_or_dma();
        self.clock_counter = if self.clock_counter == 0xFFFF_FFFF {
            0
        } else {
            self.clock_counter + 1
        };
        proof {
            if self.nmi_serviced {
                let bx = choose|bx: Bus|
                    #[trigger] nmi_entry(start.cpu, Bus { ppu: dot_ppu, ..start.bus }, c2, bx) && b2 == (Bus {
                        ppu: Ppu { nmi_require: false, ..bx.ppu },
                        ..bx
                    });
                assert(tick_steps(start, dot_ppu, c2, bx, b2, *self, color));
            } else {
                assert(tick_steps(start, dot_ppu, c2, b2, b2, *self, color));
            }
        }
        color
    }
}

} // verus!
