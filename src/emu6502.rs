use vstd::prelude::*;

use crate::bits::lemma_u8_bits;
use crate::bus::Bus;
use crate::opcodes::{
    decode, is_branch, is_branch_exec, lemma_legal_cycles, opcode_entry, page_cross_sensitive,
    page_cross_sensitive_exec, AddressingMode, Instruction,
};

verus! {

/// Carry.
pub const FLAG_C: u8 = 0x01;

/// Zero.
pub const FLAG_Z: u8 = 0x02;

/// Interrupt disable.
pub const FLAG_I: u8 = 0x04;

/// Decimal (kept, but arithmetic is binary).
pub const FLAG_D: u8 = 0x08;

/// Break, only in pushed copies of the status.
pub const FLAG_B: u8 = 0x10;

/// Unused, always 1.
pub const FLAG_U: u8 = 0x20;

/// Overflow.
pub const FLAG_V: u8 = 0x40;

/// Sign.
pub const FLAG_S: u8 = 0x80;

/// The 6502 core: registers, status, and the state of the instruction in
/// progress.
pub struct Emu6502 {
    pub acc: u8,
    pub x: u8,
    pub y: u8,
    pub status: u8,
    /// The stack lives at 0x0100 + stack_ptr.
    pub stack_ptr: u8,
    pub prog_counter: u16,
    /// The effective address of the instruction in progress.
    pub address: u16,
    /// A branch's offset, sign-extended to 16 bits.
    pub addr_offset: u16,
    /// The operand byte.
    pub fetched_data: u8,
    pub opcode: u8,
    /// Cycles left of the instruction in progress.
    pub cycle_counter: u8,
    /// Cycles added to the base count by a page crossing or a taken branch.
    pub additional_cycles: u8,
    /// Set on the last cycle of an instruction.
    pub clock_complete: bool,
    /// Set when an undocumented opcode stopped the CPU.
    pub halted: bool,
}

/// One more, modulo 2^16.
pub open spec fn inc16(x: u16) -> u16 {
    ((x + 1) % 0x10000) as u16
}

/// One more, modulo 256.
pub open spec fn inc8(x: u8) -> u8 {
    ((x + 1) % 256) as u8
}

/// One less, modulo 256.
pub open spec fn dec8(x: u8) -> u8 {
    ((x + 255) % 256) as u8
}

/// The stack address for a stack pointer: always in 0x0100..0x01FF.
pub open spec fn stack_address(sp: u8) -> u16 {
    (0x0100 + sp) as u16
}

/// Whether `mask` is set in status `p`.
pub open spec fn flag(p: u8, mask: u8) -> bool {
    p & mask != 0
}

/// Z and S follow `v`; the other flags of `p` stay.
pub open spec fn zs_of(r: u8, p: u8, v: u8) -> bool {
    &&& flag(r, FLAG_Z) == (v == 0)
    &&& flag(r, FLAG_S) == (v & 0x80 != 0)
    &&& r & 0x7D == p & 0x7D
}

/// A little-endian word.
pub open spec fn word(low: u8, high: u8) -> u16 {
    (high * 256 + low) as u16
}

/// Sets Z and S of `p` from `v`.
fn with_zs(p: u8, v: u8) -> (r: u8)
    ensures
        zs_of(r, p, v),
{
    let r = (p & 0x7D) | (if v == 0 {
        0x02u8
    } else {
        0
    }) | (v & 0x80);
    assert(((p & 0x7D) | 0x02u8 | (v & 0x80)) & 0x02 != 0 && ((p & 0x7D) | 0u8 | (v & 0x80)) & 0x02
        == 0 && ((p & 0x7D) | 0x02u8 | (v & 0x80)) & 0x80 == v & 0x80 && ((p & 0x7D) | 0u8 | (v
        & 0x80)) & 0x80 == v & 0x80 && ((p & 0x7D) | 0x02u8 | (v & 0x80)) & 0x7D == p & 0x7D && ((p
        & 0x7D) | 0u8 | (v & 0x80)) & 0x7D == p & 0x7D && (v & 0x80 != 0 <==> v & 0x80 == 0x80))
        by (bit_vector);
    assert(v == 0 ==> v & 0x80 == 0) by (bit_vector);
    r
}

/// Sets or clears the flags in `mask`.
fn with_flag(p: u8, mask: u8, on: bool) -> (r: u8)
    ensures
        r == if on {
            p | mask
        } else {
            p & !mask
        },
{
    if on {
        p | mask
    } else {
        p & !mask
    }
}

/// The next program counter.
fn next_pc(x: u16) -> (r: u16)
    ensures
        r == inc16(x),
{
    if x == 0xFFFF {
        0
    } else {
        x + 1
    }
}

fn make_word(low: u8, high: u8) -> (r: u16)
    ensures
        r == word(low, high),
{
    let r = ((high as u16) << 8) | low as u16;
    assert(r == high * 256 + low) by (bit_vector)
        requires
            r == ((high as u16) << 8u16) | low as u16,
    ;
    r
}

proof fn lemma_u_kept(p: u8, mask: u8)
    requires
        p & 0x20 != 0,
    ensures
        (p | mask) & 0x20 != 0,
        mask & 0x20 == 0 ==> (p & !mask) & 0x20 != 0,
{
    assert(p & 0x20 != 0 ==> (p | mask) & 0x20 != 0) by (bit_vector);
    assert(p & 0x20 != 0 && mask & 0x20 == 0 ==> (p & !mask) & 0x20 != 0) by (bit_vector);
}

/// The flags after an arithmetic or shift result `r`: Z and S from `r`, C
/// from `carry`, V from `overflow`; I, D, B and U stay.
pub open spec fn nvzc_of(q: u8, p: u8, r: u8, carry: bool, overflow: bool) -> bool {
    &&& flag(q, FLAG_Z) == (r == 0)
    &&& flag(q, FLAG_S) == (r & 0x80 != 0)
    &&& flag(q, FLAG_C) == carry
    &&& flag(q, FLAG_V) == overflow
    &&& q & 0x3C == p & 0x3C
}

fn with_nvzc(p: u8, r: u8, carry: bool, overflow: bool) -> (q: u8)
    ensures
        nvzc_of(q, p, r, carry, overflow),
{
    let z: u8 = if r == 0 {
        0x02
    } else {
        0
    };
    let c: u8 = if carry {
        0x01
    } else {
        0
    };
    let v: u8 = if overflow {
        0x40
    } else {
        0
    };
    let q = (p & 0x3C) | z | (r & 0x80) | c | v;
    assert((q & 0x02 != 0) == (z == 0x02) && (q & 0x80 != 0) == (r & 0x80 != 0) && (q & 0x01 != 0)
        == (c == 0x01) && (q & 0x40 != 0) == (v == 0x40) && q & 0x3C == p & 0x3C) by (bit_vector)
        requires
            q == (p & 0x3C) | z | (r & 0x80) | c | v,
            z == 0x02 || z == 0,
            c == 0x01 || c == 0,
            v == 0x40 || v == 0,
    ;
    q
}

/// The sum that ADC forms: A + operand + carry.
pub open spec fn adc_sum(a: u8, m: u8, carry: bool) -> int {
    a + m + if carry { 1int } else { 0int }
}

/// Signed overflow of an addition of `a` and `m` giving `r`: both operands
/// share a sign that the result does not.
pub open spec fn add_overflow(a: u8, m: u8, r: u8) -> bool {
    (a & 0x80) == (m & 0x80) && (a & 0x80) != (r & 0x80)
}

proof fn lemma_u_flag_kept(q: u8, p: u8)
    requires
        q & 0x3C == p & 0x3C || q & 0x7D == p & 0x7D,
        p & 0x20 != 0,
    ensures
        q & 0x20 != 0,
{
    assert((q & 0x3C == p & 0x3C || q & 0x7D == p & 0x7D) && p & 0x20 != 0 ==> q & 0x20 != 0)
        by (bit_vector);
}

/// The steps of an interrupt entry from (`cpu`, `bus`): the return address
/// pushed high byte first (`b1`, `b2`), the status (`b3`), I set, and the new
/// program counter read from `vector`.
pub open spec fn interrupt_steps(
    cpu: Emu6502,
    bus: Bus,
    b1: Bus,
    b2: Bus,
    b3: Bus,
    cpu_after: Emu6502,
    bus_after: Bus,
    return_address: u16,
    pushed_status: u8,
    vector: u16,
) -> bool {
    let sp = cpu.stack_ptr;
    let b4 = b3.after_read(vector);
    &&& bus.written(&b1, stack_address(sp), (return_address / 256) as u8)
    &&& b1.written(&b2, stack_address(dec8(sp)), (return_address % 256) as u8)
    &&& b2.written(&b3, stack_address(dec8(dec8(sp))), pushed_status)
    &&& bus_after == b4.after_read(inc16(vector))
    &&& cpu_after == (Emu6502 {
        prog_counter: word(b3.read_value(vector), b4.read_value(inc16(vector))),
        stack_ptr: dec8(dec8(dec8(sp))),
        status: cpu.status | FLAG_I,
        ..cpu
    })
}

/// What one CPU cycle does, from (`o`, `ob`) to (`f`, `fb`): the contract of
/// `Emu6502::clock`.
#[verifier::opaque]
pub open spec fn cpu_cycle(o: Emu6502, ob: Bus, f: Emu6502, fb: Bus) -> bool {
    &&& (ob.keeps_timing(&fb))
    &&& (o.halted ==> f == o && fb == ob)
    &&& (!o.halted && o.cycle_counter > 0 ==> fb == ob
        && f == (Emu6502 {
        cycle_counter: (o.cycle_counter - 1) as u8,
        clock_complete: o.cycle_counter == 1,
        ..o
    }))
    &&& (!o.halted && o.cycle_counter == 0 ==> {
        let e = opcode_entry(f.opcode);
        &&& f.opcode == ob.read_value(o.prog_counter)
        &&& e.instruction == Instruction::Xep ==> f.halted
            && f.cycle_counter == 0
        &&& e.instruction != Instruction::Xep ==> !f.halted && f.cycle_counter + 1 == e.cycles + f.additional_cycles
            && f.clock_complete == (f.cycle_counter == 0)
        &&& !page_cross_sensitive(e.instruction) && !is_branch(e.instruction) ==> f.additional_cycles == 0
        &&& f.additional_cycles <= 2
        &&& exists|c1: Emu6502, b1: Bus, c2: Emu6502, b2: Bus|
            #[trigger] instruction_step(
                o,
                ob,
                c1,
                b1,
                c2,
                b2,
                f,
                fb,
            )
    })
}

/// What taking an NMI does, from (`o`, `ob`) to (`f`, `fb`): the contract of
/// `Emu6502::nmi`.
#[verifier::opaque]
pub open spec fn nmi_entry(o: Emu6502, ob: Bus, f: Emu6502, fb: Bus) -> bool {
    &&& (ob.keeps_timing(&fb))
    &&& (f.cycle_counter == 8)
    &&& (exists|b1: Bus, b2: Bus, b3: Bus|
        #[trigger] interrupt_steps(
            o,
            ob,
            b1,
            b2,
            b3,
            f.with_cycles(o.cycle_counter),
            fb,
            o.prog_counter,
            (o.status & !FLAG_B) | FLAG_U,
            0xFFFA,
        ))
}

/// The status that BRK and PHP push has B and U set; the one that NMI and IRQ
/// push has B clear and U set; the status that PLP and RTI load has U set,
/// and after RTI B is clear.
pub proof fn lemma_status_bits(p: u8, popped: u8)
    ensures
        (p | FLAG_B | FLAG_U) & FLAG_B != 0,
        (p | FLAG_B | FLAG_U) & FLAG_U != 0,
        ((p & !FLAG_B) | FLAG_U) & FLAG_B == 0,
        ((p & !FLAG_B) | FLAG_U) & FLAG_U != 0,
        (popped | FLAG_U) & FLAG_U != 0,
        ((popped & !FLAG_B) | FLAG_U) & FLAG_U != 0,
        ((popped & !FLAG_B) | FLAG_U) & FLAG_B == 0,
{
    assert((p | 0x10u8 | 0x20u8) & 0x10 != 0 && (p | 0x10u8 | 0x20u8) & 0x20 != 0 && ((p & !0x10u8)
        | 0x20u8) & 0x10 == 0 && ((p & !0x10u8) | 0x20u8) & 0x20 != 0 && (popped | 0x20u8) & 0x20
        != 0 && ((popped & !0x10u8) | 0x20u8) & 0x20 != 0 && ((popped & !0x10u8) | 0x20u8) & 0x10
        == 0) by (bit_vector);
}

/// Every stack access stays in page one, and the pointer moves modulo 256.
pub proof fn lemma_stack_page(sp: u8)
    ensures
        0x0100 <= stack_address(sp) <= 0x01FF,
        dec8(inc8(sp)) == sp,
        inc8(dec8(sp)) == sp,
        sp == 0 ==> dec8(sp) == 0xFF,
        sp == 0xFF ==> inc8(sp) == 0,
{
}

/// The instructions with a memory or accumulator operand.
pub open spec fn memory_group(i: Instruction) -> bool {
    i == Instruction::Lda || i == Instruction::Ldx || i == Instruction::Ldy || i == Instruction::Sta
        || i == Instruction::Stx || i == Instruction::Sty || i == Instruction::Adc || i
        == Instruction::Sbc || i == Instruction::And || i == Instruction::Ora || i == Instruction::Eor
        || i == Instruction::Cmp || i == Instruction::Cpx || i == Instruction::Cpy || i
        == Instruction::Bit || i == Instruction::Asl || i == Instruction::Lsr || i == Instruction::Rol
        || i == Instruction::Ror || i == Instruction::Inc || i == Instruction::Dec
}

/// The instructions that use the stack.
pub open spec fn stack_group(i: Instruction) -> bool {
    i == Instruction::Jsr || i == Instruction::Rts || i == Instruction::Rti || i == Instruction::Pha
        || i == Instruction::Php || i == Instruction::Pla || i == Instruction::Plp || i
        == Instruction::Brk
}

fn memory_group_exec(i: Instruction) -> (r: bool)
    ensures
        r == memory_group(i),
{
    match i {
        Instruction::Lda | Instruction::Ldx | Instruction::Ldy | Instruction::Sta | Instruction::Stx
        | Instruction::Sty | Instruction::Adc | Instruction::Sbc | Instruction::And | Instruction::Ora
        | Instruction::Eor | Instruction::Cmp | Instruction::Cpx | Instruction::Cpy | Instruction::Bit
        | Instruction::Asl | Instruction::Lsr | Instruction::Rol | Instruction::Ror | Instruction::Inc
        | Instruction::Dec => true,
        _ => false,
    }
}

fn stack_group_exec(i: Instruction) -> (r: bool)
    ensures
        r == stack_group(i),
{
    match i {
        Instruction::Jsr | Instruction::Rts | Instruction::Rti | Instruction::Pha | Instruction::Php
        | Instruction::Pla | Instruction::Plp | Instruction::Brk => true,
        _ => false,
    }
}

/// `cpu` with the given count of extra cycles; the effects below leave that
/// count to the timing rules.
pub open spec fn any_extra(cpu: Emu6502, f: Emu6502) -> Emu6502 {
    Emu6502 { additional_cycles: f.additional_cycles, ..cpu }
}

/// What addressing mode `mode` does, from (`o`, `ob`) to (`f`, `fb`): it
/// reads its operand bytes at PC and leaves the effective address (or a
/// branch offset, or A for the accumulator mode) behind.
pub open spec fn mode_effect(mode: AddressingMode, o: Emu6502, ob: Bus, f: Emu6502, fb: Bus) -> bool {
    let pc = o.prog_counter;
    let b1 = ob.after_read(pc);
    let b2 = b1.after_read(inc16(pc));
    let low = ob.read_value(pc);
    let high = b1.read_value(inc16(pc));
    match mode {
        AddressingMode::Imm => fb == ob && f == Emu6502 {
            address: pc,
            prog_counter: inc16(pc),
            ..o
        },
        AddressingMode::Imp => fb == ob && f == o,
        AddressingMode::Acc => fb == ob && f == Emu6502 { fetched_data: o.acc, ..o },
        AddressingMode::Abs | AddressingMode::Abx | AddressingMode::Aby => {
            let index: u8 = if mode == AddressingMode::Abx {
                o.x
            } else if mode == AddressingMode::Aby {
                o.y
            } else {
                0
            };
            let a = ((word(low, high) + index) % 0x10000) as u16;
            &&& fb == b2
            &&& f == Emu6502 {
                address: a,
                prog_counter: inc16(inc16(pc)),
                additional_cycles: if a / 256 != high as int {
                    1
                } else {
                    o.additional_cycles
                },
                ..o
            }
        },
        AddressingMode::Zp0 | AddressingMode::Zpx | AddressingMode::Zpy => {
            let index: u8 = if mode == AddressingMode::Zpx {
                o.x
            } else if mode == AddressingMode::Zpy {
                o.y
            } else {
                0
            };
            &&& fb == b1
            &&& f == Emu6502 {
                address: ((low + index) % 256) as u16,
                prog_counter: inc16(pc),
                ..o
            }
        },
        AddressingMode::Ind => {
            let ptr = word(low, high);
            let ptr_high = ((ptr / 256) * 256 + (ptr + 1) % 256) as u16;
            let b3 = b2.after_read(ptr);
            &&& fb == b3.after_read(ptr_high)
            &&& f == Emu6502 {
                address: word(b2.read_value(ptr), b3.read_value(ptr_high)),
                prog_counter: inc16(inc16(pc)),
                ..o
            }
        },
        AddressingMode::Idx => {
            let ptr = ((low + o.x) % 256) as u16;
            let ptr_next = ((ptr + 1) % 256) as u16;
            let c2 = b1.after_read(ptr);
            &&& fb == c2.after_read(ptr_next)
            &&& f == Emu6502 {
                address: word(b1.read_value(ptr), c2.read_value(ptr_next)),
                prog_counter: inc16(pc),
                ..o
            }
        },
        AddressingMode::Idy => {
            let ptr = low as u16;
            let ptr_next = ((ptr + 1) % 256) as u16;
            let c2 = b1.after_read(ptr);
            let h = c2.read_value(ptr_next);
            let a = ((word(b1.read_value(ptr), h) + o.y) % 0x10000) as u16;
            &&& fb == c2.after_read(ptr_next)
            &&& f == Emu6502 {
                address: a,
                prog_counter: inc16(pc),
                additional_cycles: if a / 256 != h as int {
                    1
                } else {
                    o.additional_cycles
                },
                ..o
            }
        },
        AddressingMode::Rel => {
            &&& fb == b1
            &&& f == Emu6502 {
                addr_offset: if low >= 0x80 {
                    (0xFF00 + low) as u16
                } else {
                    low as u16
                },
                prog_counter: inc16(pc),
                ..o
            }
        },
    }
}

/// A load: the operand, with Z and S from it, into the register that `put`
/// gives.
pub open spec fn loaded(o: Emu6502, ob: Bus, f: Emu6502, fb: Bus, put: Emu6502) -> bool {
    let m = o.operand(&ob);
    &&& fb == o.bus_after_fetch(&ob)
    &&& zs_of(f.status, o.status, m)
    &&& f == any_extra(Emu6502 { fetched_data: m, status: f.status, ..put }, f)
}

/// A register result `v` with Z and S from it, no memory access.
pub open spec fn register_result(o: Emu6502, ob: Bus, f: Emu6502, fb: Bus, put: Emu6502, v: u8) -> bool {
    &&& fb == ob
    &&& zs_of(f.status, o.status, v)
    &&& f == any_extra(Emu6502 { status: f.status, ..put }, f)
}

/// ADC, or SBC as ADC of the complement.
pub open spec fn arith_effect(o: Emu6502, ob: Bus, f: Emu6502, fb: Bus, subtract: bool) -> bool {
    let fetched = o.operand(&ob);
    let m = if subtract {
        (255 - fetched) as u8
    } else {
        fetched
    };
    let sum = adc_sum(o.acc, m, flag(o.status, FLAG_C));
    let r = (sum % 256) as u8;
    &&& fb == o.bus_after_fetch(&ob)
    &&& nvzc_of(f.status, o.status, r, sum > 255, add_overflow(o.acc, m, r))
    &&& f == any_extra(Emu6502 { acc: r, fetched_data: fetched, status: f.status, ..o }, f)
}

/// CMP, CPX, CPY against `register`.
pub open spec fn compare_effect(o: Emu6502, ob: Bus, f: Emu6502, fb: Bus, register: u8) -> bool {
    let m = o.operand(&ob);
    let d = ((register - m + 256) % 256) as u8;
    &&& fb == o.bus_after_fetch(&ob)
    &&& flag(f.status, FLAG_C) == (register >= m)
    &&& flag(f.status, FLAG_Z) == (register == m)
    &&& flag(f.status, FLAG_S) == (d & 0x80 != 0)
    &&& f.status & 0x7C == o.status & 0x7C
    &&& f == any_extra(Emu6502 { fetched_data: m, status: f.status, ..o }, f)
}

/// The shifts and rotates, on A in accumulator mode, else on memory.
pub open spec fn shift_effect(o: Emu6502, ob: Bus, f: Emu6502, fb: Bus, which: Instruction) -> bool {
    let m = o.operand(&ob);
    let c_in: u8 = if flag(o.status, FLAG_C) {
        1
    } else {
        0
    };
    let r: u8 = if which == Instruction::Asl {
        ((m * 2) % 256) as u8
    } else if which == Instruction::Lsr {
        m / 2
    } else if which == Instruction::Rol {
        ((m * 2) % 256 + c_in) as u8
    } else {
        (m / 2 + c_in * 128) as u8
    };
    let c_out = if which == Instruction::Asl || which == Instruction::Rol {
        m >= 128
    } else {
        m % 2 == 1
    };
    &&& nvzc_of(f.status, o.status, r, c_out, flag(o.status, FLAG_V))
    &&& if o.mode() == AddressingMode::Acc {
        &&& fb == ob
        &&& f == any_extra(Emu6502 { acc: r, fetched_data: m, status: f.status, ..o }, f)
    } else {
        &&& o.bus_after_fetch(&ob).written(&fb, o.address, r)
        &&& f == any_extra(Emu6502 { fetched_data: m, status: f.status, ..o }, f)
    }
}

/// A taken or untaken branch.
pub open spec fn branch_effect(o: Emu6502, ob: Bus, f: Emu6502, fb: Bus, taken: bool) -> bool {
    let pc = o.prog_counter;
    let target = ((pc + o.addr_offset) % 0x10000) as u16;
    &&& fb == ob
    &&& if taken {
        f == Emu6502 {
            prog_counter: target,
            additional_cycles: if target / 256 != pc / 256 {
                2
            } else {
                1
            },
            ..o
        }
    } else {
        f == Emu6502 { additional_cycles: 0, ..o }
    }
}

/// What instruction `i` does once its addressing mode has run, from (`o`,
/// `ob`) to (`f`, `fb`), the extra-cycle count aside.
pub open spec fn instruction_effect(i: Instruction, o: Emu6502, ob: Bus, f: Emu6502, fb: Bus) -> bool {
    let m = o.operand(&ob);
    let sp = o.stack_ptr;
    let a1 = stack_address(inc8(sp));
    let a2 = stack_address(inc8(inc8(sp)));
    let a3 = stack_address(inc8(inc8(inc8(sp))));
    let b1 = ob.after_read(a1);
    let b2 = b1.after_read(a2);
    match i {
        Instruction::Lda => loaded(o, ob, f, fb, Emu6502 { acc: m, ..o }),
        Instruction::Ldx => loaded(o, ob, f, fb, Emu6502 { x: m, ..o }),
        Instruction::Ldy => loaded(o, ob, f, fb, Emu6502 { y: m, ..o }),
        Instruction::Sta => ob.written(&fb, o.address, o.acc) && f == any_extra(o, f),
        Instruction::Stx => ob.written(&fb, o.address, o.x) && f == any_extra(o, f),
        Instruction::Sty => ob.written(&fb, o.address, o.y) && f == any_extra(o, f),
        Instruction::Adc => arith_effect(o, ob, f, fb, false),
        Instruction::Sbc => arith_effect(o, ob, f, fb, true),
        Instruction::And | Instruction::Ora | Instruction::Eor => {
            let r = if i == Instruction::And {
                o.acc & m
            } else if i == Instruction::Ora {
                o.acc | m
            } else {
                o.acc ^ m
            };
            &&& fb == o.bus_after_fetch(&ob)
            &&& zs_of(f.status, o.status, r)
            &&& f == any_extra(Emu6502 { acc: r, fetched_data: m, status: f.status, ..o }, f)
        },
        Instruction::Sec => fb == ob && f == any_extra(Emu6502 { status: o.status | FLAG_C, ..o }, f),
        Instruction::Clc => fb == ob && f == any_extra(Emu6502 { status: o.status & !FLAG_C, ..o }, f),
        Instruction::Sei => fb == ob && f == any_extra(Emu6502 { status: o.status | FLAG_I, ..o }, f),
        Instruction::Cli => fb == ob && f == any_extra(Emu6502 { status: o.status & !FLAG_I, ..o }, f),
        Instruction::Sed => fb == ob && f == any_extra(Emu6502 { status: o.status | FLAG_D, ..o }, f),
        Instruction::Cld => fb == ob && f == any_extra(Emu6502 { status: o.status & !FLAG_D, ..o }, f),
        Instruction::Clv => fb == ob && f == any_extra(Emu6502 { status: o.status & !FLAG_V, ..o }, f),
        Instruction::Jmp => fb == ob && f == any_extra(Emu6502 { prog_counter: o.address, ..o }, f),
        Instruction::Bmi => branch_effect(o, ob, f, fb, flag(o.status, FLAG_S)),
        Instruction::Bpl => branch_effect(o, ob, f, fb, !flag(o.status, FLAG_S)),
        Instruction::Bcc => branch_effect(o, ob, f, fb, !flag(o.status, FLAG_C)),
        Instruction::Bcs => branch_effect(o, ob, f, fb, flag(o.status, FLAG_C)),
        Instruction::Beq => branch_effect(o, ob, f, fb, flag(o.status, FLAG_Z)),
        Instruction::Bne => branch_effect(o, ob, f, fb, !flag(o.status, FLAG_Z)),
        Instruction::Bvs => branch_effect(o, ob, f, fb, flag(o.status, FLAG_V)),
        Instruction::Bvc => branch_effect(o, ob, f, fb, !flag(o.status, FLAG_V)),
        Instruction::Cmp => compare_effect(o, ob, f, fb, o.acc),
        Instruction::Cpx => compare_effect(o, ob, f, fb, o.x),
        Instruction::Cpy => compare_effect(o, ob, f, fb, o.y),
        Instruction::Bit => {
            &&& fb == o.bus_after_fetch(&ob)
            &&& flag(f.status, FLAG_S) == (m & 0x80 != 0)
            &&& flag(f.status, FLAG_V) == (m & 0x40 != 0)
            &&& flag(f.status, FLAG_Z) == (o.acc & m == 0)
            &&& f.status & 0x3D == o.status & 0x3D
            &&& f == any_extra(Emu6502 { fetched_data: m, status: f.status, ..o }, f)
        },
        Instruction::Inx => register_result(o, ob, f, fb, Emu6502 { x: inc8(o.x), ..o }, inc8(o.x)),
        Instruction::Iny => register_result(o, ob, f, fb, Emu6502 { y: inc8(o.y), ..o }, inc8(o.y)),
        Instruction::Dex => register_result(o, ob, f, fb, Emu6502 { x: dec8(o.x), ..o }, dec8(o.x)),
        Instruction::Dey => register_result(o, ob, f, fb, Emu6502 { y: dec8(o.y), ..o }, dec8(o.y)),
        Instruction::Tax => register_result(o, ob, f, fb, Emu6502 { x: o.acc, ..o }, o.acc),
        Instruction::Txa => register_result(o, ob, f, fb, Emu6502 { acc: o.x, ..o }, o.x),
        Instruction::Tay => register_result(o, ob, f, fb, Emu6502 { y: o.acc, ..o }, o.acc),
        Instruction::Tya => register_result(o, ob, f, fb, Emu6502 { acc: o.y, ..o }, o.y),
        Instruction::Tsx => register_result(o, ob, f, fb, Emu6502 { x: o.stack_ptr, ..o }, o.stack_ptr),
        Instruction::Txs => fb == ob && f == any_extra(Emu6502 { stack_ptr: o.x, ..o }, f),
        Instruction::Jsr => {
            let ret = ((o.prog_counter + 0xFFFF) % 0x10000) as u16;
            &&& exists|mid: Bus|
                #[trigger] ob.written(&mid, stack_address(sp), (ret / 256) as u8) && mid.written(
                    &fb,
                    stack_address(dec8(sp)),
                    (ret % 256) as u8,
                )
            &&& f == any_extra(Emu6502 { prog_counter: o.address, stack_ptr: dec8(dec8(sp)), ..o }, f)
        },
        Instruction::Rts => {
            &&& fb == b1.after_read(a2)
            &&& f == any_extra(
                Emu6502 {
                    prog_counter: inc16(word(ob.read_value(a1), b1.read_value(a2))),
                    stack_ptr: inc8(inc8(sp)),
                    ..o
                },
                f,
            )
        },
        Instruction::Rti => {
            &&& fb == b2.after_read(a3)
            &&& f == any_extra(
                Emu6502 {
                    status: (ob.read_value(a1) & !FLAG_B) | FLAG_U,
                    prog_counter: word(b1.read_value(a2), b2.read_value(a3)),
                    stack_ptr: inc8(inc8(inc8(sp))),
                    ..o
                },
                f,
            )
        },
        Instruction::Pha => ob.written(&fb, stack_address(sp), o.acc) && f == any_extra(
            Emu6502 { stack_ptr: dec8(sp), ..o },
            f,
        ),
        Instruction::Php => ob.written(&fb, stack_address(sp), o.status | FLAG_B | FLAG_U) && f
            == any_extra(Emu6502 { stack_ptr: dec8(sp), ..o }, f),
        Instruction::Pla => {
            let v = ob.read_value(a1);
            &&& fb == b1
            &&& zs_of(f.status, o.status, v)
            &&& f == any_extra(Emu6502 { acc: v, status: f.status, stack_ptr: inc8(sp), ..o }, f)
        },
        Instruction::Plp => fb == b1 && f == any_extra(
            Emu6502 { status: ob.read_value(a1) | FLAG_U, stack_ptr: inc8(sp), ..o },
            f,
        ),
        Instruction::Asl | Instruction::Lsr | Instruction::Rol | Instruction::Ror => shift_effect(
            o,
            ob,
            f,
            fb,
            i,
        ),
        Instruction::Inc | Instruction::Dec => {
            let r = if i == Instruction::Inc {
                inc8(m)
            } else {
                dec8(m)
            };
            &&& o.bus_after_fetch(&ob).written(&fb, o.address, r)
            &&& zs_of(f.status, o.status, r)
            &&& f == any_extra(Emu6502 { fetched_data: m, status: f.status, ..o }, f)
        },
        Instruction::Brk => exists|c1: Bus, c2: Bus, c3: Bus|
            #[trigger] interrupt_steps(
                Emu6502 { additional_cycles: 0, ..o },
                ob,
                c1,
                c2,
                c3,
                f,
                fb,
                inc16(o.prog_counter),
                o.status | FLAG_B | FLAG_U,
                0xFFFE,
            ),
        Instruction::Nop => fb == ob && f == any_extra(o, f),
        Instruction::Xep => fb == ob && f == any_extra(Emu6502 { halted: true, ..o }, f),
    }
}

/// One instruction from its first cycle: the opcode read at PC, its
/// addressing mode, then the instruction, from (`o`, `ob`) through (`c1`,
/// `b1`) and (`c2`, `b2`) to (`f`, `fb`), the cycle count and the
/// end-of-instruction flag aside.
pub open spec fn instruction_step(
    o: Emu6502,
    ob: Bus,
    c1: Emu6502,
    b1: Bus,
    c2: Emu6502,
    b2: Bus,
    f: Emu6502,
    fb: Bus,
) -> bool {
    let e = opcode_entry(c1.opcode);
    &&& c1 == Emu6502 {
        opcode: ob.read_value(o.prog_counter),
        prog_counter: inc16(o.prog_counter),
        additional_cycles: 0,
        ..o
    }
    &&& b1 == ob.after_read(o.prog_counter)
    &&& mode_effect(e.mode, c1, b1, c2, b2)
    &&& page_cross_sensitive(e.instruction) ==> f.additional_cycles == c2.additional_cycles
    &&& !page_cross_sensitive(e.instruction) && !is_branch(e.instruction) ==> f.additional_cycles
        == 0
    &&& instruction_effect(
        e.instruction,
        c2,
        b2,
        Emu6502 { cycle_counter: c2.cycle_counter, clock_complete: c2.clock_complete, ..f },
        fb,
    )
}

impl Emu6502 {
    /// The U flag reads as 1.
    pub open spec fn wf(&self) -> bool {
        self.status & FLAG_U != 0
    }

    /// This state with another cycle count.
    pub open spec fn with_cycles(&self, n: u8) -> Emu6502 {
        Emu6502 { cycle_counter: n, ..*self }
    }

    /// The addressing mode of the instruction in progress.
    pub open spec fn mode(&self) -> AddressingMode {
        opcode_entry(self.opcode).mode
    }

    /// Whether the instruction in progress reads no memory operand.
    pub open spec fn register_operand(&self) -> bool {
        self.mode() == AddressingMode::Acc || self.mode() == AddressingMode::Imp
    }

    /// The operand of the instruction in progress.
    pub open spec fn operand(&self, bus: &Bus) -> u8 {
        if self.register_operand() {
            self.fetched_data
        } else {
            bus.read_value(self.address)
        }
    }

    /// The bus after the operand is fetched.
    pub open spec fn bus_after_fetch(&self, bus: &Bus) -> Bus {
        if self.register_operand() {
            *bus
        } else {
            bus.after_read(self.address)
        }
    }

    pub fn new() -> (r: Emu6502)
        ensures
            r.wf(),
            r.acc == 0 && r.x == 0 && r.y == 0,
            r.status == FLAG_U,
            r.stack_ptr == 0xFD,
            r.prog_counter == 0,
            r.cycle_counter == 0,
            !r.halted,
    {
        proof {
            lemma_u8_bits(0);
        }
        Emu6502 {
            acc: 0,
            x: 0,
            y: 0,
            status: FLAG_U,
            stack_ptr: 0xFD,
            prog_counter: 0,
            address: 0,
            addr_offset: 0,
            fetched_data: 0,
            opcode: 0,
            cycle_counter: 0,
            additional_cycles: 0,
            clock_complete: false,
            halted: false,
        }
    }

    pub fn set_programm_counter(&mut self, address: u16)
        ensures
            *final(self) == (Emu6502 { prog_counter: address, ..*old(self) }),
    {
        self.prog_counter = address;
    }

    pub fn get_program_counter(&self) -> (r: u16)
        ensures
            r == self.prog_counter,
    {
        self.prog_counter
    }

    fn read_data(&self, bus: &mut Bus, address: u16) -> (r: u8)
        requires
            old(bus).wf(),
        ensures
            final(bus).dma_enable == old(bus).dma_enable,
            final(bus).wf(),
            old(bus).keeps_timing(final(bus)),
            r == old(bus).read_value(address),
            *final(bus) == old(bus).after_read(address),
    {
        bus.read_cpu_ram(address)
    }

    /// Writes `data` at the stack pointer and moves it down, modulo 256.
    pub fn push_to_stack(&mut self, bus: &mut Bus, data: u8)
        requires
            old(bus).wf(),
        ensures
            final(bus).dma_enable == old(bus).dma_enable,
            old(bus).written(final(bus), stack_address(old(self).stack_ptr), data),
            old(bus).keeps_timing(final(bus)),
            *final(self) == (Emu6502 { stack_ptr: dec8(old(self).stack_ptr), ..*old(self) }),
    {
        let address = 0x0100 + self.stack_ptr as u16;
        bus.write_cpu_ram(address, data);
        self.stack_ptr = if self.stack_ptr == 0 {
            255
        } else {
            self.stack_ptr - 1
        };
    }

    /// Moves the stack pointer up, modulo 256, and reads there.
    pub fn pop_from_stack(&mut self, bus: &mut Bus) -> (r: u8)
        requires
            old(bus).wf(),
        ensures
            final(bus).wf(),
            old(bus).keeps_timing(final(bus)),
            r == old(bus).read_value(stack_address(inc8(old(self).stack_ptr))),
            *final(bus) == old(bus).after_read(stack_address(inc8(old(self).stack_ptr))),
            *final(self) == (Emu6502 { stack_ptr: inc8(old(self).stack_ptr), ..*old(self) }),
    {
        self.stack_ptr = if self.stack_ptr == 255 {
            0
        } else {
            self.stack_ptr + 1
        };
        let address = 0x0100 + self.stack_ptr as u16;
        bus.read_cpu_ram(address)
    }

    /// Reads the byte at the program counter and steps past it.
    fn read_at_pc(&mut self, bus: &mut Bus) -> (r: u8)
        requires
            old(bus).wf(),
        ensures
            final(bus).wf(),
            old(bus).keeps_timing(final(bus)),
            r == old(bus).read_value(old(self).prog_counter),
            *final(bus) == old(bus).after_read(old(self).prog_counter),
            *final(self) == (Emu6502 { prog_counter: inc16(old(self).prog_counter), ..*old(self) }),
    {
        let r = bus.read_cpu_ram(self.prog_counter);
        self.prog_counter = next_pc(self.prog_counter);
        r
    }

    /// Reads the operand of the instruction in progress, from memory unless
    /// the mode is implied or accumulator.
    fn fetch(&mut self, bus: &mut Bus) -> (r: u8)
        requires
            old(bus).wf(),
        ensures
            final(bus).wf(),
            old(bus).keeps_timing(final(bus)),
            r == old(self).operand(old(bus)),
            *final(bus) == old(self).bus_after_fetch(old(bus)),
            *final(self) == (Emu6502 { fetched_data: r, ..*old(self) }),
    {
        let mode = decode(self.opcode).mode;
        if mode != AddressingMode::Acc && mode != AddressingMode::Imp {
            self.fetched_data = bus.read_cpu_ram(self.address);
        }
        self.fetched_data
    }

    // Addressing modes

    /// The operand is the next byte.
    fn imm(&mut self)
        ensures
            *final(self) == (Emu6502 {
                address: old(self).prog_counter,
                prog_counter: inc16(old(self).prog_counter),
                ..*old(self)
            }),
    {
        self.address = self.prog_counter;
        self.prog_counter = next_pc(self.prog_counter);
    }

    /// The operand is A.
    fn acc_mode(&mut self)
        ensures
            *final(self) == (Emu6502 { fetched_data: old(self).acc, ..*old(self) }),
    {
        self.fetched_data = self.acc;
    }

    /// A 16-bit address, plus an index register; a crossing of the base's page
    /// records one extra cycle.
    fn absolute(&mut self, bus: &mut Bus, index: u8)
        requires
            old(bus).wf(),
        ensures
            final(bus).wf(),
            old(bus).keeps_timing(final(bus)),
            ({
                let pc = old(self).prog_counter;
                let b1 = old(bus).after_read(pc);
                let low = old(bus).read_value(pc);
                let high = b1.read_value(inc16(pc));
                let base = word(low, high);
                let a = ((base + index) % 0x10000) as u16;
                &&& *final(bus) == b1.after_read(inc16(pc))
                &&& *final(self) == (Emu6502 {
                    address: a,
                    prog_counter: inc16(inc16(pc)),
                    additional_cycles: if a / 256 != high as int {
                        1
                    } else {
                        old(self).additional_cycles
                    },
                    ..*old(self)
                })
            }),
    {
        let low = self.read_at_pc(bus);
        let high = self.read_at_pc(bus);
        let base = make_word(low, high);
        let a = if base as u32 + index as u32 > 0xFFFF {
            (base as u32 + index as u32 - 0x10000) as u16
        } else {
            base + index as u16
        };
        self.address = a;
        if a / 256 != high as u16 {
            self.additional_cycles = 1;
        }
    }

    /// A zero-page address plus an index register, wrapping in page zero.
    fn zero_page(&mut self, bus: &mut Bus, index: u8)
        requires
            old(bus).wf(),
        ensures
            final(bus).wf(),
            old(bus).keeps_timing(final(bus)),
            *final(bus) == old(bus).after_read(old(self).prog_counter),
            *final(self) == (Emu6502 {
                address: ((old(bus).read_value(old(self).prog_counter) + index) % 256) as u16,
                prog_counter: inc16(old(self).prog_counter),
                ..*old(self)
            }),
    {
        let base = self.read_at_pc(bus);
        self.address = ((base as u16 + index as u16) % 256) as u16;
    }

    /// JMP's indirect mode: the pointer's high byte is read without a carry
    /// into the next page.
    fn ind(&mut self, bus: &mut Bus)
        requires
            old(bus).wf(),
        ensures
            final(bus).wf(),
            old(bus).keeps_timing(final(bus)),
            ({
                let pc = old(self).prog_counter;
                let b1 = old(bus).after_read(pc);
                let b2 = b1.after_read(inc16(pc));
                let ptr = word(old(bus).read_value(pc), b1.read_value(inc16(pc)));
                let ptr_high = ((ptr / 256) * 256 + (ptr + 1) % 256) as u16;
                let b3 = b2.after_read(ptr);
                &&& *final(bus) == b3.after_read(ptr_high)
                &&& *final(self) == (Emu6502 {
                    address: word(b2.read_value(ptr), b3.read_value(ptr_high)),
                    prog_counter: inc16(inc16(pc)),
                    ..*old(self)
                })
            }),
    {
        let low = self.read_at_pc(bus);
        let high = self.read_at_pc(bus);
        let ptr = make_word(low, high);
        let ptr_high = (ptr / 256) * 256 + (ptr % 256 + 1) % 256;
        let target_low = self.read_data(bus, ptr);
        let target_high = self.read_data(bus, ptr_high);
        self.address = make_word(target_low, target_high);
    }

    /// (zero page + X): a pointer in page zero.
    fn idx(&mut self, bus: &mut Bus)
        requires
            old(bus).wf(),
        ensures
            final(bus).wf(),
            old(bus).keeps_timing(final(bus)),
            ({
                let pc = old(self).prog_counter;
                let b1 = old(bus).after_read(pc);
                let p = ((old(bus).read_value(pc) + old(self).x) % 256) as u16;
                let ptr_next = ((p + 1) % 256) as u16;
                let b2 = b1.after_read(p);
                &&& *final(bus) == b2.after_read(ptr_next)
                &&& *final(self) == (Emu6502 {
                    address: word(b1.read_value(p), b2.read_value(ptr_next)),
                    prog_counter: inc16(pc),
                    ..*old(self)
                })
            }),
    {
        let base = self.read_at_pc(bus);
        let p = ((base as u16 + self.x as u16) % 256) as u16;
        let ptr_next = (p + 1) % 256;
        let low = self.read_data(bus, p);
        let high = self.read_data(bus, ptr_next);
        self.address = make_word(low, high);
    }

    /// (zero page) + Y; a crossing of the pointer's page records one extra
    /// cycle.
    fn idy(&mut self, bus: &mut Bus)
        requires
            old(bus).wf(),
        ensures
            final(bus).wf(),
            old(bus).keeps_timing(final(bus)),
            ({
                let pc = old(self).prog_counter;
                let b1 = old(bus).after_read(pc);
                let p = old(bus).read_value(pc) as u16;
                let ptr_next = ((p + 1) % 256) as u16;
                let b2 = b1.after_read(p);
                let high = b2.read_value(ptr_next);
                let base = word(b1.read_value(p), high);
                let a = ((base + old(self).y) % 0x10000) as u16;
                &&& *final(bus) == b2.after_read(ptr_next)
                &&& *final(self) == (Emu6502 {
                    address: a,
                    prog_counter: inc16(pc),
                    additional_cycles: if a / 256 != high as int {
                        1
                    } else {
                        old(self).additional_cycles
                    },
                    ..*old(self)
                })
            }),
    {
        let p = self.read_at_pc(bus) as u16;
        let ptr_next = (p + 1) % 256;
        let low = self.read_data(bus, p);
        let high = self.read_data(bus, ptr_next);
        let base = make_word(low, high);
        let a = if base as u32 + self.y as u32 > 0xFFFF {
            (base as u32 + self.y as u32 - 0x10000) as u16
        } else {
            base + self.y as u16
        };
        self.address = a;
        if a / 256 != high as u16 {
            self.additional_cycles = 1;
        }
    }

    /// A branch offset, sign-extended to 16 bits.
    fn rel(&mut self, bus: &mut Bus)
        requires
            old(bus).wf(),
        ensures
            final(bus).wf(),
            old(bus).keeps_timing(final(bus)),
            *final(bus) == old(bus).after_read(old(self).prog_counter),
            ({
                let o = old(bus).read_value(old(self).prog_counter);
                *final(self) == (Emu6502 {
                    addr_offset: if o >= 0x80 {
                        (0xFF00 + o) as u16
                    } else {
                        o as u16
                    },
                    prog_counter: inc16(old(self).prog_counter),
                    ..*old(self)
                })
            }),
    {
        let offset = self.read_at_pc(bus);
        self.addr_offset = if offset >= 0x80 {
            0xFF00 + offset as u16
        } else {
            offset as u16
        };
    }

    // Instructions

    /// Writes `data` at the effective address.
    fn write_data(&self, bus: &mut Bus, data: u8)
        requires
            old(bus).wf(),
        ensures
            old(bus).written(final(bus), self.address, data),
            old(bus).keeps_timing(final(bus)),
    {
        bus.write_cpu_ram(self.address, data);
    }

    /// LDA, LDX, LDY: the operand, with Z and S set from it.
    fn load(&mut self, bus: &mut Bus) -> (m: u8)
        requires
            old(bus).wf(),
            old(self).wf(),
        ensures
            final(bus).wf(),
            old(bus).keeps_timing(final(bus)),
            final(self).wf(),
            m == old(self).operand(old(bus)),
            *final(bus) == old(self).bus_after_fetch(old(bus)),
            zs_of(final(self).status, old(self).status, m),
            *final(self) == (Emu6502 {
                fetched_data: m,
                status: final(self).status,
                ..*old(self)
            }),
    {
        let m = self.fetch(bus);
        self.status = with_zs(self.status, m);
        proof {
            lemma_u_flag_kept(self.status, old(self).status);
        }
        m
    }

    /// AND, ORA, EOR: A combined with the operand, Z and S set.
    fn logic(&mut self, bus: &mut Bus, which: Instruction)
        requires
            old(bus).wf(),
            old(self).wf(),
        ensures
            final(bus).wf(),
            old(bus).keeps_timing(final(bus)),
            final(self).wf(),
            *final(bus) == old(self).bus_after_fetch(old(bus)),
            ({
                let m = old(self).operand(old(bus));
                let r = if which == Instruction::And {
                    old(self).acc & m
                } else if which == Instruction::Ora {
                    old(self).acc | m
                } else {
                    old(self).acc ^ m
                };
                &&& zs_of(final(self).status, old(self).status, r)
                &&& *final(self) == (Emu6502 {
                    acc: r,
                    fetched_data: m,
                    status: final(self).status,
                    ..*old(self)
                })
            }),
    {
        let m = self.fetch(bus);
        let r = if which == Instruction::And {
            self.acc & m
        } else if which == Instruction::Ora {
            self.acc | m
        } else {
            self.acc ^ m
        };
        self.acc = r;
        self.status = with_zs(self.status, r);
        proof {
            lemma_u_flag_kept(self.status, old(self).status);
        }
    }

    /// ADC, and SBC as ADC of the operand's complement: binary arithmetic,
    /// C from the carry out, V from signed overflow.
    fn add(&mut self, bus: &mut Bus, subtract: bool)
        requires
            old(bus).wf(),
            old(self).wf(),
        ensures
            final(bus).wf(),
            old(bus).keeps_timing(final(bus)),
            final(self).wf(),
            *final(bus) == old(self).bus_after_fetch(old(bus)),
            ({
                let fetched = old(self).operand(old(bus));
                let m = if subtract {
                    (255 - fetched) as u8
                } else {
                    fetched
                };
                let sum = adc_sum(old(self).acc, m, flag(old(self).status, FLAG_C));
                let r = (sum % 256) as u8;
                &&& nvzc_of(
                    final(self).status,
                    old(self).status,
                    r,
                    sum > 255,
                    add_overflow(old(self).acc, m, r),
                )
                &&& *final(self) == (Emu6502 {
                    acc: r,
                    fetched_data: fetched,
                    status: final(self).status,
                    ..*old(self)
                })
            }),
    {
        let fetched = self.fetch(bus);
        let m = if subtract {
            255 - fetched
        } else {
            fetched
        };
        let c: u16 = if self.status & FLAG_C != 0 {
            1
        } else {
            0
        };
        let sum = self.acc as u16 + m as u16 + c;
        let r = (sum % 256) as u8;
        let overflow = (self.acc & 0x80) == (m & 0x80) && (self.acc & 0x80) != (r & 0x80);
        self.status = with_nvzc(self.status, r, sum > 255, overflow);
        self.acc = r;
        proof {
            lemma_u_flag_kept(self.status, old(self).status);
        }
    }

    /// CMP, CPX, CPY: C when the register is at least the operand, Z when
    /// equal, S from bit 7 of the difference.
    fn compare(&mut self, bus: &mut Bus, register: u8)
        requires
            old(bus).wf(),
            old(self).wf(),
        ensures
            final(bus).wf(),
            old(bus).keeps_timing(final(bus)),
            final(self).wf(),
            *final(bus) == old(self).bus_after_fetch(old(bus)),
            ({
                let m = old(self).operand(old(bus));
                let d = ((register - m + 256) % 256) as u8;
                &&& flag(final(self).status, FLAG_C) == (register >= m)
                &&& flag(final(self).status, FLAG_Z) == (register == m)
                &&& flag(final(self).status, FLAG_S) == (d & 0x80 != 0)
                &&& final(self).status & 0x7C == old(self).status & 0x7C
                &&& *final(self) == (Emu6502 {
                    fetched_data: m,
                    status: final(self).status,
                    ..*old(self)
                })
            }),
    {
        let m = self.fetch(bus);
        let d = if register >= m {
            register - m
        } else {
            (register as u16 + 256 - m as u16) as u8
        };
        let p = self.status;
        let q = with_nvzc(p, d, register >= m, p & FLAG_V != 0);
        assert(nvzc_of(q, p, d, register >= m, p & 0x40 != 0) ==> q & 0x7C == p & 0x7C)
            by (bit_vector);
        self.status = q;
        proof {
            lemma_u_flag_kept(self.status, old(self).status);
        }
    }

    /// BIT: S and V from bits 7 and 6 of the operand, Z from A AND operand.
    fn bit_test(&mut self, bus: &mut Bus)
        requires
            old(bus).wf(),
            old(self).wf(),
        ensures
            final(bus).wf(),
            old(bus).keeps_timing(final(bus)),
            final(self).wf(),
            *final(bus) == old(self).bus_after_fetch(old(bus)),
            ({
                let m = old(self).operand(old(bus));
                &&& flag(final(self).status, FLAG_S) == (m & 0x80 != 0)
                &&& flag(final(self).status, FLAG_V) == (m & 0x40 != 0)
                &&& flag(final(self).status, FLAG_Z) == (old(self).acc & m == 0)
                &&& final(self).status & 0x3D == old(self).status & 0x3D
                &&& *final(self) == (Emu6502 {
                    fetched_data: m,
                    status: final(self).status,
                    ..*old(self)
                })
            }),
    {
        let m = self.fetch(bus);
        let p = self.status;
        let z: u8 = if self.acc & m == 0 {
            0x02
        } else {
            0
        };
        let q = (p & 0x3D) | (m & 0xC0) | z;
        assert((q & 0x80 != 0) == (m & 0x80 != 0) && (q & 0x40 != 0) == (m & 0x40 != 0) && (q
            & 0x02 != 0) == (z == 0x02) && q & 0x3D == p & 0x3D) by (bit_vector)
            requires
                q == (p & 0x3D) | (m & 0xC0) | z,
                z == 0x02 || z == 0,
        ;
        self.status = q;
        proof {
            assert(q & 0x3D == p & 0x3D && p & 0x20 != 0 ==> q & 0x20 != 0) by (bit_vector);
        }
    }

    /// ASL, LSR, ROL, ROR on A (accumulator mode) or on memory: C takes the
    /// bit shifted out, Z and S follow the result.
    fn shift(&mut self, bus: &mut Bus, which: Instruction)
        requires
            old(bus).wf(),
            old(self).wf(),
        ensures
            final(bus).wf(),
            old(bus).keeps_timing(final(bus)),
            final(self).wf(),
            ({
                let m = old(self).operand(old(bus));
                let c_in: u8 = if flag(old(self).status, FLAG_C) {
                    1
                } else {
                    0
                };
                let r: u8 = if which == Instruction::Asl {
                    ((m * 2) % 256) as u8
                } else if which == Instruction::Lsr {
                    m / 2
                } else if which == Instruction::Rol {
                    ((m * 2) % 256 + c_in) as u8
                } else {
                    (m / 2 + c_in * 128) as u8
                };
                let c_out = if which == Instruction::Asl || which == Instruction::Rol {
                    m >= 128
                } else {
                    m % 2 == 1
                };
                &&& nvzc_of(
                    final(self).status,
                    old(self).status,
                    r,
                    c_out,
                    flag(old(self).status, FLAG_V),
                )
                &&& if old(self).mode() == AddressingMode::Acc {
                    &&& *final(bus) == *old(bus)
                    &&& *final(self) == (Emu6502 {
                        acc: r,
                        fetched_data: m,
                        status: final(self).status,
                        ..*old(self)
                    })
                } else {
                    &&& old(self).bus_after_fetch(old(bus)).written(final(bus), old(self).address, r)
                    &&& *final(self) == (Emu6502 {
                        fetched_data: m,
                        status: final(self).status,
                        ..*old(self)
                    })
                }
            }),
    {
        let m = self.fetch(bus);
        let c_in: u8 = if self.status & FLAG_C != 0 {
            1
        } else {
            0
        };
        let r: u8 = if which == Instruction::Asl {
            ((m as u16 * 2) % 256) as u8
        } else if which == Instruction::Lsr {
            m / 2
        } else if which == Instruction::Rol {
            ((m as u16 * 2) % 256 + c_in as u16) as u8
        } else {
            m / 2 + c_in * 128
        };
        let c_out = if which == Instruction::Asl || which == Instruction::Rol {
            m >= 128
        } else {
            m % 2 == 1
        };
        self.status = with_nvzc(self.status, r, c_out, self.status & FLAG_V != 0);
        proof {
            lemma_u_flag_kept(self.status, old(self).status);
        }
        if decode(self.opcode).mode == AddressingMode::Acc {
            self.acc = r;
        } else {
            self.write_data(bus, r);
        }
    }

    /// INC and DEC on memory: the result is written back, Z and S set.
    fn step_memory(&mut self, bus: &mut Bus, up: bool)
        requires
            old(bus).wf(),
            old(self).wf(),
        ensures
            final(bus).wf(),
            old(bus).keeps_timing(final(bus)),
            final(self).wf(),
            ({
                let m = old(self).operand(old(bus));
                let r = if up {
                    inc8(m)
                } else {
                    dec8(m)
                };
                &&& old(self).bus_after_fetch(old(bus)).written(final(bus), old(self).address, r)
                &&& zs_of(final(self).status, old(self).status, r)
                &&& *final(self) == (Emu6502 {
                    fetched_data: m,
                    status: final(self).status,
                    ..*old(self)
                })
            }),
    {
        let m = self.fetch(bus);
        let r = if up {
            if m == 255 {
                0
            } else {
                m + 1
            }
        } else {
            if m == 0 {
                255
            } else {
                m - 1
            }
        };
        self.write_data(bus, r);
        self.status = with_zs(self.status, r);
        proof {
            lemma_u_flag_kept(self.status, old(self).status);
        }
    }

    /// A taken branch: one more cycle, and one more again if the target is
    /// on another page than the next instruction.
    fn branching_instruction(&mut self, taken: bool)
        ensures
            ({
                let pc = old(self).prog_counter;
                let target = ((pc + old(self).addr_offset) % 0x10000) as u16;
                if taken {
                    *final(self) == (Emu6502 {
                        prog_counter: target,
                        additional_cycles: if target / 256 != pc / 256 {
                            2
                        } else {
                            1
                        },
                        ..*old(self)
                    })
                } else {
                    *final(self) == (Emu6502 { additional_cycles: 0, ..*old(self) })
                }
            }),
    {
        if taken {
            let pc = self.prog_counter;
            let target = ((pc as u32 + self.addr_offset as u32) % 0x10000) as u16;
            self.additional_cycles = if target / 256 != pc / 256 {
                2
            } else {
                1
            };
            self.prog_counter = target;
        } else {
            self.additional_cycles = 0;
        }
    }

    /// JSR: pushes the address of its own last byte, high byte first, and
    /// jumps.
    fn jsr(&mut self, bus: &mut Bus)
        requires
            old(bus).wf(),
        ensures
            final(bus).wf(),
            old(bus).keeps_timing(final(bus)),
            ({
                let ret = ((old(self).prog_counter + 0xFFFF) % 0x10000) as u16;
                let sp = old(self).stack_ptr;
                &&& exists|mid: Bus|
                    #[trigger] old(bus).written(&mid, stack_address(sp), (ret / 256) as u8) && mid.written(
                        final(bus),
                        stack_address(dec8(sp)),
                        (ret % 256) as u8,
                    )
                &&& *final(self) == (Emu6502 {
                    prog_counter: old(self).address,
                    stack_ptr: dec8(dec8(sp)),
                    ..*old(self)
                })
            }),
    {
        let ret = if self.prog_counter == 0 {
            0xFFFF
        } else {
            self.prog_counter - 1
        };
        self.push_to_stack(bus, (ret / 256) as u8);
        let ghost mid = *bus;
        self.push_to_stack(bus, (ret % 256) as u8);
        self.prog_counter = self.address;
        assert(ret == ((old(self).prog_counter + 0xFFFF) % 0x10000) as u16);
        assert(old(bus).written(&mid, stack_address(old(self).stack_ptr), (ret / 256) as u8));
    }

    /// RTS: pops the return address, low byte first, and adds one.
    fn rts(&mut self, bus: &mut Bus)
        requires
            old(bus).wf(),
        ensures
            final(bus).wf(),
            old(bus).keeps_timing(final(bus)),
            ({
                let sp = old(self).stack_ptr;
                let a1 = stack_address(inc8(sp));
                let a2 = stack_address(inc8(inc8(sp)));
                let b1 = old(bus).after_read(a1);
                &&& *final(bus) == b1.after_read(a2)
                &&& *final(self) == (Emu6502 {
                    prog_counter: inc16(word(old(bus).read_value(a1), b1.read_value(a2))),
                    stack_ptr: inc8(inc8(sp)),
                    ..*old(self)
                })
            }),
    {
        let low = self.pop_from_stack(bus);
        let high = self.pop_from_stack(bus);
        self.prog_counter = next_pc(make_word(low, high));
    }

    /// RTI: pops the status (B cleared, U set), then the program counter.
    fn rti(&mut self, bus: &mut Bus)
        requires
            old(bus).wf(),
        ensures
            final(bus).wf(),
            old(bus).keeps_timing(final(bus)),
            final(self).wf(),
            ({
                let sp = old(self).stack_ptr;
                let a1 = stack_address(inc8(sp));
                let a2 = stack_address(inc8(inc8(sp)));
                let a3 = stack_address(inc8(inc8(inc8(sp))));
                let b1 = old(bus).after_read(a1);
                let b2 = b1.after_read(a2);
                &&& *final(bus) == b2.after_read(a3)
                &&& *final(self) == (Emu6502 {
                    status: (old(bus).read_value(a1) & !FLAG_B) | FLAG_U,
                    prog_counter: word(b1.read_value(a2), b2.read_value(a3)),
                    stack_ptr: inc8(inc8(inc8(sp))),
                    ..*old(self)
                })
                &&& final(self).status & FLAG_B == 0
            }),
    {
        let p = self.pop_from_stack(bus);
        let st = (p & !FLAG_B) | FLAG_U;
        proof {
            lemma_u8_bits(p);
        }
        self.status = st;
        let low = self.pop_from_stack(bus);
        let high = self.pop_from_stack(bus);
        self.prog_counter = make_word(low, high);
    }

    /// PLP: pops the status; U reads as 1.
    fn plp(&mut self, bus: &mut Bus)
        requires
            old(bus).wf(),
        ensures
            final(bus).wf(),
            old(bus).keeps_timing(final(bus)),
            final(self).wf(),
            ({
                let a1 = stack_address(inc8(old(self).stack_ptr));
                &&& *final(bus) == old(bus).after_read(a1)
                &&& *final(self) == (Emu6502 {
                    status: old(bus).read_value(a1) | FLAG_U,
                    stack_ptr: inc8(old(self).stack_ptr),
                    ..*old(self)
                })
            }),
    {
        let p = self.pop_from_stack(bus);
        proof {
            lemma_u8_bits(p);
        }
        self.status = p | FLAG_U;
    }

    /// PLA: pops A, Z and S set.
    fn pla(&mut self, bus: &mut Bus)
        requires
            old(bus).wf(),
            old(self).wf(),
        ensures
            final(bus).wf(),
            old(bus).keeps_timing(final(bus)),
            final(self).wf(),
            ({
                let a1 = stack_address(inc8(old(self).stack_ptr));
                let v = old(bus).read_value(a1);
                &&& *final(bus) == old(bus).after_read(a1)
                &&& zs_of(final(self).status, old(self).status, v)
                &&& *final(self) == (Emu6502 {
                    acc: v,
                    status: final(self).status,
                    stack_ptr: inc8(old(self).stack_ptr),
                    ..*old(self)
                })
            }),
    {
        let v = self.pop_from_stack(bus);
        self.acc = v;
        self.status = with_zs(self.status, v);
        proof {
            lemma_u_flag_kept(self.status, old(self).status);
        }
    }

    /// Pushes the program counter, high byte first, then `pushed_status`;
    /// sets I and jumps through the vector at `vector`.
    fn interrupt(&mut self, bus: &mut Bus, return_address: u16, pushed_status: u8, vector: u16)
        requires
            old(bus).wf(),
            old(self).wf(),
        ensures
            final(bus).dma_enable == old(bus).dma_enable,
            final(bus).wf(),
            old(bus).keeps_timing(final(bus)),
            final(self).wf(),
            ({
                let sp = old(self).stack_ptr;
                exists|b1: Bus, b2: Bus, b3: Bus|
                    #[trigger] interrupt_steps(
                        *old(self),
                        *old(bus),
                        b1,
                        b2,
                        b3,
                        *final(self),
                        *final(bus),
                        return_address,
                        pushed_status,
                        vector,
                    )
            }),
    {
        self.push_to_stack(bus, (return_address / 256) as u8);
        let ghost b1 = *bus;
        self.push_to_stack(bus, (return_address % 256) as u8);
        let ghost b2 = *bus;
        self.push_to_stack(bus, pushed_status);
        let ghost b3 = *bus;
        let st = self.status;
        proof {
            lemma_u8_bits(st);
        }
        self.status = st | FLAG_I;
        let low = self.read_data(bus, vector);
        let high = self.read_data(bus, next_pc(vector));
        self.prog_counter = make_word(low, high);
        assert(interrupt_steps(
            *old(self),
            *old(bus),
            b1,
            b2,
            b3,
            *self,
            *bus,
            return_address,
            pushed_status,
            vector,
        ));
    }

    /// Sets Z and S from `v` and returns `v`, for the transfers and the
    /// register steps.
    fn set_zs(&mut self, v: u8) -> (r: u8)
        requires
            old(self).wf(),
        ensures
            final(self).wf(),
            r == v,
            zs_of(final(self).status, old(self).status, v),
            *final(self) == (Emu6502 { status: final(self).status, ..*old(self) }),
    {
        self.status = with_zs(self.status, v);
        proof {
            lemma_u_flag_kept(self.status, old(self).status);
        }
        v
    }

    /// Sets or clears one flag other than U.
    fn set_flag(&mut self, mask: u8, on: bool)
        requires
            old(self).wf(),
            mask == FLAG_C || mask == FLAG_I || mask == FLAG_D || mask == FLAG_V,
        ensures
            final(self).wf(),
            *final(self) == (Emu6502 {
                status: if on {
                    old(self).status | mask
                } else {
                    old(self).status & !mask
                },
                ..*old(self)
            }),
    {
        proof {
            assert((mask == 0x01u8 || mask == 0x04u8 || mask == 0x08u8 || mask == 0x40u8) ==> mask
                & 0x20 == 0) by (bit_vector);
            lemma_u_kept(self.status, mask);
        }
        self.status = with_flag(self.status, mask, on);
    }

    /// The instructions that take a memory or accumulator operand.
    fn execute_memory(&mut self, bus: &mut Bus, instruction: Instruction)
        requires
            old(bus).wf(),
            old(self).wf(),
            memory_group(instruction),
        ensures
            final(bus).wf(),
            final(self).wf(),
            old(bus).keeps_timing(final(bus)),
            final(self).opcode == old(self).opcode,
            final(self).cycle_counter == old(self).cycle_counter,
            final(self).clock_complete == old(self).clock_complete,
            final(self).halted == (old(self).halted || instruction == Instruction::Xep),
            page_cross_sensitive(instruction) ==> final(self).additional_cycles == old(self).additional_cycles,
            !page_cross_sensitive(instruction) && !is_branch(instruction) ==> final(self).additional_cycles == 0,
            is_branch(instruction) ==> final(self).additional_cycles <= 2,
            instruction_effect(instruction, *old(self), *old(bus), *final(self), *final(bus)),
    {
        if !page_cross_sensitive_exec(instruction) && !is_branch_exec(instruction) {
            self.additional_cycles = 0;
        }
        match instruction {
            Instruction::Lda => {
                let v = self.load(bus);
                self.acc = v;
            },
            Instruction::Ldx => {
                let v = self.load(bus);
                self.x = v;
            },
            Instruction::Ldy => {
                let v = self.load(bus);
                self.y = v;
            },
            Instruction::Sta => {
                let v = self.acc;
                self.write_data(bus, v);
            },
            Instruction::Stx => {
                let v = self.x;
                self.write_data(bus, v);
            },
            Instruction::Sty => {
                let v = self.y;
                self.write_data(bus, v);
            },
            Instruction::Adc => self.add(bus, false),
            Instruction::Sbc => self.add(bus, true),
            Instruction::And | Instruction::Ora | Instruction::Eor => self.logic(bus, instruction),
            Instruction::Cmp => {
                let r = self.acc;
                self.compare(bus, r);
            },
            Instruction::Cpx => {
                let r = self.x;
                self.compare(bus, r);
            },
            Instruction::Cpy => {
                let r = self.y;
                self.compare(bus, r);
            },
            Instruction::Bit => self.bit_test(bus),
            Instruction::Asl | Instruction::Lsr | Instruction::Rol | Instruction::Ror => self.shift(
                bus,
                instruction,
            ),
            Instruction::Inc => self.step_memory(bus, true),
            Instruction::Dec => self.step_memory(bus, false),
            _ => {},
        }
    }

    /// The instructions that use the stack.
    fn execute_stack(&mut self, bus: &mut Bus, instruction: Instruction)
        requires
            old(bus).wf(),
            old(self).wf(),
            stack_group(instruction),
        ensures
            final(bus).wf(),
            final(self).wf(),
            old(bus).keeps_timing(final(bus)),
            final(self).opcode == old(self).opcode,
            final(self).cycle_counter == old(self).cycle_counter,
            final(self).clock_complete == old(self).clock_complete,
            final(self).halted == (old(self).halted || instruction == Instruction::Xep),
            page_cross_sensitive(instruction) ==> final(self).additional_cycles == old(self).additional_cycles,
            !page_cross_sensitive(instruction) && !is_branch(instruction) ==> final(self).additional_cycles == 0,
            is_branch(instruction) ==> final(self).additional_cycles <= 2,
            instruction_effect(instruction, *old(self), *old(bus), *final(self), *final(bus)),
    {
        if !page_cross_sensitive_exec(instruction) && !is_branch_exec(instruction) {
            self.additional_cycles = 0;
        }
        match instruction {
            Instruction::Jsr => self.jsr(bus),
            Instruction::Rts => self.rts(bus),
            Instruction::Rti => self.rti(bus),
            Instruction::Pha => {
                let v = self.acc;
                self.push_to_stack(bus, v);
            },
            Instruction::Php => {
                let v = self.status | FLAG_B | FLAG_U;
                self.push_to_stack(bus, v);
            },
            Instruction::Pla => self.pla(bus),
            Instruction::Plp => self.plp(bus),
            Instruction::Brk => self.brk(bus),
            _ => {},
        }
    }

    /// The register, flag, jump and branch instructions.
    #[verifier::rlimit(100)]
    fn execute_register(&mut self, bus: &mut Bus, instruction: Instruction)
        requires
            old(bus).wf(),
            old(self).wf(),
            !memory_group(instruction) && !stack_group(instruction),
        ensures
            final(bus).wf(),
            final(self).wf(),
            old(bus).keeps_timing(final(bus)),
            final(self).opcode == old(self).opcode,
            final(self).cycle_counter == old(self).cycle_counter,
            final(self).clock_complete == old(self).clock_complete,
            final(self).halted == (old(self).halted || instruction == Instruction::Xep),
            page_cross_sensitive(instruction) ==> final(self).additional_cycles == old(self).additional_cycles,
            !page_cross_sensitive(instruction) && !is_branch(instruction) ==> final(self).additional_cycles == 0,
            is_branch(instruction) ==> final(self).additional_cycles <= 2,
            instruction_effect(instruction, *old(self), *old(bus), *final(self), *final(bus)),
    {
        if !page_cross_sensitive_exec(instruction) && !is_branch_exec(instruction) {
            self.additional_cycles = 0;
        }
        match instruction {
            Instruction::Sec => self.set_flag(FLAG_C, true),
            Instruction::Clc => self.set_flag(FLAG_C, false),
            Instruction::Sei => self.set_flag(FLAG_I, true),
            Instruction::Cli => self.set_flag(FLAG_I, false),
            Instruction::Sed => self.set_flag(FLAG_D, true),
            Instruction::Cld => self.set_flag(FLAG_D, false),
            Instruction::Clv => self.set_flag(FLAG_V, false),
            Instruction::Jmp => {
                self.prog_counter = self.address;
            },
            Instruction::Bmi => self.branching_instruction(self.status & FLAG_S != 0),
            Instruction::Bpl => self.branching_instruction(self.status & FLAG_S == 0),
            Instruction::Bcc => self.branching_instruction(self.status & FLAG_C == 0),
            Instruction::Bcs => self.branching_instruction(self.status & FLAG_C != 0),
            Instruction::Beq => self.branching_instruction(self.status & FLAG_Z != 0),
            Instruction::Bne => self.branching_instruction(self.status & FLAG_Z == 0),
            Instruction::Bvs => self.branching_instruction(self.status & FLAG_V != 0),
            Instruction::Bvc => self.branching_instruction(self.status & FLAG_V == 0),
            Instruction::Inx => {
                let v = if self.x == 255 {
                    0
                } else {
                    self.x + 1
                };
                self.x = self.set_zs(v);
            },
            Instruction::Iny => {
                let v = if self.y == 255 {
                    0
                } else {
                    self.y + 1
                };
                self.y = self.set_zs(v);
            },
            Instruction::Dex => {
                let v = if self.x == 0 {
                    255
                } else {
                    self.x - 1
                };
                self.x = self.set_zs(v);
            },
            Instruction::Dey => {
                let v = if self.y == 0 {
                    255
                } else {
                    self.y - 1
                };
                self.y = self.set_zs(v);
            },
            Instruction::Tax => {
                let v = self.acc;
                self.x = self.set_zs(v);
            },
            Instruction::Txa => {
                let v = self.x;
                self.acc = self.set_zs(v);
            },
            Instruction::Tay => {
                let v = self.acc;
                self.y = self.set_zs(v);
            },
            Instruction::Tya => {
                let v = self.y;
                self.acc = self.set_zs(v);
            },
            Instruction::Tsx => {
                let v = self.stack_ptr;
                self.x = self.set_zs(v);
            },
            Instruction::Txs => {
                self.stack_ptr = self.x;
            },
            Instruction::Nop => {},
            Instruction::Xep => {
                self.halted = true;
            },
            _ => {},
        }
    }

    /// Runs one instruction once its addressing mode has run. Instructions
    /// outside the page-crossing group and the branches drop the extra cycle
    /// that the addressing mode recorded.
    fn execute(&mut self, bus: &mut Bus, instruction: Instruction)
        requires
            old(bus).wf(),
            old(self).wf(),
        ensures
            final(bus).wf(),
            final(self).wf(),
            old(bus).keeps_timing(final(bus)),
            final(self).opcode == old(self).opcode,
            final(self).cycle_counter == old(self).cycle_counter,
            final(self).clock_complete == old(self).clock_complete,
            final(self).halted == (old(self).halted || instruction == Instruction::Xep),
            page_cross_sensitive(instruction) ==> final(self).additional_cycles == old(self).additional_cycles,
            !page_cross_sensitive(instruction) && !is_branch(instruction) ==> final(self).additional_cycles == 0,
            is_branch(instruction) ==> final(self).additional_cycles <= 2,
            instruction_effect(instruction, *old(self), *old(bus), *final(self), *final(bus)),
    {
        if memory_group_exec(instruction) {
            self.execute_memory(bus, instruction);
        } else if stack_group_exec(instruction) {
            self.execute_stack(bus, instruction);
        } else {
            self.execute_register(bus, instruction);
        }
    }

    /// Advances one CPU cycle. On the first cycle of an instruction the
    /// opcode at PC is decoded, its addressing mode and its instruction run,
    /// and the cycle count is set to the table's base count plus the extra
    /// cycles that were recorded; the remaining cycles only count down. An
    /// undocumented opcode halts the CPU.
    pub fn clock(&mut self, bus: &mut Bus)
        requires
            old(bus).wf(),
            old(self).wf(),
        ensures
            final(bus).wf(),
            old(bus).keeps_timing(final(bus)),
            final(self).wf(),
            old(self).halted ==> *final(self) == *old(self) && *final(bus) == *old(bus),
            !old(self).halted && old(self).cycle_counter > 0 ==> *final(bus) == *old(bus)
                && *final(self) == (Emu6502 {
                cycle_counter: (old(self).cycle_counter - 1) as u8,
                clock_complete: old(self).cycle_counter == 1,
                ..*old(self)
            }),
            !old(self).halted && old(self).cycle_counter == 0 ==> {
                let e = opcode_entry(final(self).opcode);
                &&& final(self).opcode == old(bus).read_value(old(self).prog_counter)
                &&& e.instruction == Instruction::Xep ==> final(self).halted
                    && final(self).cycle_counter == 0
                &&& e.instruction != Instruction::Xep ==> !final(self).halted && final(self).cycle_counter + 1 == e.cycles + final(self).additional_cycles
                    && final(self).clock_complete == (final(self).cycle_counter == 0)
                &&& !page_cross_sensitive(e.instruction) && !is_branch(e.instruction) ==> final(self).additional_cycles == 0
                &&& final(self).additional_cycles <= 2
                &&& exists|c1: Emu6502, b1: Bus, c2: Emu6502, b2: Bus|
                    #[trigger] instruction_step(
                        *old(self),
                        *old(bus),
                        c1,
                        b1,
                        c2,
                        b2,
                        *final(self),
                        *final(bus),
                    )
            },
    {
        if self.halted {
            return ;
        }
        if self.cycle_counter == 0 {
            self.additional_cycles = 0;
            self.opcode = self.read_at_pc(bus);
            let ghost c1 = *self;
            let ghost b1 = *bus;
            let op = decode(self.opcode);
            self.address_operand(bus, op.mode);
            let ghost c2 = *self;
            let ghost b2 = *bus;
            assert(self.additional_cycles <= 1);
            self.execute(bus, op.instruction);
            if self.halted {
                self.clock_complete = false;
                assert(instruction_step(*old(self), *old(bus), c1, b1, c2, b2, *self, *bus)) by {
                    reveal(instruction_step);
                }
                return ;
            }
            proof {
                lemma_legal_cycles(self.opcode);
            }
            self.cycle_counter = op.cycles + self.additional_cycles - 1;
            self.clock_complete = self.cycle_counter == 0;
            assert(instruction_step(*old(self), *old(bus), c1, b1, c2, b2, *self, *bus)) by {
                reveal(instruction_step);
            }
        } else {
            self.cycle_counter = self.cycle_counter - 1;
            self.clock_complete = self.cycle_counter == 0;
        }
    }

    /// Maskable interrupt: ignored while I is set; else pushes PC and the
    /// status with B clear, sets I, and jumps through 0xFFFE/F; 7 cycles.
    pub fn irq(&mut self, bus: &mut Bus)
        requires
            old(bus).wf(),
            old(self).wf(),
        ensures
            final(bus).wf(),
            old(bus).keeps_timing(final(bus)),
            final(self).wf(),
            flag(old(self).status, FLAG_I) ==> *final(self) == *old(self) && *final(bus) == *old(bus),
            !flag(old(self).status, FLAG_I) ==> exists|b1: Bus, b2: Bus, b3: Bus|
                #[trigger] interrupt_steps(
                    *old(self),
                    *old(bus),
                    b1,
                    b2,
                    b3,
                    final(self).with_cycles(old(self).cycle_counter),
                    *final(bus),
                    old(self).prog_counter,
                    (old(self).status & !FLAG_B) | FLAG_U,
                    0xFFFE,
                ) && final(self).cycle_counter == 7,
    {
        if self.status & FLAG_I == 0 {
            let pc = self.prog_counter;
            let pushed = (self.status & !FLAG_B) | FLAG_U;
            self.interrupt(bus, pc, pushed, 0xFFFE);
            let ghost done = *self;
            self.cycle_counter = 7;
            assert(self.with_cycles(old(self).cycle_counter) == done);
        }
    }

    /// Non-maskable interrupt: pushes PC and the status with B clear and U
    /// set, sets I, and jumps through 0xFFFA/B; 8 cycles.
    pub fn nmi(&mut self, bus: &mut Bus)
        requires
            old(bus).wf(),
            old(self).wf(),
        ensures
            final(bus).dma_enable == old(bus).dma_enable,
            final(bus).wf(),
            old(bus).keeps_timing(final(bus)),
            final(self).wf(),
            final(self).cycle_counter == 8,
            exists|b1: Bus, b2: Bus, b3: Bus|
                #[trigger] interrupt_steps(
                    *old(self),
                    *old(bus),
                    b1,
                    b2,
                    b3,
                    final(self).with_cycles(old(self).cycle_counter),
                    *final(bus),
                    old(self).prog_counter,
                    (old(self).status & !FLAG_B) | FLAG_U,
                    0xFFFA,
                ),
    {
        let pc = self.prog_counter;
        let pushed = (self.status & !FLAG_B) | FLAG_U;
        self.interrupt(bus, pc, pushed, 0xFFFA);
        let ghost done = *self;
        self.cycle_counter = 8;
        assert(self.with_cycles(old(self).cycle_counter) == done);
    }

    /// Power-on reset: A, X, Y cleared, SP 0xFD, status I|U, PC from
    /// 0xFFFC/D; 8 cycles.
    pub fn reset(&mut self, bus: &mut Bus)
        requires
            old(bus).wf(),
        ensures
            final(bus).wf(),
            old(bus).keeps_timing(final(bus)),
            final(self).wf(),
            ({
                let b1 = old(bus).after_read(0xFFFC);
                &&& *final(bus) == b1.after_read(0xFFFD)
                &&& *final(self) == (Emu6502 {
                    acc: 0,
                    x: 0,
                    y: 0,
                    stack_ptr: 0xFD,
                    status: FLAG_I | FLAG_U,
                    prog_counter: word(old(bus).read_value(0xFFFC), b1.read_value(0xFFFD)),
                    cycle_counter: 8,
                    additional_cycles: 0,
                    clock_complete: false,
                    halted: false,
                    ..*old(self)
                })
            }),
    {
        self.acc = 0;
        self.x = 0;
        self.y = 0;
        self.stack_ptr = 0xFD;
        self.status = FLAG_I | FLAG_U;
        proof {
            lemma_u8_bits(0);
        }
        let low = self.read_data(bus, 0xFFFC);
        let high = self.read_data(bus, 0xFFFD);
        self.prog_counter = make_word(low, high);
        self.cycle_counter = 8;
        self.additional_cycles = 0;
        self.clock_complete = false;
        self.halted = false;
    }

    /// BRK: pushes the address after its padding byte and the status with B
    /// and U set, sets I, and jumps through 0xFFFE/F.
    fn brk(&mut self, bus: &mut Bus)
        requires
            old(bus).wf(),
            old(self).wf(),
        ensures
            final(bus).wf(),
            final(self).wf(),
            old(bus).keeps_timing(final(bus)),
            exists|b1: Bus, b2: Bus, b3: Bus|
                #[trigger] interrupt_steps(
                    *old(self),
                    *old(bus),
                    b1,
                    b2,
                    b3,
                    *final(self),
                    *final(bus),
                    inc16(old(self).prog_counter),
                    old(self).status | FLAG_B | FLAG_U,
                    0xFFFE,
                ),
    {
        let ret = next_pc(self.prog_counter);
        let pushed = self.status | FLAG_B | FLAG_U;
        self.interrupt(bus, ret, pushed, 0xFFFE);
    }

    /// Runs the addressing mode of the instruction in progress.
    fn address_operand(&mut self, bus: &mut Bus, mode: AddressingMode)
        requires
            old(bus).wf(),
        ensures
            final(bus).wf(),
            old(bus).keeps_timing(final(bus)),
            final(self).acc == old(self).acc,
            final(self).x == old(self).x,
            final(self).y == old(self).y,
            final(self).status == old(self).status,
            final(self).stack_ptr == old(self).stack_ptr,
            final(self).opcode == old(self).opcode,
            final(self).cycle_counter == old(self).cycle_counter,
            final(self).halted == old(self).halted,
            final(self).additional_cycles == old(self).additional_cycles || final(self).additional_cycles == 1,
            mode == AddressingMode::Imp ==> *final(self) == *old(self) && *final(bus) == *old(bus),
            mode_effect(mode, *old(self), *old(bus), *final(self), *final(bus)),
    {
        match mode {
            AddressingMode::Imm => self.imm(),
            AddressingMode::Imp => {},
            AddressingMode::Acc => self.acc_mode(),
            AddressingMode::Abs => self.absolute(bus, 0),
            AddressingMode::Abx => {
                let x = self.x;
                self.absolute(bus, x)
            },
            AddressingMode::Aby => {
                let y = self.y;
                self.absolute(bus, y)
            },
            AddressingMode::Zp0 => self.zero_page(bus, 0),
            AddressingMode::Zpx => {
                let x = self.x;
                self.zero_page(bus, x)
            },
            AddressingMode::Zpy => {
                let y = self.y;
                self.zero_page(bus, y)
            },
            AddressingMode::Ind => self.ind(bus),
            AddressingMode::Idx => self.idx(bus),
            AddressingMode::Idy => self.idy(bus),
            AddressingMode::Rel => self.rel(bus),
        }
    }
}

} // verus!
