use vstd::prelude::*;

verus! {

/// The 6502's addressing modes.
#[derive(Clone, Copy, PartialEq, Eq, Structural, Debug)]
pub enum AddressingMode {
    /// Immediate: the operand is the byte after the opcode.
    Imm,
    /// Implied: no operand.
    Imp,
    /// Accumulator: the operand is A.
    Acc,
    /// Absolute 16-bit address.
    Abs,
    /// Absolute plus X.
    Abx,
    /// Absolute plus Y.
    Aby,
    /// Zero page.
    Zp0,
    /// Zero page plus X, wrapping in page zero.
    Zpx,
    /// Zero page plus Y, wrapping in page zero.
    Zpy,
    /// Indirect, for JMP, with the page-wrap of the pointer's high byte.
    Ind,
    /// (zero page + X) indirect.
    Idx,
    /// (zero page) indirect, plus Y.
    Idy,
    /// Relative: a signed offset for branches.
    Rel,
}

/// The 56 documented instructions, and the handler of the others.
#[derive(Clone, Copy, PartialEq, Eq, Structural, Debug)]
pub enum Instruction {
    Adc,
    And,
    Asl,
    Bcc,
    Bcs,
    Beq,
    Bit,
    Bmi,
    Bne,
    Bpl,
    Brk,
    Bvc,
    Bvs,
    Clc,
    Cld,
    Cli,
    Clv,
    Cmp,
    Cpx,
    Cpy,
    Dec,
    Dex,
    Dey,
    Eor,
    Inc,
    Inx,
    Iny,
    Jmp,
    Jsr,
    Lda,
    Ldx,
    Ldy,
    Lsr,
    Nop,
    Ora,
    Pha,
    Php,
    Pla,
    Plp,
    Rol,
    Ror,
    Rti,
    Rts,
    Sbc,
    Sec,
    Sed,
    Sei,
    Sta,
    Stx,
    Sty,
    Tax,
    Tay,
    Tsx,
    Txa,
    Txs,
    Tya,
    /// An undocumented opcode: the CPU halts.
    Xep,
}

/// One entry of the decode table.
#[derive(Clone, Copy, PartialEq, Eq, Structural, Debug)]
pub struct Op {
    pub mode: AddressingMode,
    pub instruction: Instruction,
    /// The base cycle count.
    pub cycles: u8,
}

/// The published 6502 decode table; undocumented opcodes halt.
pub open spec fn opcode_entry(opcode: u8) -> Op {
    match opcode {
        0x00 => Op { mode: AddressingMode::Imp, instruction: Instruction::Brk, cycles: 7 },
        0x01 => Op { mode: AddressingMode::Idx, instruction: Instruction::Ora, cycles: 6 },
        0x05 => Op { mode: AddressingMode::Zp0, instruction: Instruction::Ora, cycles: 3 },
        0x06 => Op { mode: AddressingMode::Zp0, instruction: Instruction::Asl, cycles: 5 },
        0x08 => Op { mode: AddressingMode::Imp, instruction: Instruction::Php, cycles: 3 },
        0x09 => Op { mode: AddressingMode::Imm, instruction: Instruction::Ora, cycles: 2 },
        0x0A => Op { mode: AddressingMode::Acc, instruction: Instruction::Asl, cycles: 2 },
        0x0D => Op { mode: AddressingMode::Abs, instruction: Instruction::Ora, cycles: 4 },
        0x0E => Op { mode: AddressingMode::Abs, instruction: Instruction::Asl, cycles: 6 },
        0x10 => Op { mode: AddressingMode::Rel, instruction: Instruction::Bpl, cycles: 2 },
        0x11 => Op { mode: AddressingMode::Idy, instruction: Instruction::Ora, cycles: 5 },
        0x15 => Op { mode: AddressingMode::Zpx, instruction: Instruction::Ora, cycles: 4 },
        0x16 => Op { mode: AddressingMode::Zpx, instruction: Instruction::Asl, cycles: 6 },
        0x18 => Op { mode: AddressingMode::Imp, instruction: Instruction::Clc, cycles: 2 },
        0x19 => Op { mode: AddressingMode::Aby, instruction: Instruction::Ora, cycles: 4 },
        0x1D => Op { mode: AddressingMode::Abx, instruction: Instruction::Ora, cycles: 4 },
        0x1E => Op { mode: AddressingMode::Abx, instruction: Instruction::Asl, cycles: 7 },
        0x20 => Op { mode: AddressingMode::Abs, instruction: Instruction::Jsr, cycles: 6 },
        0x21 => Op { mode: AddressingMode::Idx, instruction: Instruction::And, cycles: 6 },
        0x24 => Op { mode: AddressingMode::Zp0, instruction: Instruction::Bit, cycles: 3 },
        0x25 => Op { mode: AddressingMode::Zp0, instruction: Instruction::And, cycles: 3 },
        0x26 => Op { mode: AddressingMode::Zp0, instruction: Instruction::Rol, cycles: 5 },
        0x28 => Op { mode: AddressingMode::Imp, instruction: Instruction::Plp, cycles: 4 },
        0x29 => Op { mode: AddressingMode::Imm, instruction: Instruction::And, cycles: 2 },
        0x2A => Op { mode: AddressingMode::Acc, instruction: Instruction::Rol, cycles: 2 },
        0x2C => Op { mode: AddressingMode::Abs, instruction: Instruction::Bit, cycles: 4 },
        0x2D => Op { mode: AddressingMode::Abs, instruction: Instruction::And, cycles: 4 },
        0x2E => Op { mode: AddressingMode::Abs, instruction: Instruction::Rol, cycles: 6 },
        0x30 => Op { mode: AddressingMode::Rel, instruction: Instruction::Bmi, cycles: 2 },
        0x31 => Op { mode: AddressingMode::Idy, instruction: Instruction::And, cycles: 5 },
        0x35 => Op { mode: AddressingMode::Zpx, instruction: Instruction::And, cycles: 4 },
        0x36 => Op { mode: AddressingMode::Zpx, instruction: Instruction::Rol, cycles: 6 },
        0x38 => Op { mode: AddressingMode::Imp, instruction: Instruction::Sec, cycles: 2 },
        0x39 => Op { mode: AddressingMode::Aby, instruction: Instruction::And, cycles: 4 },
        0x3D => Op { mode: AddressingMode::Abx, instruction: Instruction::And, cycles: 4 },
        0x3E => Op { mode: AddressingMode::Abx, instruction: Instruction::Rol, cycles: 7 },
        0x40 => Op { mode: AddressingMode::Imp, instruction: Instruction::Rti, cycles: 6 },
        0x41 => Op { mode: AddressingMode::Idx, instruction: Instruction::Eor, cycles: 6 },
        0x45 => Op { mode: AddressingMode::Zp0, instruction: Instruction::Eor, cycles: 3 },
        0x46 => Op { mode: AddressingMode::Zp0, instruction: Instruction::Lsr, cycles: 5 },
        0x48 => Op { mode: AddressingMode::Imp, instruction: Instruction::Pha, cycles: 3 },
        0x49 => Op { mode: AddressingMode::Imm, instruction: Instruction::Eor, cycles: 2 },
        0x4A => Op { mode: AddressingMode::Acc, instruction: Instruction::Lsr, cycles: 2 },
        0x4C => Op { mode: AddressingMode::Abs, instruction: Instruction::Jmp, cycles: 3 },
        0x4D => Op { mode: AddressingMode::Abs, instruction: Instruction::Eor, cycles: 4 },
        0x4E => Op { mode: AddressingMode::Abs, instruction: Instruction::Lsr, cycles: 6 },
        0x50 => Op { mode: AddressingMode::Rel, instruction: Instruction::Bvc, cycles: 2 },
        0x51 => Op { mode: AddressingMode::Idy, instruction: Instruction::Eor, cycles: 5 },
        0x55 => Op { mode: AddressingMode::Zpx, instruction: Instruction::Eor, cycles: 4 },
        0x56 => Op { mode: AddressingMode::Zpx, instruction: Instruction::Lsr, cycles: 6 },
        0x58 => Op { mode: AddressingMode::Imp, instruction: Instruction::Cli, cycles: 2 },
        0x59 => Op { mode: AddressingMode::Aby, instruction: Instruction::Eor, cycles: 4 },
        0x5D => Op { mode: AddressingMode::Abx, instruction: Instruction::Eor, cycles: 4 },
        0x5E => Op { mode: AddressingMode::Abx, instruction: Instruction::Lsr, cycles: 7 },
        0x60 => Op { mode: AddressingMode::Imp, instruction: Instruction::Rts, cycles: 6 },
        0x61 => Op { mode: AddressingMode::Idx, instruction: Instruction::Adc, cycles: 6 },
        0x65 => Op { mode: AddressingMode::Zp0, instruction: Instruction::Adc, cycles: 3 },
        0x66 => Op { mode: AddressingMode::Zp0, instruction: Instruction::Ror, cycles: 5 },
        0x68 => Op { mode: AddressingMode::Imp, instruction: Instruction::Pla, cycles: 4 },
        0x69 => Op { mode: AddressingMode::Imm, instruction: Instruction::Adc, cycles: 2 },
        0x6A => Op { mode: AddressingMode::Acc, instruction: Instruction::Ror, cycles: 2 },
        0x6C => Op { mode: AddressingMode::Ind, instruction: Instruction::Jmp, cycles: 5 },
        0x6D => Op { mode: AddressingMode::Abs, instruction: Instruction::Adc, cycles: 4 },
        0x6E => Op { mode: AddressingMode::Abs, instruction: Instruction::Ror, cycles: 6 },
        0x70 => Op { mode: AddressingMode::Rel, instruction: Instruction::Bvs, cycles: 2 },
        0x71 => Op { mode: AddressingMode::Idy, instruction: Instruction::Adc, cycles: 5 },
        0x75 => Op { mode: AddressingMode::Zpx, instruction: Instruction::Adc, cycles: 4 },
        0x76 => Op { mode: AddressingMode::Zpx, instruction: Instruction::Ror, cycles: 6 },
        0x78 => Op { mode: AddressingMode::Imp, instruction: Instruction::Sei, cycles: 2 },
        0x79 => Op { mode: AddressingMode::Aby, instruction: Instruction::Adc, cycles: 4 },
        0x7D => Op { mode: AddressingMode::Abx, instruction: Instruction::Adc, cycles: 4 },
        0x7E => Op { mode: AddressingMode::Abx, instruction: Instruction::Ror, cycles: 7 },
        0x81 => Op { mode: AddressingMode::Idx, instruction: Instruction::Sta, cycles: 6 },
        0x84 => Op { mode: AddressingMode::Zp0, instruction: Instruction::Sty, cycles: 3 },
        0x85 => Op { mode: AddressingMode::Zp0, instruction: Instruction::Sta, cycles: 3 },
        0x86 => Op { mode: AddressingMode::Zp0, instruction: Instruction::Stx, cycles: 3 },
        0x88 => Op { mode: AddressingMode::Imp, instruction: Instruction::Dey, cycles: 2 },
        0x8A => Op { mode: AddressingMode::Imp, instruction: Instruction::Txa, cycles: 2 },
        0x8C => Op { mode: AddressingMode::Abs, instruction: Instruction::Sty, cycles: 4 },
        0x8D => Op { mode: AddressingMode::Abs, instruction: Instruction::Sta, cycles: 4 },
        0x8E => Op { mode: AddressingMode::Abs, instruction: Instruction::Stx, cycles: 4 },
        0x90 => Op { mode: AddressingMode::Rel, instruction: Instruction::Bcc, cycles: 2 },
        0x91 => Op { mode: AddressingMode::Idy, instruction: Instruction::Sta, cycles: 6 },
        0x94 => Op { mode: AddressingMode::Zpx, instruction: Instruction::Sty, cycles: 4 },
        0x95 => Op { mode: AddressingMode::Zpx, instruction: Instruction::Sta, cycles: 4 },
        0x96 => Op { mode: AddressingMode::Zpy, instruction: Instruction::Stx, cycles: 4 },
        0x98 => Op { mode: AddressingMode::Imp, instruction: Instruction::Tya, cycles: 2 },
        0x99 => Op { mode: AddressingMode::Aby, instruction: Instruction::Sta, cycles: 5 },
        0x9A => Op { mode: AddressingMode::Imp, instruction: Instruction::Txs, cycles: 2 },
        0x9D => Op { mode: AddressingMode::Abx, instruction: Instruction::Sta, cycles: 5 },
        0xA0 => Op { mode: AddressingMode::Imm, instruction: Instruction::Ldy, cycles: 2 },
        0xA1 => Op { mode: AddressingMode::Idx, instruction: Instruction::Lda, cycles: 6 },
        0xA2 => Op { mode: AddressingMode::Imm, instruction: Instruction::Ldx, cycles: 2 },
        0xA4 => Op { mode: AddressingMode::Zp0, instruction: Instruction::Ldy, cycles: 3 },
        0xA5 => Op { mode: AddressingMode::Zp0, instruction: Instruction::Lda, cycles: 3 },
        0xA6 => Op { mode: AddressingMode::Zp0, instruction: Instruction::Ldx, cycles: 3 },
        0xA8 => Op { mode: AddressingMode::Imp, instruction: Instruction::Tay, cycles: 2 },
        0xA9 => Op { mode: AddressingMode::Imm, instruction: Instruction::Lda, cycles: 2 },
        0xAA => Op { mode: AddressingMode::Imp, instruction: Instruction::Tax, cycles: 2 },
        0xAC => Op { mode: AddressingMode::Abs, instruction: Instruction::Ldy, cycles: 4 },
        0xAD => Op { mode: AddressingMode::Abs, instruction: Instruction::Lda, cycles: 4 },
        0xAE => Op { mode: AddressingMode::Abs, instruction: Instruction::Ldx, cycles: 4 },
        0xB0 => Op { mode: AddressingMode::Rel, instruction: Instruction::Bcs, cycles: 2 },
        0xB1 => Op { mode: AddressingMode::Idy, instruction: Instruction::Lda, cycles: 5 },
        0xB4 => Op { mode: AddressingMode::Zpx, instruction: Instruction::Ldy, cycles: 4 },
        0xB5 => Op { mode: AddressingMode::Zpx, instruction: Instruction::Lda, cycles: 4 },
        0xB6 => Op { mode: AddressingMode::Zpy, instruction: Instruction::Ldx, cycles: 4 },
        0xB8 => Op { mode: AddressingMode::Imp, instruction: Instruction::Clv, cycles: 2 },
        0xB9 => Op { mode: AddressingMode::Aby, instruction: Instruction::Lda, cycles: 4 },
        0xBA => Op { mode: AddressingMode::Imp, instruction: Instruction::Tsx, cycles: 2 },
        0xBC => Op { mode: AddressingMode::Abx, instruction: Instruction::Ldy, cycles: 4 },
        0xBD => Op { mode: AddressingMode::Abx, instruction: Instruction::Lda, cycles: 4 },
        0xBE => Op { mode: AddressingMode::Aby, instruction: Instruction::Ldx, cycles: 4 },
        0xC0 => Op { mode: AddressingMode::Imm, instruction: Instruction::Cpy, cycles: 2 },
        0xC1 => Op { mode: AddressingMode::Idx, instruction: Instruction::Cmp, cycles: 6 },
        0xC4 => Op { mode: AddressingMode::Zp0, instruction: Instruction::Cpy, cycles: 3 },
        0xC5 => Op { mode: AddressingMode::Zp0, instruction: Instruction::Cmp, cycles: 3 },
        0xC6 => Op { mode: AddressingMode::Zp0, instruction: Instruction::Dec, cycles: 5 },
        0xC8 => Op { mode: AddressingMode::Imp, instruction: Instruction::Iny, cycles: 2 },
        0xC9 => Op { mode: AddressingMode::Imm, instruction: Instruction::Cmp, cycles: 2 },
        0xCA => Op { mode: AddressingMode::Imp, instruction: Instruction::Dex, cycles: 2 },
        0xCC => Op { mode: AddressingMode::Abs, instruction: Instruction::Cpy, cycles: 4 },
        0xCD => Op { mode: AddressingMode::Abs, instruction: Instruction::Cmp, cycles: 4 },
        0xCE => Op { mode: AddressingMode::Abs, instruction: Instruction::Dec, cycles: 6 },
        0xD0 => Op { mode: AddressingMode::Rel, instruction: Instruction::Bne, cycles: 2 },
        0xD1 => Op { mode: AddressingMode::Idy, instruction: Instruction::Cmp, cycles: 5 },
        0xD5 => Op { mode: AddressingMode::Zpx, instruction: Instruction::Cmp, cycles: 4 },
        0xD6 => Op { mode: AddressingMode::Zpx, instruction: Instruction::Dec, cycles: 6 },
        0xD8 => Op { mode: AddressingMode::Imp, instruction: Instruction::Cld, cycles: 2 },
        0xD9 => Op { mode: AddressingMode::Aby, instruction: Instruction::Cmp, cycles: 4 },
        0xDD => Op { mode: AddressingMode::Abx, instruction: Instruction::Cmp, cycles: 4 },
        0xDE => Op { mode: AddressingMode::Abx, instruction: Instruction::Dec, cycles: 7 },
        0xE0 => Op { mode: AddressingMode::Imm, instruction: Instruction::Cpx, cycles: 2 },
        0xE1 => Op { mode: AddressingMode::Idx, instruction: Instruction::Sbc, cycles: 6 },
        0xE4 => Op { mode: AddressingMode::Zp0, instruction: Instruction::Cpx, cycles: 3 },
        0xE5 => Op { mode: AddressingMode::Zp0, instruction: Instruction::Sbc, cycles: 3 },
        0xE6 => Op { mode: AddressingMode::Zp0, instruction: Instruction::Inc, cycles: 5 },
        0xE8 => Op { mode: AddressingMode::Imp, instruction: Instruction::Inx, cycles: 2 },
        0xE9 => Op { mode: AddressingMode::Imm, instruction: Instruction::Sbc, cycles: 2 },
        0xEA => Op { mode: AddressingMode::Imp, instruction: Instruction::Nop, cycles: 2 },
        0xEC => Op { mode: AddressingMode::Abs, instruction: Instruction::Cpx, cycles: 4 },
        0xED => Op { mode: AddressingMode::Abs, instruction: Instruction::Sbc, cycles: 4 },
        0xEE => Op { mode: AddressingMode::Abs, instruction: Instruction::Inc, cycles: 6 },
        0xF0 => Op { mode: AddressingMode::Rel, instruction: Instruction::Beq, cycles: 2 },
        0xF1 => Op { mode: AddressingMode::Idy, instruction: Instruction::Sbc, cycles: 5 },
        0xF5 => Op { mode: AddressingMode::Zpx, instruction: Instruction::Sbc, cycles: 4 },
        0xF6 => Op { mode: AddressingMode::Zpx, instruction: Instruction::Inc, cycles: 6 },
        0xF8 => Op { mode: AddressingMode::Imp, instruction: Instruction::Sed, cycles: 2 },
        0xF9 => Op { mode: AddressingMode::Aby, instruction: Instruction::Sbc, cycles: 4 },
        0xFD => Op { mode: AddressingMode::Abx, instruction: Instruction::Sbc, cycles: 4 },
        0xFE => Op { mode: AddressingMode::Abx, instruction: Instruction::Inc, cycles: 7 },
        _ => Op { mode: AddressingMode::Imp, instruction: Instruction::Xep, cycles: 0 },
    }
}

/// Looks an opcode up in the decode table.
pub fn decode(opcode: u8) -> (op: Op)
    ensures
        op == opcode_entry(opcode),
{
    match opcode {
        0x00 => Op { mode: AddressingMode::Imp, instruction: Instruction::Brk, cycles: 7 },
        0x01 => Op { mode: AddressingMode::Idx, instruction: Instruction::Ora, cycles: 6 },
        0x05 => Op { mode: AddressingMode::Zp0, instruction: Instruction::Ora, cycles: 3 },
        0x06 => Op { mode: AddressingMode::Zp0, instruction: Instruction::Asl, cycles: 5 },
        0x08 => Op { mode: AddressingMode::Imp, instruction: Instruction::Php, cycles: 3 },
        0x09 => Op { mode: AddressingMode::Imm, instruction: Instruction::Ora, cycles: 2 },
        0x0A => Op { mode: AddressingMode::Acc, instruction: Instruction::Asl, cycles: 2 },
        0x0D => Op { mode: AddressingMode::Abs, instruction: Instruction::Ora, cycles: 4 },
        0x0E => Op { mode: AddressingMode::Abs, instruction: Instruction::Asl, cycles: 6 },
        0x10 => Op { mode: AddressingMode::Rel, instruction: Instruction::Bpl, cycles: 2 },
        0x11 => Op { mode: AddressingMode::Idy, instruction: Instruction::Ora, cycles: 5 },
        0x15 => Op { mode: AddressingMode::Zpx, instruction: Instruction::Ora, cycles: 4 },
        0x16 => Op { mode: AddressingMode::Zpx, instruction: Instruction::Asl, cycles: 6 },
        0x18 => Op { mode: AddressingMode::Imp, instruction: Instruction::Clc, cycles: 2 },
        0x19 => Op { mode: AddressingMode::Aby, instruction: Instruction::Ora, cycles: 4 },
        0x1D => Op { mode: AddressingMode::Abx, instruction: Instruction::Ora, cycles: 4 },
        0x1E => Op { mode: AddressingMode::Abx, instruction: Instruction::Asl, cycles: 7 },
        0x20 => Op { mode: AddressingMode::Abs, instruction: Instruction::Jsr, cycles: 6 },
        0x21 => Op { mode: AddressingMode::Idx, instruction: Instruction::And, cycles: 6 },
        0x24 => Op { mode: AddressingMode::Zp0, instruction: Instruction::Bit, cycles: 3 },
        0x25 => Op { mode: AddressingMode::Zp0, instruction: Instruction::And, cycles: 3 },
        0x26 => Op { mode: AddressingMode::Zp0, instruction: Instruction::Rol, cycles: 5 },
        0x28 => Op { mode: AddressingMode::Imp, instruction: Instruction::Plp, cycles: 4 },
        0x29 => Op { mode: AddressingMode::Imm, instruction: Instruction::And, cycles: 2 },
        0x2A => Op { mode: AddressingMode::Acc, instruction: Instruction::Rol, cycles: 2 },
        0x2C => Op { mode: AddressingMode::Abs, instruction: Instruction::Bit, cycles: 4 },
        0x2D => Op { mode: AddressingMode::Abs, instruction: Instruction::And, cycles: 4 },
        0x2E => Op { mode: AddressingMode::Abs, instruction: Instruction::Rol, cycles: 6 },
        0x30 => Op { mode: AddressingMode::Rel, instruction: Instruction::Bmi, cycles: 2 },
        0x31 => Op { mode: AddressingMode::Idy, instruction: Instruction::And, cycles: 5 },
        0x35 => Op { mode: AddressingMode::Zpx, instruction: Instruction::And, cycles: 4 },
        0x36 => Op { mode: AddressingMode::Zpx, instruction: Instruction::Rol, cycles: 6 },
        0x38 => Op { mode: AddressingMode::Imp, instruction: Instruction::Sec, cycles: 2 },
        0x39 => Op { mode: AddressingMode::Aby, instruction: Instruction::And, cycles: 4 },
        0x3D => Op { mode: AddressingMode::Abx, instruction: Instruction::And, cycles: 4 },
        0x3E => Op { mode: AddressingMode::Abx, instruction: Instruction::Rol, cycles: 7 },
        0x40 => Op { mode: AddressingMode::Imp, instruction: Instruction::Rti, cycles: 6 },
        0x41 => Op { mode: AddressingMode::Idx, instruction: Instruction::Eor, cycles: 6 },
        0x45 => Op { mode: AddressingMode::Zp0, instruction: Instruction::Eor, cycles: 3 },
        0x46 => Op { mode: AddressingMode::Zp0, instruction: Instruction::Lsr, cycles: 5 },
        0x48 => Op { mode: AddressingMode::Imp, instruction: Instruction::Pha, cycles: 3 },
        0x49 => Op { mode: AddressingMode::Imm, instruction: Instruction::Eor, cycles: 2 },
        0x4A => Op { mode: AddressingMode::Acc, instruction: Instruction::Lsr, cycles: 2 },
        0x4C => Op { mode: AddressingMode::Abs, instruction: Instruction::Jmp, cycles: 3 },
        0x4D => Op { mode: AddressingMode::Abs, instruction: Instruction::Eor, cycles: 4 },
        0x4E => Op { mode: AddressingMode::Abs, instruction: Instruction::Lsr, cycles: 6 },
        0x50 => Op { mode: AddressingMode::Rel, instruction: Instruction::Bvc, cycles: 2 },
        0x51 => Op { mode: AddressingMode::Idy, instruction: Instruction::Eor, cycles: 5 },
        0x55 => Op { mode: AddressingMode::Zpx, instruction: Instruction::Eor, cycles: 4 },
        0x56 => Op { mode: AddressingMode::Zpx, instruction: Instruction::Lsr, cycles: 6 },
        0x58 => Op { mode: AddressingMode::Imp, instruction: Instruction::Cli, cycles: 2 },
        0x59 => Op { mode: AddressingMode::Aby, instruction: Instruction::Eor, cycles: 4 },
        0x5D => Op { mode: AddressingMode::Abx, instruction: Instruction::Eor, cycles: 4 },
        0x5E => Op { mode: AddressingMode::Abx, instruction: Instruction::Lsr, cycles: 7 },
        0x60 => Op { mode: AddressingMode::Imp, instruction: Instruction::Rts, cycles: 6 },
        0x61 => Op { mode: AddressingMode::Idx, instruction: Instruction::Adc, cycles: 6 },
        0x65 => Op { mode: AddressingMode::Zp0, instruction: Instruction::Adc, cycles: 3 },
        0x66 => Op { mode: AddressingMode::Zp0, instruction: Instruction::Ror, cycles: 5 },
        0x68 => Op { mode: AddressingMode::Imp, instruction: Instruction::Pla, cycles: 4 },
        0x69 => Op { mode: AddressingMode::Imm, instruction: Instruction::Adc, cycles: 2 },
        0x6A => Op { mode: AddressingMode::Acc, instruction: Instruction::Ror, cycles: 2 },
        0x6C => Op { mode: AddressingMode::Ind, instruction: Instruction::Jmp, cycles: 5 },
        0x6D => Op { mode: AddressingMode::Abs, instruction: Instruction::Adc, cycles: 4 },
        0x6E => Op { mode: AddressingMode::Abs, instruction: Instruction::Ror, cycles: 6 },
        0x70 => Op { mode: AddressingMode::Rel, instruction: Instruction::Bvs, cycles: 2 },
        0x71 => Op { mode: AddressingMode::Idy, instruction: Instruction::Adc, cycles: 5 },
        0x75 => Op { mode: AddressingMode::Zpx, instruction: Instruction::Adc, cycles: 4 },
        0x76 => Op { mode: AddressingMode::Zpx, instruction: Instruction::Ror, cycles: 6 },
        0x78 => Op { mode: AddressingMode::Imp, instruction: Instruction::Sei, cycles: 2 },
        0x79 => Op { mode: AddressingMode::Aby, instruction: Instruction::Adc, cycles: 4 },
        0x7D => Op { mode: AddressingMode::Abx, instruction: Instruction::Adc, cycles: 4 },
        0x7E => Op { mode: AddressingMode::Abx, instruction: Instruction::Ror, cycles: 7 },
        0x81 => Op { mode: AddressingMode::Idx, instruction: Instruction::Sta, cycles: 6 },
        0x84 => Op { mode: AddressingMode::Zp0, instruction: Instruction::Sty, cycles: 3 },
        0x85 => Op { mode: AddressingMode::Zp0, instruction: Instruction::Sta, cycles: 3 },
        0x86 => Op { mode: AddressingMode::Zp0, instruction: Instruction::Stx, cycles: 3 },
        0x88 => Op { mode: AddressingMode::Imp, instruction: Instruction::Dey, cycles: 2 },
        0x8A => Op { mode: AddressingMode::Imp, instruction: Instruction::Txa, cycles: 2 },
        0x8C => Op { mode: AddressingMode::Abs, instruction: Instruction::Sty, cycles: 4 },
        0x8D => Op { mode: AddressingMode::Abs, instruction: Instruction::Sta, cycles: 4 },
        0x8E => Op { mode: AddressingMode::Abs, instruction: Instruction::Stx, cycles: 4 },
        0x90 => Op { mode: AddressingMode::Rel, instruction: Instruction::Bcc, cycles: 2 },
        0x91 => Op { mode: AddressingMode::Idy, instruction: Instruction::Sta, cycles: 6 },
        0x94 => Op { mode: AddressingMode::Zpx, instruction: Instruction::Sty, cycles: 4 },
        0x95 => Op { mode: AddressingMode::Zpx, instruction: Instruction::Sta, cycles: 4 },
        0x96 => Op { mode: AddressingMode::Zpy, instruction: Instruction::Stx, cycles: 4 },
        0x98 => Op { mode: AddressingMode::Imp, instruction: Instruction::Tya, cycles: 2 },
        0x99 => Op { mode: AddressingMode::Aby, instruction: Instruction::Sta, cycles: 5 },
        0x9A => Op { mode: AddressingMode::Imp, instruction: Instruction::Txs, cycles: 2 },
        0x9D => Op { mode: AddressingMode::Abx, instruction: Instruction::Sta, cycles: 5 },
        0xA0 => Op { mode: AddressingMode::Imm, instruction: Instruction::Ldy, cycles: 2 },
        0xA1 => Op { mode: AddressingMode::Idx, instruction: Instruction::Lda, cycles: 6 },
        0xA2 => Op { mode: AddressingMode::Imm, instruction: Instruction::Ldx, cycles: 2 },
        0xA4 => Op { mode: AddressingMode::Zp0, instruction: Instruction::Ldy, cycles: 3 },
        0xA5 => Op { mode: AddressingMode::Zp0, instruction: Instruction::Lda, cycles: 3 },
        0xA6 => Op { mode: AddressingMode::Zp0, instruction: Instruction::Ldx, cycles: 3 },
        0xA8 => Op { mode: AddressingMode::Imp, instruction: Instruction::Tay, cycles: 2 },
        0xA9 => Op { mode: AddressingMode::Imm, instruction: Instruction::Lda, cycles: 2 },
        0xAA => Op { mode: AddressingMode::Imp, instruction: Instruction::Tax, cycles: 2 },
        0xAC => Op { mode: AddressingMode::Abs, instruction: Instruction::Ldy, cycles: 4 },
        0xAD => Op { mode: AddressingMode::Abs, instruction: Instruction::Lda, cycles: 4 },
        0xAE => Op { mode: AddressingMode::Abs, instruction: Instruction::Ldx, cycles: 4 },
        0xB0 => Op { mode: AddressingMode::Rel, instruction: Instruction::Bcs, cycles: 2 },
        0xB1 => Op { mode: AddressingMode::Idy, instruction: Instruction::Lda, cycles: 5 },
        0xB4 => Op { mode: AddressingMode::Zpx, instruction: Instruction::Ldy, cycles: 4 },
        0xB5 => Op { mode: AddressingMode::Zpx, instruction: Instruction::Lda, cycles: 4 },
        0xB6 => Op { mode: AddressingMode::Zpy, instruction: Instruction::Ldx, cycles: 4 },
        0xB8 => Op { mode: AddressingMode::Imp, instruction: Instruction::Clv, cycles: 2 },
        0xB9 => Op { mode: AddressingMode::Aby, instruction: Instruction::Lda, cycles: 4 },
        0xBA => Op { mode: AddressingMode::Imp, instruction: Instruction::Tsx, cycles: 2 },
        0xBC => Op { mode: AddressingMode::Abx, instruction: Instruction::Ldy, cycles: 4 },
        0xBD => Op { mode: AddressingMode::Abx, instruction: Instruction::Lda, cycles: 4 },
        0xBE => Op { mode: AddressingMode::Aby, instruction: Instruction::Ldx, cycles: 4 },
        0xC0 => Op { mode: AddressingMode::Imm, instruction: Instruction::Cpy, cycles: 2 },
        0xC1 => Op { mode: AddressingMode::Idx, instruction: Instruction::Cmp, cycles: 6 },
        0xC4 => Op { mode: AddressingMode::Zp0, instruction: Instruction::Cpy, cycles: 3 },
        0xC5 => Op { mode: AddressingMode::Zp0, instruction: Instruction::Cmp, cycles: 3 },
        0xC6 => Op { mode: AddressingMode::Zp0, instruction: Instruction::Dec, cycles: 5 },
        0xC8 => Op { mode: AddressingMode::Imp, instruction: Instruction::Iny, cycles: 2 },
        0xC9 => Op { mode: AddressingMode::Imm, instruction: Instruction::Cmp, cycles: 2 },
        0xCA => Op { mode: AddressingMode::Imp, instruction: Instruction::Dex, cycles: 2 },
        0xCC => Op { mode: AddressingMode::Abs, instruction: Instruction::Cpy, cycles: 4 },
        0xCD => Op { mode: AddressingMode::Abs, instruction: Instruction::Cmp, cycles: 4 },
        0xCE => Op { mode: AddressingMode::Abs, instruction: Instruction::Dec, cycles: 6 },
        0xD0 => Op { mode: AddressingMode::Rel, instruction: Instruction::Bne, cycles: 2 },
        0xD1 => Op { mode: AddressingMode::Idy, instruction: Instruction::Cmp, cycles: 5 },
        0xD5 => Op { mode: AddressingMode::Zpx, instruction: Instruction::Cmp, cycles: 4 },
        0xD6 => Op { mode: AddressingMode::Zpx, instruction: Instruction::Dec, cycles: 6 },
        0xD8 => Op { mode: AddressingMode::Imp, instruction: Instruction::Cld, cycles: 2 },
        0xD9 => Op { mode: AddressingMode::Aby, instruction: Instruction::Cmp, cycles: 4 },
        0xDD => Op { mode: AddressingMode::Abx, instruction: Instruction::Cmp, cycles: 4 },
        0xDE => Op { mode: AddressingMode::Abx, instruction: Instruction::Dec, cycles: 7 },
        0xE0 => Op { mode: AddressingMode::Imm, instruction: Instruction::Cpx, cycles: 2 },
        0xE1 => Op { mode: AddressingMode::Idx, instruction: Instruction::Sbc, cycles: 6 },
        0xE4 => Op { mode: AddressingMode::Zp0, instruction: Instruction::Cpx, cycles: 3 },
        0xE5 => Op { mode: AddressingMode::Zp0, instruction: Instruction::Sbc, cycles: 3 },
        0xE6 => Op { mode: AddressingMode::Zp0, instruction: Instruction::Inc, cycles: 5 },
        0xE8 => Op { mode: AddressingMode::Imp, instruction: Instruction::Inx, cycles: 2 },
        0xE9 => Op { mode: AddressingMode::Imm, instruction: Instruction::Sbc, cycles: 2 },
        0xEA => Op { mode: AddressingMode::Imp, instruction: Instruction::Nop, cycles: 2 },
        0xEC => Op { mode: AddressingMode::Abs, instruction: Instruction::Cpx, cycles: 4 },
        0xED => Op { mode: AddressingMode::Abs, instruction: Instruction::Sbc, cycles: 4 },
        0xEE => Op { mode: AddressingMode::Abs, instruction: Instruction::Inc, cycles: 6 },
        0xF0 => Op { mode: AddressingMode::Rel, instruction: Instruction::Beq, cycles: 2 },
        0xF1 => Op { mode: AddressingMode::Idy, instruction: Instruction::Sbc, cycles: 5 },
        0xF5 => Op { mode: AddressingMode::Zpx, instruction: Instruction::Sbc, cycles: 4 },
        0xF6 => Op { mode: AddressingMode::Zpx, instruction: Instruction::Inc, cycles: 6 },
        0xF8 => Op { mode: AddressingMode::Imp, instruction: Instruction::Sed, cycles: 2 },
        0xF9 => Op { mode: AddressingMode::Aby, instruction: Instruction::Sbc, cycles: 4 },
        0xFD => Op { mode: AddressingMode::Abx, instruction: Instruction::Sbc, cycles: 4 },
        0xFE => Op { mode: AddressingMode::Abx, instruction: Instruction::Inc, cycles: 7 },
        _ => Op { mode: AddressingMode::Imp, instruction: Instruction::Xep, cycles: 0 },
    }
}

/// The instructions whose timing takes a page crossing: one more cycle when
/// the indexed address leaves the base's page.
pub open spec fn page_cross_sensitive(i: Instruction) -> bool {
    i == Instruction::Adc || i == Instruction::And || i == Instruction::Cmp || i == Instruction::Eor
        || i == Instruction::Lda || i == Instruction::Ldx || i == Instruction::Ldy || i
        == Instruction::Ora || i == Instruction::Sbc
}

/// The branches, which add one cycle when taken and one more across a page.
pub open spec fn is_branch(i: Instruction) -> bool {
    i == Instruction::Bcc || i == Instruction::Bcs || i == Instruction::Beq || i == Instruction::Bmi
        || i == Instruction::Bne || i == Instruction::Bpl || i == Instruction::Bvc || i
        == Instruction::Bvs
}

pub fn page_cross_sensitive_exec(i: Instruction) -> (r: bool)
    ensures
        r == page_cross_sensitive(i),
{
    match i {
        Instruction::Adc | Instruction::And | Instruction::Cmp | Instruction::Eor | Instruction::Lda
        | Instruction::Ldx | Instruction::Ldy | Instruction::Ora | Instruction::Sbc => true,
        _ => false,
    }
}

pub fn is_branch_exec(i: Instruction) -> (r: bool)
    ensures
        r == is_branch(i),
{
    match i {
        Instruction::Bcc | Instruction::Bcs | Instruction::Beq | Instruction::Bmi | Instruction::Bne
        | Instruction::Bpl | Instruction::Bvc | Instruction::Bvs => true,
        _ => false,
    }
}

/// Every documented opcode takes 2 to 7 base cycles.
pub proof fn lemma_legal_cycles(opcode: u8)
    ensures
        opcode_entry(opcode).instruction != Instruction::Xep ==> 2 <= opcode_entry(opcode).cycles
            <= 7,
{
}

} // verus!
