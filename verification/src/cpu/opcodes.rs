//! The instruction decoder: for each of the 256 opcode bytes, its
//! addressing mode, its encoded length, and its base cycle count.
//! Unknown opcodes decode as a one-byte NOP costing two cycles.

use vstd::prelude::*;

use crate::cpu::instructions::AddressMode;
use crate::cpu::CPU;

verus! {

/// The addressing mode each opcode byte uses.
pub open spec fn opcode_mode(op: u8) -> AddressMode {
    match op {
        0x69 | 0xE9 | 0x29 | 0x49 | 0x09 | 0xA9 | 0xA2 | 0xA0 | 0xC9 | 0xE0
            | 0xC0 => AddressMode::Immediate,
        0x65 | 0xE5 | 0x25 | 0x45 | 0x05 | 0xA5 | 0xA6 | 0xA4 | 0xC5 | 0xE4 | 0xC4 | 0x06
            | 0x46 | 0x26 | 0x66 | 0x24 | 0xC6 | 0xE6 | 0x85 | 0x86
            | 0x84 => AddressMode::ZeroPage,
        0x75 | 0xF5 | 0x35 | 0x55 | 0x15 | 0xB5 | 0xB4 | 0xD5 | 0x16 | 0x56 | 0x36 | 0x76
            | 0xD6 | 0xF6 | 0x95 | 0x94 => AddressMode::ZeroPageX,
        0xB6 | 0x96 => AddressMode::ZeroPageY,
        0x6D | 0xED | 0x2D | 0x4D | 0x0D | 0xAD | 0xAE | 0xAC | 0xCD | 0xEC | 0xCC | 0x0E
            | 0x4E | 0x2E | 0x6E | 0x2C | 0xCE | 0xEE | 0x8D | 0x8E | 0x8C | 0x4C
            | 0x20 => AddressMode::Absolute,
        0x7D | 0xFD | 0x3D | 0x5D | 0x1D | 0xBD | 0xBC | 0xDD | 0x1E | 0x5E | 0x3E | 0x7E
            | 0xDE | 0xFE | 0x9D => AddressMode::AbsoluteX,
        0x79 | 0xF9 | 0x39 | 0x59 | 0x19 | 0xB9 | 0xBE | 0xD9 | 0x99 => AddressMode::AbsoluteY,
        0x6C => AddressMode::Indirect,
        0x61 | 0xE1 | 0x21 | 0x41 | 0x01 | 0xA1 | 0xC1 | 0x81 => AddressMode::IndirectX,
        0x71 | 0xF1 | 0x31 | 0x51 | 0x11 | 0xB1 | 0xD1 | 0x91 => AddressMode::IndirectY,
        0x0A | 0x4A | 0x2A | 0x6A => AddressMode::Accumulator,
        0x10 | 0x30 | 0x50 | 0x70 | 0x90 | 0xB0 | 0xD0 | 0xF0 => AddressMode::Relative,
        _ => AddressMode::Implied,
    }
}

/// Bytes an addressing mode adds beyond the opcode byte itself.
pub open spec fn mode_len(mode: AddressMode) -> u8 {
    match mode {
        AddressMode::Implied | AddressMode::Accumulator => 1,
        AddressMode::Immediate | AddressMode::ZeroPage | AddressMode::ZeroPageX
            | AddressMode::ZeroPageY | AddressMode::IndirectX | AddressMode::IndirectY
            | AddressMode::Relative => 2,
        AddressMode::Absolute | AddressMode::AbsoluteX | AddressMode::AbsoluteY
            | AddressMode::Indirect => 3,
    }
}

/// The encoded length of the instruction starting with `op`.
pub open spec fn opcode_len(op: u8) -> u8 {
    mode_len(opcode_mode(op))
}

/// The opcodes that may set PC themselves: jumps, subroutine calls and
/// returns, the software interrupt, and the branches.
pub open spec fn is_control(op: u8) -> bool {
    match op {
        0x00 | 0x4C | 0x6C | 0x20 | 0x40 | 0x60 | 0x10 | 0x30 | 0x50 | 0x70 | 0x90 | 0xB0
            | 0xD0 | 0xF0 => true,
        _ => false,
    }
}

/// The eight conditional branches.
pub open spec fn is_branch(op: u8) -> bool {
    match op {
        0x10 | 0x30 | 0x50 | 0x70 | 0x90 | 0xB0 | 0xD0 | 0xF0 => true,
        _ => false,
    }
}

/// The ADC and SBC opcodes.
pub open spec fn is_add_sub_op(op: u8) -> bool {
    match op {
        0x69 | 0x65 | 0x75 | 0x6D | 0x7D | 0x79 | 0x61 | 0x71 | 0xE9 | 0xE5 | 0xF5 | 0xED
            | 0xFD | 0xF9 | 0xE1 | 0xF1
            => true,
        _ => false,
    }
}

/// The AND/EOR/ORA and compare opcodes.
pub open spec fn is_logic_compare_op(op: u8) -> bool {
    match op {
        0x29 | 0x25 | 0x35 | 0x2D | 0x3D | 0x39 | 0x21 | 0x31 | 0x49 | 0x45 | 0x55 | 0x4D
            | 0x5D | 0x59 | 0x41 | 0x51 | 0x09 | 0x05 | 0x15 | 0x0D | 0x1D | 0x19 | 0x01
            | 0x11 | 0xC9 | 0xC5 | 0xD5 | 0xCD | 0xDD | 0xD9 | 0xC1 | 0xD1 | 0xE0 | 0xE4
            | 0xEC | 0xC0 | 0xC4 | 0xCC
            => true,
        _ => false,
    }
}

/// The shift, rotate, memory INC/DEC and BIT opcodes.
pub open spec fn is_shift_inc_op(op: u8) -> bool {
    match op {
        0x0A | 0x06 | 0x16 | 0x0E | 0x1E | 0x4A | 0x46 | 0x56 | 0x4E | 0x5E | 0x2A | 0x26
            | 0x36 | 0x2E | 0x3E | 0x6A | 0x66 | 0x76 | 0x6E | 0x7E | 0xE6 | 0xF6 | 0xEE
            | 0xFE | 0xC6 | 0xD6 | 0xCE | 0xDE | 0x24 | 0x2C
            => true,
        _ => false,
    }
}

/// The load and store opcodes.
pub open spec fn is_load_store_op(op: u8) -> bool {
    match op {
        0xA9 | 0xA5 | 0xB5 | 0xAD | 0xBD | 0xB9 | 0xA1 | 0xB1 | 0xA2 | 0xA6 | 0xB6 | 0xAE
            | 0xBE | 0xA0 | 0xA4 | 0xB4 | 0xAC | 0xBC | 0x85 | 0x95 | 0x8D | 0x9D | 0x99
            | 0x81 | 0x91 | 0x86 | 0x96 | 0x8E | 0x84 | 0x94 | 0x8C
            => true,
        _ => false,
    }
}

/// The addressing mode of `op`, as executable code.
pub fn instruction_mode(op: u8) -> (r: AddressMode)
    ensures
        r == opcode_mode(op),
{
    match op {
        0x69 | 0xE9 | 0x29 | 0x49 | 0x09 | 0xA9 | 0xA2 | 0xA0 | 0xC9 | 0xE0
            | 0xC0 => AddressMode::Immediate,
        0x65 | 0xE5 | 0x25 | 0x45 | 0x05 | 0xA5 | 0xA6 | 0xA4 | 0xC5 | 0xE4 | 0xC4 | 0x06
            | 0x46 | 0x26 | 0x66 | 0x24 | 0xC6 | 0xE6 | 0x85 | 0x86
            | 0x84 => AddressMode::ZeroPage,
        0x75 | 0xF5 | 0x35 | 0x55 | 0x15 | 0xB5 | 0xB4 | 0xD5 | 0x16 | 0x56 | 0x36 | 0x76
            | 0xD6 | 0xF6 | 0x95 | 0x94 => AddressMode::ZeroPageX,
        0xB6 | 0x96 => AddressMode::ZeroPageY,
        0x6D | 0xED | 0x2D | 0x4D | 0x0D | 0xAD | 0xAE | 0xAC | 0xCD | 0xEC | 0xCC | 0x0E
            | 0x4E | 0x2E | 0x6E | 0x2C | 0xCE | 0xEE | 0x8D | 0x8E | 0x8C | 0x4C
            | 0x20 => AddressMode::Absolute,
        0x7D | 0xFD | 0x3D | 0x5D | 0x1D | 0xBD | 0xBC | 0xDD | 0x1E | 0x5E | 0x3E | 0x7E
            | 0xDE | 0xFE | 0x9D => AddressMode::AbsoluteX,
        0x79 | 0xF9 | 0x39 | 0x59 | 0x19 | 0xB9 | 0xBE | 0xD9 | 0x99 => AddressMode::AbsoluteY,
        0x6C => AddressMode::Indirect,
        0x61 | 0xE1 | 0x21 | 0x41 | 0x01 | 0xA1 | 0xC1 | 0x81 => AddressMode::IndirectX,
        0x71 | 0xF1 | 0x31 | 0x51 | 0x11 | 0xB1 | 0xD1 | 0x91 => AddressMode::IndirectY,
        0x0A | 0x4A | 0x2A | 0x6A => AddressMode::Accumulator,
        0x10 | 0x30 | 0x50 | 0x70 | 0x90 | 0xB0 | 0xD0 | 0xF0 => AddressMode::Relative,
        _ => AddressMode::Implied,
    }
}

/// The encoded length of the instruction starting with `op`, as
/// executable code.
pub fn instruction_len(op: u8) -> (r: u8)
    ensures
        r == opcode_len(op),
        1 <= r <= 3,
{
    match instruction_mode(op) {
        AddressMode::Implied | AddressMode::Accumulator => 1,
        AddressMode::Immediate | AddressMode::ZeroPage | AddressMode::ZeroPageX
            | AddressMode::ZeroPageY | AddressMode::IndirectX | AddressMode::IndirectY
            | AddressMode::Relative => 2,
        AddressMode::Absolute | AddressMode::AbsoluteX | AddressMode::AbsoluteY
            | AddressMode::Indirect => 3,
    }
}

/// Base cycle counts per opcode; page crossings and taken branches add
/// their extra cycles at execution time.
pub open spec fn opcode_cycles(op: u8) -> u16 {
    match op {
        0x00 => 7,
        0x01 | 0x21 | 0x41 | 0x61 | 0xA1 | 0xC1 | 0xE1 | 0x81 => 6,
        0x05 | 0x25 | 0x45 | 0x65 | 0xA5 | 0xC5 | 0xE5 | 0x24 | 0xA4 | 0xC4 | 0xE4 | 0x85
            | 0x86 | 0x84 | 0xA6 => 3,
        0x06 | 0x26 | 0x46 | 0x66 | 0xC6 | 0xE6 => 5,
        0x08 => 3,
        0x0D | 0x2D | 0x4D | 0x6D | 0xAD | 0xCD | 0xED | 0x2C | 0xAC | 0xAE | 0xCC | 0xEC
            | 0x8D | 0x8E | 0x8C => 4,
        0x0E | 0x2E | 0x4E | 0x6E | 0xCE | 0xEE => 6,
        0x11 | 0x31 | 0x51 | 0x71 | 0xB1 | 0xD1 | 0xF1 => 5,
        0x15 | 0x35 | 0x55 | 0x75 | 0xB5 | 0xD5 | 0xF5 | 0x94 | 0x95 | 0xB4 | 0x96
            | 0xB6 => 4,
        0x16 | 0x36 | 0x56 | 0x76 | 0xD6 | 0xF6 => 6,
        0x19 | 0x39 | 0x59 | 0x79 | 0xB9 | 0xD9 | 0xF9 | 0x1D | 0x3D | 0x5D | 0x7D | 0xBD
            | 0xBC | 0xBE | 0xDD | 0xFD => 4,
        0x1E | 0x3E | 0x5E | 0x7E | 0xDE | 0xFE => 7,
        0x20 => 6,
        0x28 => 4,
        0x2A | 0x0A | 0x4A | 0x6A => 2,
        0x40 | 0x60 => 6,
        0x48 => 3,
        0x4C => 3,
        0x68 => 4,
        0x6C => 5,
        0x91 => 6,
        0x99 | 0x9D => 5,
        _ => 2,
    }
}

impl CPU {
    /// Look up an opcode's base cycle count.
    pub fn get_cycle_count(&self, opcode: u8) -> (r: u16)
        ensures
            r == opcode_cycles(opcode),
            2 <= r <= 7,
    {
        match opcode {
            0x00 => 7,
            0x01 | 0x21 | 0x41 | 0x61 | 0xA1 | 0xC1 | 0xE1 | 0x81 => 6,
            0x05 | 0x25 | 0x45 | 0x65 | 0xA5 | 0xC5 | 0xE5 | 0x24 | 0xA4 | 0xC4 | 0xE4 | 0x85
                | 0x86 | 0x84 | 0xA6 => 3,
            0x06 | 0x26 | 0x46 | 0x66 | 0xC6 | 0xE6 => 5,
            0x08 => 3,
            0x0D | 0x2D | 0x4D | 0x6D | 0xAD | 0xCD | 0xED | 0x2C | 0xAC | 0xAE | 0xCC | 0xEC
                | 0x8D | 0x8E | 0x8C => 4,
            0x0E | 0x2E | 0x4E | 0x6E | 0xCE | 0xEE => 6,
            0x11 | 0x31 | 0x51 | 0x71 | 0xB1 | 0xD1 | 0xF1 => 5,
            0x15 | 0x35 | 0x55 | 0x75 | 0xB5 | 0xD5 | 0xF5 | 0x94 | 0x95 | 0xB4 | 0x96
                | 0xB6 => 4,
            0x16 | 0x36 | 0x56 | 0x76 | 0xD6 | 0xF6 => 6,
            0x19 | 0x39 | 0x59 | 0x79 | 0xB9 | 0xD9 | 0xF9 | 0x1D | 0x3D | 0x5D | 0x7D | 0xBD
                | 0xBC | 0xBE | 0xDD | 0xFD => 4,
            0x1E | 0x3E | 0x5E | 0x7E | 0xDE | 0xFE => 7,
            0x20 => 6,
            0x28 => 4,
            0x2A | 0x0A | 0x4A | 0x6A => 2,
            0x40 | 0x60 => 6,
            0x48 => 3,
            0x4C => 3,
            0x68 => 4,
            0x6C => 5,
            0x91 => 6,
            0x99 | 0x9D => 5,
            _ => 2,
        }
    }
}

} // verus!
