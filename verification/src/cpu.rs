//! The 6502-family CPU core: the register file, the stack, interrupt
//! servicing, and the fetch-decode-execute step.

pub mod instructions;
pub mod opcodes;

use vstd::prelude::*;

use crate::bus::Bus;
use crate::bus::MemoryBus;
use crate::cpu::instructions::AddressMode;
use crate::ppu::registers::Registers;
use crate::ppu::PPU;
use crate::ppu::status::apply_mask;

verus! {

pub const FLAG_CARRY: u8 = 0x01;
pub const FLAG_ZERO: u8 = 0x02;
pub const FLAG_INTERRUPT: u8 = 0x04;
pub const FLAG_DECIMAL: u8 = 0x08;
pub const FLAG_BREAK: u8 = 0x10;
pub const FLAG_UNUSED: u8 = 0x20;
pub const FLAG_OVERFLOW: u8 = 0x40;
pub const FLAG_NEGATIVE: u8 = 0x80;

/// The status byte a reset leaves: InterruptDisable and the always-on
/// unused bit.
pub const STATUS_RESET: u8 = 0x24;

/// The stack lives in page 1: physical address `0x0100 + SP`.
pub const STACK_BASE: u16 = 0x0100;

/// The causes of a vectored interrupt.
#[derive(Clone, Copy, Debug, PartialEq, Eq, Structural)]
pub enum InterruptType {
    NMI,
    BRK,
}

/// The Zero and Negative flags an 8-bit result leaves.
pub open spec fn zn_flags(status: u8, value: u8) -> u8 {
    apply_mask(apply_mask(status, FLAG_ZERO, value == 0), FLAG_NEGATIVE, value & 0x80 != 0)
}

pub struct CPU {
    pub a: u8,
    pub x: u8,
    pub y: u8,
    pub pc: u16,
    pub sp: u8,
    pub status: u8,
    pub bus: Bus,
}

impl CPU {
    pub open spec fn wf(self) -> bool {
        self.bus.wf()
    }

    pub open spec fn flag(self, mask: u8) -> bool {
        self.status & mask != 0
    }

    /// The byte a read at `addr` would return now.
    pub open spec fn mem_value(self, addr: u16) -> u8 {
        self.bus.mem.read_value(addr)
    }

    /// The state a read at `addr` leaves behind.
    pub open spec fn after_read(self, addr: u16) -> CPU {
        CPU { bus: Bus { mem: self.bus.mem.read_post(addr), ..self.bus }, ..self }
    }

    /// The little-endian word a read at `addr` would return now.
    pub open spec fn word_value(self, addr: u16) -> u16 {
        self.bus.mem.read_word_value(addr)
    }

    /// The state a word read at `addr` leaves behind.
    pub open spec fn after_read_word(self, addr: u16) -> CPU {
        CPU { bus: Bus { mem: self.bus.mem.read_word_post(addr), ..self.bus }, ..self }
    }

    /// The state after the bus clock advances by `c` CPU cycles.
    pub open spec fn after_tick(self, c: u8) -> CPU {
        CPU {
            bus: Bus {
                mem: MemoryBus {
                    ppu: self.bus.mem.ppu.advanced(3 * c as nat),
                    ..self.bus.mem
                },
                cycles: self.bus.cycles.wrapping_add(c as u64),
            },
            ..self
        }
    }

    /// The byte the next pop would return.
    pub open spec fn pop_value(self) -> u8 {
        self.bus.mem.cpu_ram@[STACK_BASE + self.sp.wrapping_add(1)]
    }

    /// The state after a pop: only the stack pointer moves.
    pub open spec fn popped(self) -> CPU {
        CPU { sp: self.sp.wrapping_add(1), ..self }
    }

    /// What a push does: the byte lands at `0x0100 + SP`, the stack
    /// pointer steps down modulo 256, and nothing else changes.
    pub open spec fn push_claim(self, post: CPU, value: u8) -> bool {
        &&& post.bus.mem.cpu_ram@ == self.bus.mem.cpu_ram@.update(
            STACK_BASE + self.sp,
            value,
        )
        &&& post == (CPU {
            sp: self.sp.wrapping_sub(1),
            bus: Bus {
                mem: MemoryBus { cpu_ram: post.bus.mem.cpu_ram, ..self.bus.mem },
                ..self.bus
            },
            ..self
        })
    }

    /// What pushing a 16-bit word does: high byte first, then low, so
    /// the low byte sits on top.
    pub open spec fn push_word_claim(self, post: CPU, value: u16) -> bool {
        &&& post.bus.mem.cpu_ram@ == self.bus.mem.cpu_ram@.update(
            STACK_BASE + self.sp,
            (value / 256) as u8,
        ).update(STACK_BASE + self.sp.wrapping_sub(1), (value % 256) as u8)
        &&& post == (CPU {
            sp: self.sp.wrapping_sub(2),
            bus: Bus {
                mem: MemoryBus { cpu_ram: post.bus.mem.cpu_ram, ..self.bus.mem },
                ..self.bus
            },
            ..self
        })
    }

    pub fn new(bus: Bus) -> (r: CPU)
        ensures
            r.a == 0,
            r.x == 0,
            r.y == 0,
            r.pc == 0,
            r.sp == 0xFD,
            r.status == STATUS_RESET,
            r.bus == bus,
    {
        CPU { a: 0, x: 0, y: 0, pc: 0, sp: 0xFD, status: STATUS_RESET, bus }
    }

    /// Reset: registers cleared, SP at `0xFD`, InterruptDisable set, PC
    /// loaded from the reset vector at `0xFFFC`/`0xFFFD`.
    pub fn reset(&mut self)
        requires
            old(self).wf(),
        ensures
            final(self).wf(),
            final(self).a == 0,
            final(self).x == 0,
            final(self).y == 0,
            final(self).sp == 0xFD,
            final(self).status == STATUS_RESET,
            final(self).pc == old(self).bus.mem.read_word_value(0xFFFC),
            final(self).bus.mem == old(self).bus.mem,
            final(self).bus.cycles == old(self).bus.cycles,
    {
        self.a = 0;
        self.x = 0;
        self.y = 0;
        self.sp = 0xFD;
        self.status = STATUS_RESET;
        self.pc = self.read_reset_vector();
    }

    fn read_reset_vector(&mut self) -> (r: u16)
        requires
            old(self).wf(),
        ensures
            final(self).wf(),
            r == old(self).bus.mem.read_word_value(0xFFFC),
            *final(self) == *old(self),
    {
        self.bus.read_word(0xFFFC)
    }

    /// Push one byte onto the page-1 stack.
    pub fn push(&mut self, value: u8)
        requires
            old(self).wf(),
        ensures
            final(self).wf(),
            old(self).push_claim(*final(self), value),
    {
        self.bus.mem_write(STACK_BASE + self.sp as u16, value);
        self.sp = self.sp.wrapping_sub(1);
    }

    /// Pop one byte off the page-1 stack.
    pub fn pop(&mut self) -> (r: u8)
        requires
            old(self).wf(),
        ensures
            final(self).wf(),
            r == old(self).pop_value(),
            *final(self) == old(self).popped(),
    {
        self.sp = self.sp.wrapping_add(1);
        self.bus.mem_read(STACK_BASE + self.sp as u16)
    }

    /// Push the status byte as PHP and BRK do: with the Break and
    /// unused bits forced on.
    pub fn push_status(&mut self)
        requires
            old(self).wf(),
        ensures
            final(self).wf(),
            old(self).push_claim(*final(self), old(self).status | (FLAG_BREAK | FLAG_UNUSED)),
    {
        let status = self.status | (FLAG_BREAK | FLAG_UNUSED);
        self.push(status);
    }

    /// Push a 16-bit word: high byte, then low.
    pub fn push_word(&mut self, value: u16)
        requires
            old(self).wf(),
        ensures
            final(self).wf(),
            old(self).push_word_claim(*final(self), value),
    {
        self.push((value / 256) as u8);
        self.push((value % 256) as u8);
    }

    /// Read the byte at PC and advance PC past it.
    pub fn fetch_byte(&mut self) -> (r: u8)
        requires
            old(self).wf(),
        ensures
            final(self).wf(),
            r == old(self).mem_value(old(self).pc),
            *final(self) == (CPU {
                pc: old(self).pc.wrapping_add(1),
                ..old(self).after_read(old(self).pc)
            }),
    {
        let byte = self.bus.mem_read(self.pc);
        self.pc = self.pc.wrapping_add(1);
        byte
    }

    /// Read the byte at `addr` without touching PC.
    pub fn read_byte(&mut self, addr: u16) -> (r: u8)
        requires
            old(self).wf(),
        ensures
            final(self).wf(),
            r == old(self).mem_value(addr),
            *final(self) == old(self).after_read(addr),
    {
        self.bus.mem_read(addr)
    }

    /// Read the little-endian word at `addr`.
    pub fn read_word(&mut self, addr: u16) -> (r: u16)
        requires
            old(self).wf(),
        ensures
            final(self).wf(),
            r == old(self).word_value(addr),
            *final(self) == old(self).after_read_word(addr),
    {
        self.bus.read_word(addr)
    }

    /// Read the word at PC and advance PC past it.
    pub fn fetch_word(&mut self) -> (r: u16)
        requires
            old(self).wf(),
        ensures
            final(self).wf(),
            r == old(self).word_value(old(self).pc),
            *final(self) == (CPU {
                pc: old(self).pc.wrapping_add(2),
                ..old(self).after_read_word(old(self).pc)
            }),
    {
        let lo = self.fetch_byte() as u16;
        let hi = self.fetch_byte() as u16;
        hi * 256 + lo
    }

    /// The vector an interrupt loads PC from.
    pub open spec fn vector_of(itype: InterruptType) -> u16 {
        match itype {
            InterruptType::NMI => 0xFFFA,
            InterruptType::BRK => 0xFFFE,
        }
    }

    /// The status byte an interrupt pushes: the unused bit always on,
    /// Break only for BRK.
    pub open spec fn pushed_status_of(self, itype: InterruptType) -> u8 {
        match itype {
            InterruptType::NMI => (self.status & !FLAG_BREAK) | FLAG_UNUSED,
            InterruptType::BRK => self.status | (FLAG_BREAK | FLAG_UNUSED),
        }
    }

    /// How servicing an interrupt relates the new state to the old:
    /// PC is pushed high byte then low, then a status copy (Break clear
    /// for an NMI, set for BRK, the unused bit always on);
    /// InterruptDisable is set; PC holds the little-endian word at the
    /// vector; nothing else moves.
    pub open spec fn interrupt_claim(self, post: CPU, itype: InterruptType) -> bool {
        &&& post.pc == (self.bus.mem.prg_byte((Self::vector_of(itype) + 1) as u16) * 256
            + self.bus.mem.prg_byte(Self::vector_of(itype))) as u16
        &&& post.status == (self.status | FLAG_INTERRUPT)
        &&& post.sp == self.sp.wrapping_sub(3)
        &&& post.a == self.a
        &&& post.x == self.x
        &&& post.y == self.y
        &&& post.bus.mem.cpu_ram@ == self.bus.mem.cpu_ram@.update(
            STACK_BASE + self.sp,
            (self.pc / 256) as u8,
        ).update(STACK_BASE + self.sp.wrapping_sub(1), (self.pc % 256) as u8).update(
            STACK_BASE + self.sp.wrapping_sub(2),
            self.pushed_status_of(itype),
        )
        &&& post.bus.mem.ppu == self.bus.mem.ppu
        &&& post.bus.mem.prg_rom == self.bus.mem.prg_rom
        &&& post.bus.cycles == self.bus.cycles
    }

    /// Service an interrupt: push PC and the status byte, set
    /// InterruptDisable, and load PC from the vector.  Afterwards the
    /// InterruptDisable flag is set and PC equals the little-endian word
    /// at the vector.
    pub fn interrupt(&mut self, itype: InterruptType)
        requires
            old(self).wf(),
        ensures
            final(self).wf(),
            final(self).flag(FLAG_INTERRUPT),
            old(self).interrupt_claim(*final(self), itype),
    {
        self.push_word(self.pc);
        let pushed = match itype {
            InterruptType::NMI => (self.status & !FLAG_BREAK) | FLAG_UNUSED,
            InterruptType::BRK => self.status | (FLAG_BREAK | FLAG_UNUSED),
        };
        self.push(pushed);
        self.status = self.status | FLAG_INTERRUPT;
        let vector = match itype {
            InterruptType::NMI => 0xFFFA,
            InterruptType::BRK => 0xFFFE,
        };
        self.pc = self.bus.read_word(vector);
        proof {
            lemma_status_interrupt_bit();
        }
    }

    /// Service the PPU's non-maskable interrupt: the old PC is pushed
    /// high byte then low, then a status copy with Break clear and the
    /// unused bit set; InterruptDisable is set and PC holds the
    /// little-endian word at `0xFFFA`/`0xFFFB`.
    pub fn nmi(&mut self)
        requires
            old(self).wf(),
        ensures
            final(self).wf(),
            final(self).flag(FLAG_INTERRUPT),
            old(self).interrupt_claim(*final(self), InterruptType::NMI),
            final(self).pc == (old(self).bus.mem.prg_byte(0xFFFB) * 256
                + old(self).bus.mem.prg_byte(0xFFFA)) as u16,
            final(self).bus.mem.cpu_ram@ == old(self).bus.mem.cpu_ram@.update(
                STACK_BASE + old(self).sp,
                (old(self).pc / 256) as u8,
            ).update(STACK_BASE + old(self).sp.wrapping_sub(1), (old(self).pc % 256) as u8).update(
                STACK_BASE + old(self).sp.wrapping_sub(2),
                (old(self).status & !FLAG_BREAK) | FLAG_UNUSED,
            ),
    {
        self.interrupt(InterruptType::NMI);
    }
}

/// What one dispatched opcode does: for each opcode byte, the claim of
/// the instruction it decodes to, in its addressing mode; unknown
/// opcodes change nothing.
#[verifier::opaque]
pub open spec fn exec_claim(pre: CPU, post: CPU, opcode: u8) -> bool {
    match opcode {
        0x69 => pre.adc_claim(post, AddressMode::Immediate),
        0x65 => pre.adc_claim(post, AddressMode::ZeroPage),
        0x75 => pre.adc_claim(post, AddressMode::ZeroPageX),
        0x6D => pre.adc_claim(post, AddressMode::Absolute),
        0x7D => pre.adc_claim(post, AddressMode::AbsoluteX),
        0x79 => pre.adc_claim(post, AddressMode::AbsoluteY),
        0x61 => pre.adc_claim(post, AddressMode::IndirectX),
        0x71 => pre.adc_claim(post, AddressMode::IndirectY),
        0xE9 => pre.sbc_claim(post, AddressMode::Immediate),
        0xE5 => pre.sbc_claim(post, AddressMode::ZeroPage),
        0xF5 => pre.sbc_claim(post, AddressMode::ZeroPageX),
        0xED => pre.sbc_claim(post, AddressMode::Absolute),
        0xFD => pre.sbc_claim(post, AddressMode::AbsoluteX),
        0xF9 => pre.sbc_claim(post, AddressMode::AbsoluteY),
        0xE1 => pre.sbc_claim(post, AddressMode::IndirectX),
        0xF1 => pre.sbc_claim(post, AddressMode::IndirectY),
        0x29 => pre.and_claim(post, AddressMode::Immediate),
        0x25 => pre.and_claim(post, AddressMode::ZeroPage),
        0x35 => pre.and_claim(post, AddressMode::ZeroPageX),
        0x2D => pre.and_claim(post, AddressMode::Absolute),
        0x3D => pre.and_claim(post, AddressMode::AbsoluteX),
        0x39 => pre.and_claim(post, AddressMode::AbsoluteY),
        0x21 => pre.and_claim(post, AddressMode::IndirectX),
        0x31 => pre.and_claim(post, AddressMode::IndirectY),
        0x49 => pre.eor_claim(post, AddressMode::Immediate),
        0x45 => pre.eor_claim(post, AddressMode::ZeroPage),
        0x55 => pre.eor_claim(post, AddressMode::ZeroPageX),
        0x4D => pre.eor_claim(post, AddressMode::Absolute),
        0x5D => pre.eor_claim(post, AddressMode::AbsoluteX),
        0x59 => pre.eor_claim(post, AddressMode::AbsoluteY),
        0x41 => pre.eor_claim(post, AddressMode::IndirectX),
        0x51 => pre.eor_claim(post, AddressMode::IndirectY),
        0x09 => pre.ora_claim(post, AddressMode::Immediate),
        0x05 => pre.ora_claim(post, AddressMode::ZeroPage),
        0x15 => pre.ora_claim(post, AddressMode::ZeroPageX),
        0x0D => pre.ora_claim(post, AddressMode::Absolute),
        0x1D => pre.ora_claim(post, AddressMode::AbsoluteX),
        0x19 => pre.ora_claim(post, AddressMode::AbsoluteY),
        0x01 => pre.ora_claim(post, AddressMode::IndirectX),
        0x11 => pre.ora_claim(post, AddressMode::IndirectY),
        0xC9 => pre.cmp_claim(post, AddressMode::Immediate),
        0xC5 => pre.cmp_claim(post, AddressMode::ZeroPage),
        0xD5 => pre.cmp_claim(post, AddressMode::ZeroPageX),
        0xCD => pre.cmp_claim(post, AddressMode::Absolute),
        0xDD => pre.cmp_claim(post, AddressMode::AbsoluteX),
        0xD9 => pre.cmp_claim(post, AddressMode::AbsoluteY),
        0xC1 => pre.cmp_claim(post, AddressMode::IndirectX),
        0xD1 => pre.cmp_claim(post, AddressMode::IndirectY),
        0xE0 => pre.cpx_claim(post, AddressMode::Immediate),
        0xE4 => pre.cpx_claim(post, AddressMode::ZeroPage),
        0xEC => pre.cpx_claim(post, AddressMode::Absolute),
        0xC0 => pre.cpy_claim(post, AddressMode::Immediate),
        0xC4 => pre.cpy_claim(post, AddressMode::ZeroPage),
        0xCC => pre.cpy_claim(post, AddressMode::Absolute),
        0x0A => pre.asl_accumulator_claim(post),
        0x06 => pre.asl_claim(post, AddressMode::ZeroPage),
        0x16 => pre.asl_claim(post, AddressMode::ZeroPageX),
        0x0E => pre.asl_claim(post, AddressMode::Absolute),
        0x1E => pre.asl_claim(post, AddressMode::AbsoluteX),
        0x4A => pre.lsr_accumulator_claim(post),
        0x46 => pre.lsr_claim(post, AddressMode::ZeroPage),
        0x56 => pre.lsr_claim(post, AddressMode::ZeroPageX),
        0x4E => pre.lsr_claim(post, AddressMode::Absolute),
        0x5E => pre.lsr_claim(post, AddressMode::AbsoluteX),
        0x2A => pre.rol_accumulator_claim(post),
        0x26 => pre.rol_claim(post, AddressMode::ZeroPage),
        0x36 => pre.rol_claim(post, AddressMode::ZeroPageX),
        0x2E => pre.rol_claim(post, AddressMode::Absolute),
        0x3E => pre.rol_claim(post, AddressMode::AbsoluteX),
        0x6A => pre.ror_accumulator_claim(post),
        0x66 => pre.ror_claim(post, AddressMode::ZeroPage),
        0x76 => pre.ror_claim(post, AddressMode::ZeroPageX),
        0x6E => pre.ror_claim(post, AddressMode::Absolute),
        0x7E => pre.ror_claim(post, AddressMode::AbsoluteX),
        0xE6 => pre.inc_claim(post, AddressMode::ZeroPage),
        0xF6 => pre.inc_claim(post, AddressMode::ZeroPageX),
        0xEE => pre.inc_claim(post, AddressMode::Absolute),
        0xFE => pre.inc_claim(post, AddressMode::AbsoluteX),
        0xC6 => pre.dec_claim(post, AddressMode::ZeroPage),
        0xD6 => pre.dec_claim(post, AddressMode::ZeroPageX),
        0xCE => pre.dec_claim(post, AddressMode::Absolute),
        0xDE => pre.dec_claim(post, AddressMode::AbsoluteX),
        0x24 => pre.bit_claim(post, AddressMode::ZeroPage),
        0x2C => pre.bit_claim(post, AddressMode::Absolute),
        0xA9 => pre.lda_claim(post, AddressMode::Immediate),
        0xA5 => pre.lda_claim(post, AddressMode::ZeroPage),
        0xB5 => pre.lda_claim(post, AddressMode::ZeroPageX),
        0xAD => pre.lda_claim(post, AddressMode::Absolute),
        0xBD => pre.lda_claim(post, AddressMode::AbsoluteX),
        0xB9 => pre.lda_claim(post, AddressMode::AbsoluteY),
        0xA1 => pre.lda_claim(post, AddressMode::IndirectX),
        0xB1 => pre.lda_claim(post, AddressMode::IndirectY),
        0xA2 => pre.ldx_claim(post, AddressMode::Immediate),
        0xA6 => pre.ldx_claim(post, AddressMode::ZeroPage),
        0xB6 => pre.ldx_claim(post, AddressMode::ZeroPageY),
        0xAE => pre.ldx_claim(post, AddressMode::Absolute),
        0xBE => pre.ldx_claim(post, AddressMode::AbsoluteY),
        0xA0 => pre.ldy_claim(post, AddressMode::Immediate),
        0xA4 => pre.ldy_claim(post, AddressMode::ZeroPage),
        0xB4 => pre.ldy_claim(post, AddressMode::ZeroPageX),
        0xAC => pre.ldy_claim(post, AddressMode::Absolute),
        0xBC => pre.ldy_claim(post, AddressMode::AbsoluteX),
        0x85 => pre.sta_claim(post, AddressMode::ZeroPage),
        0x95 => pre.sta_claim(post, AddressMode::ZeroPageX),
        0x8D => pre.sta_claim(post, AddressMode::Absolute),
        0x9D => pre.sta_claim(post, AddressMode::AbsoluteX),
        0x99 => pre.sta_claim(post, AddressMode::AbsoluteY),
        0x81 => pre.sta_claim(post, AddressMode::IndirectX),
        0x91 => pre.sta_claim(post, AddressMode::IndirectY),
        0x86 => pre.stx_claim(post, AddressMode::ZeroPage),
        0x96 => pre.stx_claim(post, AddressMode::ZeroPageY),
        0x8E => pre.stx_claim(post, AddressMode::Absolute),
        0x84 => pre.sty_claim(post, AddressMode::ZeroPage),
        0x94 => pre.sty_claim(post, AddressMode::ZeroPageX),
        0x8C => pre.sty_claim(post, AddressMode::Absolute),
        0x90 => pre.branch_claim(post, pre.branch_taken(0x90)),
        0xB0 => pre.branch_claim(post, pre.branch_taken(0xB0)),
        0xF0 => pre.branch_claim(post, pre.branch_taken(0xF0)),
        0x30 => pre.branch_claim(post, pre.branch_taken(0x30)),
        0xD0 => pre.branch_claim(post, pre.branch_taken(0xD0)),
        0x10 => pre.branch_claim(post, pre.branch_taken(0x10)),
        0x50 => pre.branch_claim(post, pre.branch_taken(0x50)),
        0x70 => pre.branch_claim(post, pre.branch_taken(0x70)),
        0x4C => pre.jmp_claim(post, AddressMode::Absolute),
        0x6C => pre.jmp_claim(post, AddressMode::Indirect),
        0x20 => pre.jsr_claim(post),
        0x00 => pre.brk_claim(post),
        0x40 => pre.rti_claim(post),
        0x60 => pre.rts_claim(post),
        0xCA => pre.dex_claim(post),
        0x88 => pre.dey_claim(post),
        0xE8 => pre.inx_claim(post),
        0xC8 => pre.iny_claim(post),
        0x18 => pre.clc_claim(post),
        0xD8 => pre.cld_claim(post),
        0x58 => pre.cli_claim(post),
        0xB8 => pre.clv_claim(post),
        0x38 => pre.sec_claim(post),
        0xF8 => pre.sed_claim(post),
        0x78 => pre.sei_claim(post),
        0x48 => pre.push_claim(post, pre.a),
        0x08 => pre.push_claim(post, pre.status | (FLAG_BREAK | FLAG_UNUSED)),
        0x68 => pre.pla_claim(post),
        0x28 => pre.plp_claim(post),
        0xAA => pre.tax_claim(post),
        0xA8 => pre.tay_claim(post),
        0xBA => pre.tsx_claim(post),
        0x8A => pre.txa_claim(post),
        0x9A => pre.txs_claim(post),
        0x98 => pre.tya_claim(post),
        _ => post == pre,
    }
}

impl CPU {
    /// Dispatch one already-fetched opcode to its family.  Every
    /// opcode outside the control-flow set leaves PC exactly where it
    /// was; the caller adds the encoded length afterwards.
    pub fn execute_opcode(&mut self, opcode: u8)
        requires
            old(self).wf(),
        ensures
            final(self).wf(),
            exec_claim(*old(self), *final(self), opcode),
            !opcodes::is_control(opcode) ==> final(self).pc == old(self).pc,
            opcodes::is_branch(opcode) && !old(self).branch_taken(opcode) ==> *final(self)
                == *old(self),
    {
        proof {
            reveal(exec_claim);
        }
        match opcode {
            0x69 | 0x65 | 0x75 | 0x6D | 0x7D | 0x79 | 0x61 | 0x71 | 0xE9 | 0xE5 | 0xF5 | 0xED
                | 0xFD | 0xF9 | 0xE1 | 0xF1 => self.execute_add_sub(opcode),
            0x29 | 0x25 | 0x35 | 0x2D | 0x3D | 0x39 | 0x21 | 0x31 | 0x49 | 0x45 | 0x55 | 0x4D
                | 0x5D | 0x59 | 0x41 | 0x51 | 0x09 | 0x05 | 0x15 | 0x0D | 0x1D | 0x19 | 0x01
                | 0x11 | 0xC9 | 0xC5 | 0xD5 | 0xCD | 0xDD | 0xD9 | 0xC1 | 0xD1 | 0xE0 | 0xE4
                | 0xEC | 0xC0 | 0xC4 | 0xCC => self.execute_logic_compare(opcode),
            0x0A | 0x06 | 0x16 | 0x0E | 0x1E | 0x4A | 0x46 | 0x56 | 0x4E | 0x5E | 0x2A | 0x26
                | 0x36 | 0x2E | 0x3E | 0x6A | 0x66 | 0x76 | 0x6E | 0x7E | 0xE6 | 0xF6 | 0xEE
                | 0xFE | 0xC6 | 0xD6 | 0xCE | 0xDE | 0x24 | 0x2C => self.execute_shift_inc(
                opcode,
            ),
            0xA9 | 0xA5 | 0xB5 | 0xAD | 0xBD | 0xB9 | 0xA1 | 0xB1 | 0xA2 | 0xA6 | 0xB6 | 0xAE
                | 0xBE | 0xA0 | 0xA4 | 0xB4 | 0xAC | 0xBC | 0x85 | 0x95 | 0x8D | 0x9D | 0x99
                | 0x81 | 0x91 | 0x86 | 0x96 | 0x8E | 0x84 | 0x94 | 0x8C => self.execute_load_store(
                opcode,
            ),
            0x10 | 0x30 | 0x50 | 0x70 | 0x90 | 0xB0 | 0xD0 | 0xF0 | 0x4C | 0x6C | 0x20 | 0x00
                | 0x40 | 0x60 => self.execute_control(opcode),
            _ => self.execute_register_ops(opcode),
        }
    }

    /// ADC and SBC under every addressing mode.
    fn execute_add_sub(&mut self, opcode: u8)
        requires
            old(self).wf(),
            opcodes::is_add_sub_op(opcode),
        ensures
            final(self).wf(),
            exec_claim(*old(self), *final(self), opcode),
            !opcodes::is_control(opcode) ==> final(self).pc == old(self).pc,
    {
        proof {
            reveal(exec_claim);
        }
        match opcode {
            0x69 => self.adc(AddressMode::Immediate),
            0x65 => self.adc(AddressMode::ZeroPage),
            0x75 => self.adc(AddressMode::ZeroPageX),
            0x6D => self.adc(AddressMode::Absolute),
            0x7D => self.adc(AddressMode::AbsoluteX),
            0x79 => self.adc(AddressMode::AbsoluteY),
            0x61 => self.adc(AddressMode::IndirectX),
            0x71 => self.adc(AddressMode::IndirectY),
            0xE9 => self.sbc(AddressMode::Immediate),
            0xE5 => self.sbc(AddressMode::ZeroPage),
            0xF5 => self.sbc(AddressMode::ZeroPageX),
            0xED => self.sbc(AddressMode::Absolute),
            0xFD => self.sbc(AddressMode::AbsoluteX),
            0xF9 => self.sbc(AddressMode::AbsoluteY),
            0xE1 => self.sbc(AddressMode::IndirectX),
            0xF1 => self.sbc(AddressMode::IndirectY),
            _ => self.nop(),
        }
    }

    /// AND, EOR, ORA and the three compares.
    #[verifier::rlimit(50)]
    fn execute_logic_compare(&mut self, opcode: u8)
        requires
            old(self).wf(),
            opcodes::is_logic_compare_op(opcode),
        ensures
            final(self).wf(),
            exec_claim(*old(self), *final(self), opcode),
            !opcodes::is_control(opcode) ==> final(self).pc == old(self).pc,
    {
        proof {
            reveal(exec_claim);
        }
        match opcode {
            0x29 => self.and(AddressMode::Immediate),
            0x25 => self.and(AddressMode::ZeroPage),
            0x35 => self.and(AddressMode::ZeroPageX),
            0x2D => self.and(AddressMode::Absolute),
            0x3D => self.and(AddressMode::AbsoluteX),
            0x39 => self.and(AddressMode::AbsoluteY),
            0x21 => self.and(AddressMode::IndirectX),
            0x31 => self.and(AddressMode::IndirectY),
            0x49 => self.eor(AddressMode::Immediate),
            0x45 => self.eor(AddressMode::ZeroPage),
            0x55 => self.eor(AddressMode::ZeroPageX),
            0x4D => self.eor(AddressMode::Absolute),
            0x5D => self.eor(AddressMode::AbsoluteX),
            0x59 => self.eor(AddressMode::AbsoluteY),
            0x41 => self.eor(AddressMode::IndirectX),
            0x51 => self.eor(AddressMode::IndirectY),
            0x09 => self.ora(AddressMode::Immediate),
            0x05 => self.ora(AddressMode::ZeroPage),
            0x15 => self.ora(AddressMode::ZeroPageX),
            0x0D => self.ora(AddressMode::Absolute),
            0x1D => self.ora(AddressMode::AbsoluteX),
            0x19 => self.ora(AddressMode::AbsoluteY),
            0x01 => self.ora(AddressMode::IndirectX),
            0x11 => self.ora(AddressMode::IndirectY),
            0xC9 => self.cmp(AddressMode::Immediate),
            0xC5 => self.cmp(AddressMode::ZeroPage),
            0xD5 => self.cmp(AddressMode::ZeroPageX),
            0xCD => self.cmp(AddressMode::Absolute),
            0xDD => self.cmp(AddressMode::AbsoluteX),
            0xD9 => self.cmp(AddressMode::AbsoluteY),
            0xC1 => self.cmp(AddressMode::IndirectX),
            0xD1 => self.cmp(AddressMode::IndirectY),
            0xE0 => self.cpx(AddressMode::Immediate),
            0xE4 => self.cpx(AddressMode::ZeroPage),
            0xEC => self.cpx(AddressMode::Absolute),
            0xC0 => self.cpy(AddressMode::Immediate),
            0xC4 => self.cpy(AddressMode::ZeroPage),
            0xCC => self.cpy(AddressMode::Absolute),
            _ => self.nop(),
        }
    }

    /// The shifts and rotates, INC and DEC on memory, and BIT.
    #[verifier::rlimit(50)]
    fn execute_shift_inc(&mut self, opcode: u8)
        requires
            old(self).wf(),
            opcodes::is_shift_inc_op(opcode),
        ensures
            final(self).wf(),
            exec_claim(*old(self), *final(self), opcode),
            !opcodes::is_control(opcode) ==> final(self).pc == old(self).pc,
    {
        proof {
            reveal(exec_claim);
        }
        match opcode {
            0x0A => self.asl_accumulator(),
            0x06 => self.asl(AddressMode::ZeroPage),
            0x16 => self.asl(AddressMode::ZeroPageX),
            0x0E => self.asl(AddressMode::Absolute),
            0x1E => self.asl(AddressMode::AbsoluteX),
            0x4A => self.lsr_accumulator(),
            0x46 => self.lsr(AddressMode::ZeroPage),
            0x56 => self.lsr(AddressMode::ZeroPageX),
            0x4E => self.lsr(AddressMode::Absolute),
            0x5E => self.lsr(AddressMode::AbsoluteX),
            0x2A => self.rol_accumulator(),
            0x26 => self.rol(AddressMode::ZeroPage),
            0x36 => self.rol(AddressMode::ZeroPageX),
            0x2E => self.rol(AddressMode::Absolute),
            0x3E => self.rol(AddressMode::AbsoluteX),
            0x6A => self.ror_accumulator(),
            0x66 => self.ror(AddressMode::ZeroPage),
            0x76 => self.ror(AddressMode::ZeroPageX),
            0x6E => self.ror(AddressMode::Absolute),
            0x7E => self.ror(AddressMode::AbsoluteX),
            0xE6 => self.inc(AddressMode::ZeroPage),
            0xF6 => self.inc(AddressMode::ZeroPageX),
            0xEE => self.inc(AddressMode::Absolute),
            0xFE => self.inc(AddressMode::AbsoluteX),
            0xC6 => self.dec(AddressMode::ZeroPage),
            0xD6 => self.dec(AddressMode::ZeroPageX),
            0xCE => self.dec(AddressMode::Absolute),
            0xDE => self.dec(AddressMode::AbsoluteX),
            0x24 => self.bit(AddressMode::ZeroPage),
            0x2C => self.bit(AddressMode::Absolute),
            _ => self.nop(),
        }
    }

    /// The loads and stores.
    #[verifier::rlimit(50)]
    fn execute_load_store(&mut self, opcode: u8)
        requires
            old(self).wf(),
            opcodes::is_load_store_op(opcode),
        ensures
            final(self).wf(),
            exec_claim(*old(self), *final(self), opcode),
            !opcodes::is_control(opcode) ==> final(self).pc == old(self).pc,
    {
        proof {
            reveal(exec_claim);
        }
        match opcode {
            0xA9 => self.lda(AddressMode::Immediate),
            0xA5 => self.lda(AddressMode::ZeroPage),
            0xB5 => self.lda(AddressMode::ZeroPageX),
            0xAD => self.lda(AddressMode::Absolute),
            0xBD => self.lda(AddressMode::AbsoluteX),
            0xB9 => self.lda(AddressMode::AbsoluteY),
            0xA1 => self.lda(AddressMode::IndirectX),
            0xB1 => self.lda(AddressMode::IndirectY),
            0xA2 => self.ldx(AddressMode::Immediate),
            0xA6 => self.ldx(AddressMode::ZeroPage),
            0xB6 => self.ldx(AddressMode::ZeroPageY),
            0xAE => self.ldx(AddressMode::Absolute),
            0xBE => self.ldx(AddressMode::AbsoluteY),
            0xA0 => self.ldy(AddressMode::Immediate),
            0xA4 => self.ldy(AddressMode::ZeroPage),
            0xB4 => self.ldy(AddressMode::ZeroPageX),
            0xAC => self.ldy(AddressMode::Absolute),
            0xBC => self.ldy(AddressMode::AbsoluteX),
            0x85 => self.sta(AddressMode::ZeroPage),
            0x95 => self.sta(AddressMode::ZeroPageX),
            0x8D => self.sta(AddressMode::Absolute),
            0x9D => self.sta(AddressMode::AbsoluteX),
            0x99 => self.sta(AddressMode::AbsoluteY),
            0x81 => self.sta(AddressMode::IndirectX),
            0x91 => self.sta(AddressMode::IndirectY),
            0x86 => self.stx(AddressMode::ZeroPage),
            0x96 => self.stx(AddressMode::ZeroPageY),
            0x8E => self.stx(AddressMode::Absolute),
            0x84 => self.sty(AddressMode::ZeroPage),
            0x94 => self.sty(AddressMode::ZeroPageX),
            0x8C => self.sty(AddressMode::Absolute),
            _ => self.nop(),
        }
    }

    /// The branches, jumps, returns, and BRK.
    fn execute_control(&mut self, opcode: u8)
        requires
            old(self).wf(),
            opcodes::is_control(opcode),
        ensures
            final(self).wf(),
            exec_claim(*old(self), *final(self), opcode),
            opcodes::is_branch(opcode) && !old(self).branch_taken(opcode) ==> *final(self)
                == *old(self),
    {
        proof {
            reveal(exec_claim);
        }
        match opcode {
            0x90 => self.bcc(),
            0xB0 => self.bcs(),
            0xF0 => self.beq(),
            0x30 => self.bmi(),
            0xD0 => self.bne(),
            0x10 => self.bpl(),
            0x50 => self.bvc(),
            0x70 => self.bvs(),
            0x4C => self.jmp(AddressMode::Absolute),
            0x6C => self.jmp(AddressMode::Indirect),
            0x20 => self.jsr(),
            0x00 => self.brk(),
            0x40 => self.rti(),
            0x60 => self.rts(),
            _ => self.nop(),
        }
    }

    /// The register-to-register family: transfers, increments and
    /// decrements on X and Y, the stack instructions, the flag
    /// instructions, and NOP — including every unknown opcode, which
    /// runs as a NOP.
    fn execute_register_ops(&mut self, opcode: u8)
        requires
            old(self).wf(),
            !opcodes::is_add_sub_op(opcode),
            !opcodes::is_logic_compare_op(opcode),
            !opcodes::is_shift_inc_op(opcode),
            !opcodes::is_load_store_op(opcode),
            !opcodes::is_control(opcode),
        ensures
            final(self).wf(),
            exec_claim(*old(self), *final(self), opcode),
            final(self).pc == old(self).pc,
    {
        proof {
            reveal(exec_claim);
        }
        match opcode {
            0xCA => self.dex(),
            0x88 => self.dey(),
            0xE8 => self.inx(),
            0xC8 => self.iny(),
            0x18 => self.clc(),
            0xD8 => self.cld(),
            0x58 => self.cli(),
            0xB8 => self.clv(),
            0x38 => self.sec(),
            0xF8 => self.sed(),
            0x78 => self.sei(),
            0x48 => self.pha(),
            0x08 => self.php(),
            0x68 => self.pla(),
            0x28 => self.plp(),
            0xAA => self.tax(),
            0xA8 => self.tay(),
            0xBA => self.tsx(),
            0x8A => self.txa(),
            0x9A => self.txs(),
            0x98 => self.tya(),
            _ => self.nop(),
        }
    }

    /// The state after the pending-NMI latch is taken: only the latch
    /// clears.
    pub open spec fn nmi_polled(self) -> CPU {
        CPU {
            bus: Bus {
                mem: MemoryBus {
                    ppu: PPU {
                        registers: Registers {
                            nmi_interrupt: None,
                            ..self.bus.mem.ppu.registers
                        },
                        ..self.bus.mem.ppu
                    },
                    ..self.bus.mem
                },
                ..self.bus
            },
            ..self
        }
    }

    /// What one fetch-decode-execute round does, starting at `self`:
    /// the opcode byte at PC is fetched, its instruction executes as
    /// `exec_claim` describes, the clock advances by the opcode's base
    /// cycles, and PC — when the instruction left it alone — moves past
    /// the encoding.  `frame` is true exactly when a frame edge was
    /// seen: `prior` carries one from earlier in the step, and the
    /// clock advance here contributes one when it newly latches an NMI.
    pub open spec fn fetch_exec_claim(self, post: CPU, frame: bool, prior: bool) -> bool {
        let op = self.mem_value(self.pc);
        let fetched = CPU { pc: self.pc.wrapping_add(1), ..self.after_read(self.pc) };
        exists|mid: CPU|
            {
                &&& #[trigger] exec_claim(fetched, mid, op)
                &&& post == (CPU {
                    pc: if mid.pc == fetched.pc {
                        fetched.pc.wrapping_add((opcodes::opcode_len(op) - 1) as u16)
                    } else {
                        mid.pc
                    },
                    ..mid.after_tick(opcodes::opcode_cycles(op) as u8)
                })
                &&& frame == (prior || (mid.bus.mem.ppu.registers.nmi_interrupt is None
                    && post.bus.mem.ppu.registers.nmi_interrupt is Some))
            }
    }

    /// What one full step does.  With no NMI pending it is one
    /// fetch-decode-execute round; with one pending, the NMI is first
    /// serviced as `interrupt_claim` describes and seven cycles pass,
    /// and the frame flag also reports an NMI edge latched during those
    /// cycles.
    pub open spec fn step_claim(self, post: CPU, frame: bool) -> bool {
        if self.bus.mem.ppu.registers.nmi_interrupt is None {
            self.fetch_exec_claim(post, frame, false)
        } else {
            exists|svc: CPU|
                {
                    &&& #[trigger] self.nmi_polled().interrupt_claim(svc, InterruptType::NMI)
                    &&& svc.after_tick(7).fetch_exec_claim(
                        post,
                        frame,
                        svc.bus.mem.ppu.registers.nmi_interrupt is None && svc.after_tick(
                            7,
                        ).bus.mem.ppu.registers.nmi_interrupt is Some,
                    )
                }
        }
    }

    /// One fetch-decode-execute step.  A pending NMI is serviced first
    /// — pushed and vectored exactly as `interrupt_claim` describes,
    /// with seven cycles consumed — then one instruction runs as
    /// `fetch_exec_claim` describes.  The returned flag reports the
    /// frame-sink edge: a new NMI latched while the clock advanced.
    ///
    /// For every opcode outside the control-flow set, and for a branch
    /// that is not taken, PC advances by exactly the instruction's
    /// encoded length; a taken jump or branch sets PC itself.
    pub fn step(&mut self) -> (frame: bool)
        requires
            old(self).wf(),
        ensures
            final(self).wf(),
            old(self).step_claim(*final(self), frame),
            old(self).bus.mem.ppu.registers.nmi_interrupt is None && !opcodes::is_control(
                old(self).mem_value(old(self).pc),
            ) ==> final(self).pc == old(self).pc.wrapping_add(
                opcodes::opcode_len(old(self).mem_value(old(self).pc)) as u16,
            ),
            old(self).bus.mem.ppu.registers.nmi_interrupt is None && opcodes::is_branch(
                old(self).mem_value(old(self).pc),
            ) && !old(self).branch_taken(old(self).mem_value(old(self).pc)) ==> final(self).pc
                == old(self).pc.wrapping_add(2),
    {
        let mut frame = false;
        let pending = self.bus.mem.ppu.poll_nmi_interrupt();
        let ghost polled = *self;
        proof {
            assert(polled == old(self).nmi_polled());
        }
        let ghost svc = *self;
        let ghost prior_edge = false;
        if pending.is_some() {
            self.interrupt(InterruptType::NMI);
            proof {
                svc = *self;
            }
            frame = self.bus.tick(7) || frame;
            proof {
                prior_edge = frame;
                assert(*self == svc.after_tick(7));
            }
        }
        let ghost pre_fetch = *self;

        let opcode = self.fetch_byte();
        let ghost fetched = *self;
        let pc_state = self.pc;
        self.execute_opcode(opcode);
        let ghost mid = *self;

        let cycles = self.get_cycle_count(opcode);
        frame = self.bus.tick(cycles as u8) || frame;
        proof {
            assert(*self == mid.after_tick(cycles as u8));
        }

        if pc_state == self.pc {
            let len = opcodes::instruction_len(opcode);
            self.pc = pc_state.wrapping_add((len - 1) as u16);
        }
        proof {
            assert(fetched == (CPU {
                pc: pre_fetch.pc.wrapping_add(1),
                ..pre_fetch.after_read(pre_fetch.pc)
            }));
            assert(pre_fetch.fetch_exec_claim(*self, frame, prior_edge));
        }
        frame
    }

    /// Drive steps until the frame-sink edge fires, up to a generous
    /// budget of steps; returns whether a frame arrived.  A true return
    /// means the final state was left by a step that reported the
    /// frame-sink edge.
    pub fn run_until_frame(&mut self) -> (r: bool)
        requires
            old(self).wf(),
        ensures
            final(self).wf(),
            r ==> exists|pre: CPU| #[trigger] pre.step_claim(*final(self), true),
    {
        let mut steps: u32 = 0;
        while steps < 200000
            invariant
                self.wf(),
            decreases 200000 - steps,
        {
            let ghost prev = *self;
            if self.step() {
                proof {
                    assert(prev.step_claim(*self, true));
                }
                return true;
            }
            steps += 1;
        }
        false
    }
}

/// Setting the InterruptDisable mask really sets the flag.
proof fn lemma_status_interrupt_bit()
    by (bit_vector)
    ensures
        forall|b: u8| #[trigger] ((b | 0x04u8) & 0x04u8) != 0,
{
}

/// The stack pointer is an 8-bit value that pushes and pops move
/// modulo 256, so it stays within `[0, 255]` after any sequence of
/// stack operations.
pub proof fn lemma_sp_stays_in_range(pre: CPU, post: CPU, value: u8)
    requires
        pre.push_claim(post, value),
    ensures
        0 <= post.sp < 256,
        0 <= pre.popped().sp < 256,
        post.sp == pre.sp.wrapping_sub(1),
        pre.popped().sp == pre.sp.wrapping_add(1),
{
}

/// Pushing a word and popping twice restores it: the first pop returns
/// the low byte, the second the high byte, and reassembling them
/// little-endian gives back the pushed word, with the stack pointer
/// where it started.
pub proof fn lemma_push_word_pop_round_trip(pre: CPU, post: CPU, value: u16)
    requires
        pre.push_word_claim(post, value),
        pre.bus.mem.cpu_ram@.len() == 0x800,
    ensures
        post.pop_value() == value % 256,
        post.popped().pop_value() == value / 256,
        (post.popped().pop_value() * 256 + post.pop_value()) as u16 == value,
        post.popped().popped().sp == pre.sp,
{
    assert(post.sp.wrapping_add(1) == pre.sp.wrapping_sub(1));
    assert(post.popped().sp.wrapping_add(1) == pre.sp);
    assert(STACK_BASE + pre.sp != STACK_BASE + pre.sp.wrapping_sub(1));
    vstd::arithmetic::div_mod::lemma_fundamental_div_mod(value as int, 256);
}

} // verus!
