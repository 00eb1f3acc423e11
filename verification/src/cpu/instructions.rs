//! Instruction semantics: addressing-mode resolution and the behaviour
//! of every instruction family, each pinned down against the
//! specification-level operand model.

use vstd::prelude::*;

use crate::bus::bus_write_claim;
use crate::cpu::CPU;
use crate::cpu::FLAG_BREAK;
use crate::cpu::FLAG_CARRY;
use crate::cpu::FLAG_DECIMAL;
use crate::cpu::FLAG_INTERRUPT;
use crate::cpu::FLAG_NEGATIVE;
use crate::cpu::FLAG_OVERFLOW;
use crate::cpu::FLAG_UNUSED;
use crate::cpu::FLAG_ZERO;
use crate::cpu::zn_flags;
use crate::ppu::status::apply_mask;

verus! {

/// How an instruction finds its operand.
#[derive(Clone, Copy, Debug, PartialEq, Eq, Structural)]
pub enum AddressMode {
    Immediate,
    ZeroPage,
    ZeroPageX,
    ZeroPageY,
    Absolute,
    AbsoluteX,
    AbsoluteY,
    Indirect,
    IndirectX,
    IndirectY,
    Accumulator,
    Relative,
    Implied,
}

/// The modes `get_operand` resolves: every mode that names a memory
/// location (or, for Immediate, the operand byte's own address).
pub open spec fn is_operand_mode(mode: AddressMode) -> bool {
    match mode {
        AddressMode::Immediate | AddressMode::ZeroPage | AddressMode::ZeroPageX
            | AddressMode::ZeroPageY | AddressMode::Absolute | AddressMode::AbsoluteX
            | AddressMode::AbsoluteY | AddressMode::Indirect | AddressMode::IndirectX
            | AddressMode::IndirectY => true,
        AddressMode::Accumulator | AddressMode::Relative | AddressMode::Implied => false,
    }
}

/// Two addresses sit on different 256-byte pages.
pub open spec fn page_cross_spec(a: u16, b: u16) -> bool {
    a / 256 != b / 256
}

/// A branch offset sign-extended to 16 bits.
pub open spec fn sign_extend(b: u8) -> u16 {
    if b < 0x80 {
        b as u16
    } else {
        (b + 0xFF00) as u16
    }
}

/// `s` after one extra bus cycle when `c` holds; the page-cross penalty.
pub open spec fn ticked_if(s: CPU, c: bool) -> CPU {
    if c {
        s.after_tick(1)
    } else {
        s
    }
}

/// Two addresses sit on different 256-byte pages.
pub fn page_cross(a: u16, b: u16) -> (r: bool)
    ensures
        r == page_cross_spec(a, b),
{
    a / 256 != b / 256
}

impl CPU {
    /// The address an addressing mode resolves to, reading pointer
    /// bytes from the current state.  `(Indirect)` keeps the 6502 page
    /// wrap: the pointer's high byte comes from the same page as its
    /// low byte.
    #[verifier::opaque]
    pub open spec fn operand_addr(self, mode: AddressMode) -> u16 {
        match mode {
            AddressMode::Immediate => self.pc,
            AddressMode::ZeroPage => self.mem_value(self.pc) as u16,
            AddressMode::ZeroPageX => self.mem_value(self.pc).wrapping_add(self.x) as u16,
            AddressMode::ZeroPageY => self.mem_value(self.pc).wrapping_add(self.y) as u16,
            AddressMode::Absolute => self.word_value(self.pc),
            AddressMode::AbsoluteX => self.word_value(self.pc).wrapping_add(self.x as u16),
            AddressMode::AbsoluteY => self.word_value(self.pc).wrapping_add(self.y as u16),
            AddressMode::Indirect => {
                let base = self.word_value(self.pc);
                let s1 = self.after_read_word(self.pc);
                let lo = s1.mem_value(base);
                let hi_addr = ((base / 256) * 256 + (base % 256 + 1) % 256) as u16;
                let hi = s1.after_read(base).mem_value(hi_addr);
                (hi * 256 + lo) as u16
            },
            AddressMode::IndirectX => {
                let ptr = self.mem_value(self.pc).wrapping_add(self.x);
                let s1 = self.after_read(self.pc);
                let lo = s1.mem_value(ptr as u16);
                let hi = s1.after_read(ptr as u16).mem_value(ptr.wrapping_add(1) as u16);
                (hi * 256 + lo) as u16
            },
            AddressMode::IndirectY => {
                let ptr = self.mem_value(self.pc);
                let s1 = self.after_read(self.pc);
                let lo = s1.mem_value(ptr as u16);
                let hi = s1.after_read(ptr as u16).mem_value(ptr.wrapping_add(1) as u16);
                ((hi * 256 + lo) as u16).wrapping_add(self.y as u16)
            },
            _ => 0,
        }
    }

    /// Whether resolving the mode crossed a page, which costs read-class
    /// instructions and branches one extra cycle.
    #[verifier::opaque]
    pub open spec fn operand_cross(self, mode: AddressMode) -> bool {
        match mode {
            AddressMode::AbsoluteX => page_cross_spec(
                self.word_value(self.pc),
                self.word_value(self.pc).wrapping_add(self.x as u16),
            ),
            AddressMode::AbsoluteY => page_cross_spec(
                self.word_value(self.pc),
                self.word_value(self.pc).wrapping_add(self.y as u16),
            ),
            AddressMode::IndirectY => {
                let ptr = self.mem_value(self.pc);
                let s1 = self.after_read(self.pc);
                let lo = s1.mem_value(ptr as u16);
                let hi = s1.after_read(ptr as u16).mem_value(ptr.wrapping_add(1) as u16);
                let base = (hi * 256 + lo) as u16;
                page_cross_spec(base, base.wrapping_add(self.y as u16))
            },
            _ => false,
        }
    }

    /// The state operand resolution leaves behind: every pointer byte it
    /// read, in order.
    #[verifier::opaque]
    pub open spec fn operand_post(self, mode: AddressMode) -> CPU {
        match mode {
            AddressMode::Immediate => self,
            AddressMode::ZeroPage | AddressMode::ZeroPageX | AddressMode::ZeroPageY => self
                .after_read(self.pc),
            AddressMode::Absolute | AddressMode::AbsoluteX | AddressMode::AbsoluteY => self
                .after_read_word(self.pc),
            AddressMode::Indirect => {
                let base = self.word_value(self.pc);
                let hi_addr = ((base / 256) * 256 + (base % 256 + 1) % 256) as u16;
                self.after_read_word(self.pc).after_read(base).after_read(hi_addr)
            },
            AddressMode::IndirectX => {
                let ptr = self.mem_value(self.pc).wrapping_add(self.x);
                self.after_read(self.pc).after_read(ptr as u16).after_read(
                    ptr.wrapping_add(1) as u16,
                )
            },
            AddressMode::IndirectY => {
                let ptr = self.mem_value(self.pc);
                self.after_read(self.pc).after_read(ptr as u16).after_read(
                    ptr.wrapping_add(1) as u16,
                )
            },
            _ => self,
        }
    }

    /// The operand byte itself: the byte at the resolved address, read
    /// in the state resolution left.
    pub open spec fn operand_value(self, mode: AddressMode) -> u8 {
        self.operand_post(mode).mem_value(self.operand_addr(mode))
    }

    /// The state after resolving the mode and reading the operand byte.
    pub open spec fn after_operand(self, mode: AddressMode) -> CPU {
        self.operand_post(mode).after_read(self.operand_addr(mode))
    }

    /// The state a read-class instruction leaves on the bus: operand
    /// resolved and read, plus the page-cross penalty cycle.
    pub open spec fn loaded_state(self, mode: AddressMode) -> CPU {
        ticked_if(self.after_operand(mode), self.operand_cross(mode))
    }

    /// Resolve an addressing mode to `(address, page_crossed)`.
    pub fn get_operand(&mut self, mode: AddressMode) -> (r: (u16, bool))
        requires
            old(self).wf(),
            is_operand_mode(mode),
        ensures
            final(self).wf(),
            r.0 == old(self).operand_addr(mode),
            r.1 == old(self).operand_cross(mode),
            *final(self) == old(self).operand_post(mode),
            final(self).a == old(self).a,
            final(self).x == old(self).x,
            final(self).y == old(self).y,
            final(self).sp == old(self).sp,
            final(self).status == old(self).status,
            final(self).pc == old(self).pc,
            final(self).bus.cycles == old(self).bus.cycles,
            final(self).bus.mem.cpu_ram == old(self).bus.mem.cpu_ram,
            final(self).bus.mem.prg_rom == old(self).bus.mem.prg_rom,
    {
        proof {
            reveal(CPU::operand_addr);
            reveal(CPU::operand_cross);
            reveal(CPU::operand_post);
        }
        match mode {
            AddressMode::Immediate => (self.pc, false),
            AddressMode::ZeroPage => {
                let addr = self.bus.mem_read(self.pc) as u16;
                (addr, false)
            },
            AddressMode::ZeroPageX => {
                let pos = self.bus.mem_read(self.pc);
                (pos.wrapping_add(self.x) as u16, false)
            },
            AddressMode::ZeroPageY => {
                let pos = self.bus.mem_read(self.pc);
                (pos.wrapping_add(self.y) as u16, false)
            },
            AddressMode::Absolute => {
                let addr = self.bus.read_word(self.pc);
                (addr, false)
            },
            AddressMode::AbsoluteX => {
                let base = self.bus.read_word(self.pc);
                let addr = base.wrapping_add(self.x as u16);
                (addr, page_cross(base, addr))
            },
            AddressMode::AbsoluteY => {
                let base = self.bus.read_word(self.pc);
                let addr = base.wrapping_add(self.y as u16);
                (addr, page_cross(base, addr))
            },
            AddressMode::Indirect => {
                let base = self.bus.read_word(self.pc);
                let lo = self.bus.mem_read(base);
                let hi_addr = (base / 256) * 256 + (base % 256 + 1) % 256;
                let hi = self.bus.mem_read(hi_addr);
                ((hi as u16) * 256 + lo as u16, false)
            },
            AddressMode::IndirectX => {
                let base = self.bus.mem_read(self.pc);
                let ptr = base.wrapping_add(self.x);
                let lo = self.bus.mem_read(ptr as u16);
                let hi = self.bus.mem_read(ptr.wrapping_add(1) as u16);
                ((hi as u16) * 256 + lo as u16, false)
            },
            AddressMode::IndirectY => {
                let base = self.bus.mem_read(self.pc);
                let lo = self.bus.mem_read(base as u16);
                let hi = self.bus.mem_read(base.wrapping_add(1) as u16);
                let deref_base = (hi as u16) * 256 + lo as u16;
                let deref = deref_base.wrapping_add(self.y as u16);
                (deref, page_cross(deref_base, deref))
            },
            _ => (0, false),
        }
    }

    fn get_flag(&self, mask: u8) -> (r: bool)
        ensures
            r == self.flag(mask),
    {
        self.status & mask != 0
    }

    fn set_flag(&mut self, mask: u8, on: bool)
        ensures
            *final(self) == (CPU { status: apply_mask(old(self).status, mask, on), ..*old(self) }),
    {
        if on {
            self.status = self.status | mask;
        } else {
            self.status = self.status & !mask;
        }
    }

    fn update_zero_and_negative_flags(&mut self, value: u8)
        ensures
            *final(self) == (CPU { status: zn_flags(old(self).status, value), ..*old(self) }),
    {
        self.set_flag(FLAG_ZERO, value == 0);
        self.set_flag(FLAG_NEGATIVE, value & 0x80 != 0);
    }

    fn update_carry_flag(&mut self, sum: u16)
        ensures
            *final(self) == (CPU {
                status: apply_mask(old(self).status, FLAG_CARRY, sum > 0xFF),
                ..*old(self)
            }),
    {
        self.set_flag(FLAG_CARRY, sum > 0xFF);
    }

    fn update_overflow_flag(&mut self, value: u8, result: u8)
        ensures
            *final(self) == (CPU {
                status: apply_mask(
                    old(self).status,
                    FLAG_OVERFLOW,
                    overflow_flag(old(self).a, value, result),
                ),
                ..*old(self)
            }),
    {
        let overflow = (self.a ^ value) & 0x80 == 0 && (self.a ^ result) & 0x80 != 0;
        self.set_flag(FLAG_OVERFLOW, overflow);
    }

    fn rotate_right(&mut self, value: u8) -> (r: u8)
        ensures
            r == ror_result(value, old(self).flag(FLAG_CARRY)),
            *final(self) == (CPU {
                status: apply_mask(old(self).status, FLAG_CARRY, value & 0x01 != 0),
                ..*old(self)
            }),
    {
        let carry: u8 = if self.get_flag(FLAG_CARRY) {
            0x80
        } else {
            0
        };
        let result = (value / 2) | carry;
        self.set_flag(FLAG_CARRY, value & 0x01 != 0);
        result
    }

    fn rotate_left(&mut self, value: u8) -> (r: u8)
        ensures
            r == rol_result(value, old(self).flag(FLAG_CARRY)),
            *final(self) == (CPU {
                status: apply_mask(old(self).status, FLAG_CARRY, value & 0x80 != 0),
                ..*old(self)
            }),
    {
        let carry: u8 = if self.get_flag(FLAG_CARRY) {
            1
        } else {
            0
        };
        let result = value.wrapping_mul(2) | carry;
        self.set_flag(FLAG_CARRY, value & 0x80 != 0);
        result
    }
}

impl CPU {
    /// Load the accumulator; Z and N from the value.
    pub fn lda(&mut self, mode: AddressMode)
        requires
            old(self).wf(),
            is_operand_mode(mode),
        ensures
            final(self).wf(),
            final(self).pc == old(self).pc,
            old(self).lda_claim(*final(self), mode),
    {
        proof {
            reveal(CPU::lda_claim);
        }
        let (addr, page_cross) = self.get_operand(mode);
        let value = self.bus.mem_read(addr);
        self.a = value;
        self.update_zero_and_negative_flags(value);
        if page_cross {
            let _ = self.bus.tick(1);
        }
    }

    /// Load X; Z and N from the value.
    pub fn ldx(&mut self, mode: AddressMode)
        requires
            old(self).wf(),
            is_operand_mode(mode),
        ensures
            final(self).wf(),
            final(self).pc == old(self).pc,
            old(self).ldx_claim(*final(self), mode),
    {
        proof {
            reveal(CPU::ldx_claim);
        }
        let (addr, page_cross) = self.get_operand(mode);
        let value = self.bus.mem_read(addr);
        self.x = value;
        self.update_zero_and_negative_flags(value);
        if page_cross {
            let _ = self.bus.tick(1);
        }
    }

    /// Load Y; Z and N from the value.
    pub fn ldy(&mut self, mode: AddressMode)
        requires
            old(self).wf(),
            is_operand_mode(mode),
        ensures
            final(self).wf(),
            final(self).pc == old(self).pc,
            old(self).ldy_claim(*final(self), mode),
    {
        proof {
            reveal(CPU::ldy_claim);
        }
        let (addr, page_cross) = self.get_operand(mode);
        let value = self.bus.mem_read(addr);
        self.y = value;
        self.update_zero_and_negative_flags(value);
        if page_cross {
            let _ = self.bus.tick(1);
        }
    }

    /// Bitwise AND into the accumulator; Z and N from the result.
    pub fn and(&mut self, mode: AddressMode)
        requires
            old(self).wf(),
            is_operand_mode(mode),
        ensures
            final(self).wf(),
            final(self).pc == old(self).pc,
            old(self).and_claim(*final(self), mode),
    {
        proof {
            reveal(CPU::and_claim);
        }
        let (addr, page_cross) = self.get_operand(mode);
        let value = self.bus.mem_read(addr);
        self.a = self.a & value;
        self.update_zero_and_negative_flags(self.a);
        if page_cross {
            let _ = self.bus.tick(1);
        }
    }

    /// Bitwise exclusive-or into the accumulator; Z and N from the
    /// result.
    pub fn eor(&mut self, mode: AddressMode)
        requires
            old(self).wf(),
            is_operand_mode(mode),
        ensures
            final(self).wf(),
            final(self).pc == old(self).pc,
            old(self).eor_claim(*final(self), mode),
    {
        proof {
            reveal(CPU::eor_claim);
        }
        let (addr, page_cross) = self.get_operand(mode);
        let value = self.bus.mem_read(addr);
        self.a = self.a ^ value;
        self.update_zero_and_negative_flags(self.a);
        if page_cross {
            let _ = self.bus.tick(1);
        }
    }

    /// Bitwise OR into the accumulator; Z and N from the result.
    pub fn ora(&mut self, mode: AddressMode)
        requires
            old(self).wf(),
            is_operand_mode(mode),
        ensures
            final(self).wf(),
            final(self).pc == old(self).pc,
            old(self).ora_claim(*final(self), mode),
    {
        proof {
            reveal(CPU::ora_claim);
        }
        let (addr, page_cross) = self.get_operand(mode);
        let value = self.bus.mem_read(addr);
        self.a = self.a | value;
        self.update_zero_and_negative_flags(self.a);
        if page_cross {
            let _ = self.bus.tick(1);
        }
    }

    /// Add with carry: `A + M + C` as a 9-bit sum; N, Z, C, V set.
    pub fn adc(&mut self, mode: AddressMode)
        requires
            old(self).wf(),
            is_operand_mode(mode),
        ensures
            final(self).wf(),
            final(self).pc == old(self).pc,
            old(self).adc_claim(*final(self), mode),
    {
        proof {
            reveal(CPU::adc_claim);
        }
        let (addr, page_cross) = self.get_operand(mode);
        let value = self.bus.mem_read(addr);

        let carry: u16 = if self.get_flag(FLAG_CARRY) {
            1
        } else {
            0
        };
        let sum: u16 = self.a as u16 + value as u16 + carry;
        let result: u8 = (sum % 256) as u8;

        self.update_zero_and_negative_flags(result);
        self.update_carry_flag(sum);
        self.update_overflow_flag(value, result);
        self.a = result;

        if page_cross {
            let _ = self.bus.tick(1);
        }
    }

    /// Subtract with borrow, implemented as `A + ~M + C`; N, Z, C, V
    /// from that 9-bit sum.
    pub fn sbc(&mut self, mode: AddressMode)
        requires
            old(self).wf(),
            is_operand_mode(mode),
        ensures
            final(self).wf(),
            final(self).pc == old(self).pc,
            old(self).sbc_claim(*final(self), mode),
    {
        proof {
            reveal(CPU::sbc_claim);
        }
        let (addr, page_cross) = self.get_operand(mode);
        let value = self.bus.mem_read(addr);
        let inverted = value ^ 0xFF;

        let carry: u16 = if self.get_flag(FLAG_CARRY) {
            1
        } else {
            0
        };
        let sum: u16 = self.a as u16 + inverted as u16 + carry;
        let result: u8 = (sum % 256) as u8;

        self.update_zero_and_negative_flags(result);
        self.update_carry_flag(sum);
        self.update_overflow_flag(inverted, result);
        self.a = result;

        if page_cross {
            let _ = self.bus.tick(1);
        }
    }

    /// Compare the accumulator with the operand.
    pub fn cmp(&mut self, mode: AddressMode)
        requires
            old(self).wf(),
            is_operand_mode(mode),
        ensures
            final(self).wf(),
            final(self).pc == old(self).pc,
            old(self).cmp_claim(*final(self), mode),
    {
        proof {
            reveal(CPU::cmp_claim);
        }
        let (addr, page_cross) = self.get_operand(mode);
        let value = self.bus.mem_read(addr);
        let result = self.a.wrapping_sub(value);
        let reg = self.a;
        self.set_flag(FLAG_CARRY, reg >= value);
        self.set_flag(FLAG_ZERO, reg == value);
        self.set_flag(FLAG_NEGATIVE, result & 0x80 != 0);
        if page_cross {
            let _ = self.bus.tick(1);
        }
    }

    /// Compare X with the operand.
    pub fn cpx(&mut self, mode: AddressMode)
        requires
            old(self).wf(),
            is_operand_mode(mode),
        ensures
            final(self).wf(),
            final(self).pc == old(self).pc,
            old(self).cpx_claim(*final(self), mode),
    {
        proof {
            reveal(CPU::cpx_claim);
        }
        let (addr, page_cross) = self.get_operand(mode);
        let value = self.bus.mem_read(addr);
        let result = self.x.wrapping_sub(value);
        let reg = self.x;
        self.set_flag(FLAG_CARRY, reg >= value);
        self.set_flag(FLAG_ZERO, reg == value);
        self.set_flag(FLAG_NEGATIVE, result & 0x80 != 0);
        if page_cross {
            let _ = self.bus.tick(1);
        }
    }

    /// Compare Y with the operand.
    pub fn cpy(&mut self, mode: AddressMode)
        requires
            old(self).wf(),
            is_operand_mode(mode),
        ensures
            final(self).wf(),
            final(self).pc == old(self).pc,
            old(self).cpy_claim(*final(self), mode),
    {
        proof {
            reveal(CPU::cpy_claim);
        }
        let (addr, page_cross) = self.get_operand(mode);
        let value = self.bus.mem_read(addr);
        let result = self.y.wrapping_sub(value);
        let reg = self.y;
        self.set_flag(FLAG_CARRY, reg >= value);
        self.set_flag(FLAG_ZERO, reg == value);
        self.set_flag(FLAG_NEGATIVE, result & 0x80 != 0);
        if page_cross {
            let _ = self.bus.tick(1);
        }
    }

    /// BIT: Z from `A & M`, N and V copied from bits 7 and 6 of the
    /// operand; no registers change.
    pub fn bit(&mut self, mode: AddressMode)
        requires
            old(self).wf(),
            is_operand_mode(mode),
        ensures
            final(self).wf(),
            final(self).pc == old(self).pc,
            old(self).bit_claim(*final(self), mode),
    {
        proof {
            reveal(CPU::bit_claim);
        }
        let (addr, _) = self.get_operand(mode);
        let value = self.bus.mem_read(addr);
        let a = self.a;
        self.set_flag(FLAG_ZERO, a & value == 0);
        self.set_flag(FLAG_NEGATIVE, value & 0x80 != 0);
        self.set_flag(FLAG_OVERFLOW, value & 0x40 != 0);
    }

    /// Store the accumulator; no flags.
    pub fn sta(&mut self, mode: AddressMode)
        requires
            old(self).wf(),
            is_operand_mode(mode),
        ensures
            final(self).pc == old(self).pc,
            final(self).wf(),
            old(self).sta_claim(*final(self), mode),
    {
        proof {
            reveal(CPU::sta_claim);
        }
        let (addr, _) = self.get_operand(mode);
        let value = self.a;
        self.bus.mem_write(addr, value);
    }

    /// Store X; no flags.
    pub fn stx(&mut self, mode: AddressMode)
        requires
            old(self).wf(),
            is_operand_mode(mode),
        ensures
            final(self).pc == old(self).pc,
            final(self).wf(),
            old(self).stx_claim(*final(self), mode),
    {
        proof {
            reveal(CPU::stx_claim);
        }
        let (addr, _) = self.get_operand(mode);
        let value = self.x;
        self.bus.mem_write(addr, value);
    }

    /// Store Y; no flags.
    pub fn sty(&mut self, mode: AddressMode)
        requires
            old(self).wf(),
            is_operand_mode(mode),
        ensures
            final(self).pc == old(self).pc,
            final(self).wf(),
            old(self).sty_claim(*final(self), mode),
    {
        proof {
            reveal(CPU::sty_claim);
        }
        let (addr, _) = self.get_operand(mode);
        let value = self.y;
        self.bus.mem_write(addr, value);
    }

    /// Increment a memory byte; Z and N from the new value.
    pub fn inc(&mut self, mode: AddressMode)
        requires
            old(self).wf(),
            is_operand_mode(mode),
        ensures
            final(self).pc == old(self).pc,
            final(self).wf(),
            old(self).inc_claim(*final(self), mode),
    {
        proof {
            reveal(CPU::inc_claim);
        }
        let (addr, _) = self.get_operand(mode);
        let value = self.bus.mem_read(addr).wrapping_add(1);
        self.bus.mem_write(addr, value);
        self.update_zero_and_negative_flags(value);
    }

    /// Decrement a memory byte; Z and N from the new value.
    pub fn dec(&mut self, mode: AddressMode)
        requires
            old(self).wf(),
            is_operand_mode(mode),
        ensures
            final(self).pc == old(self).pc,
            final(self).wf(),
            old(self).dec_claim(*final(self), mode),
    {
        proof {
            reveal(CPU::dec_claim);
        }
        let (addr, _) = self.get_operand(mode);
        let value = self.bus.mem_read(addr).wrapping_sub(1);
        self.bus.mem_write(addr, value);
        self.update_zero_and_negative_flags(value);
    }

    /// Arithmetic shift left on memory: C takes bit 7, Z and N from the
    /// result.
    pub fn asl(&mut self, mode: AddressMode)
        requires
            old(self).wf(),
            is_operand_mode(mode),
        ensures
            final(self).pc == old(self).pc,
            final(self).wf(),
            old(self).asl_claim(*final(self), mode),
    {
        proof {
            reveal(CPU::asl_claim);
        }
        let (addr, _) = self.get_operand(mode);
        let value = self.bus.mem_read(addr);
        self.set_flag(FLAG_CARRY, value & 0x80 != 0);
        let result = value.wrapping_mul(2);
        self.bus.mem_write(addr, result);
        self.update_zero_and_negative_flags(result);
    }

    /// Logical shift right on memory: C takes bit 0, Z from the result,
    /// N always cleared.
    pub fn lsr(&mut self, mode: AddressMode)
        requires
            old(self).wf(),
            is_operand_mode(mode),
        ensures
            final(self).pc == old(self).pc,
            final(self).wf(),
            old(self).lsr_claim(*final(self), mode),
    {
        proof {
            reveal(CPU::lsr_claim);
        }
        let (addr, _) = self.get_operand(mode);
        let value = self.bus.mem_read(addr);
        let result = value / 2;
        self.bus.mem_write(addr, result);
        self.set_flag(FLAG_CARRY, value & 0x01 != 0);
        self.set_flag(FLAG_ZERO, result == 0);
        self.set_flag(FLAG_NEGATIVE, false);
    }

    /// Rotate a memory byte left through carry; Z and N from the
    /// result.
    pub fn rol(&mut self, mode: AddressMode)
        requires
            old(self).wf(),
            is_operand_mode(mode),
        ensures
            final(self).pc == old(self).pc,
            final(self).wf(),
            old(self).rol_claim(*final(self), mode),
    {
        proof {
            reveal(CPU::rol_claim);
        }
        let (addr, _) = self.get_operand(mode);
        let value = self.bus.mem_read(addr);
        let result = self.rotate_left(value);
        self.bus.mem_write(addr, result);
        self.update_zero_and_negative_flags(result);
    }

    /// Rotate a memory byte right through carry; Z and N from the
    /// result.
    pub fn ror(&mut self, mode: AddressMode)
        requires
            old(self).wf(),
            is_operand_mode(mode),
        ensures
            final(self).pc == old(self).pc,
            final(self).wf(),
            old(self).ror_claim(*final(self), mode),
    {
        proof {
            reveal(CPU::ror_claim);
        }
        let (addr, _) = self.get_operand(mode);
        let value = self.bus.mem_read(addr);
        let result = self.rotate_right(value);
        self.bus.mem_write(addr, result);
        self.update_zero_and_negative_flags(result);
    }

    /// Arithmetic shift left on the accumulator.
    pub fn asl_accumulator(&mut self)
        ensures
            final(self).pc == old(self).pc,
            final(self).bus == old(self).bus,
            old(self).asl_accumulator_claim(*final(self)),
    {
        proof {
            reveal(CPU::asl_accumulator_claim);
        }
        let value = self.a;
        self.set_flag(FLAG_CARRY, value & 0x80 != 0);
        let result = value.wrapping_mul(2);
        self.a = result;
        self.update_zero_and_negative_flags(result);
    }

    /// Logical shift right on the accumulator; N is always cleared.
    pub fn lsr_accumulator(&mut self)
        ensures
            final(self).pc == old(self).pc,
            final(self).bus == old(self).bus,
            old(self).lsr_accumulator_claim(*final(self)),
    {
        proof {
            reveal(CPU::lsr_accumulator_claim);
        }
        let value = self.a;
        self.set_flag(FLAG_CARRY, value & 0x01 != 0);
        self.a = value / 2;
        let result = self.a;
        self.update_zero_and_negative_flags(result);
    }

    /// Rotate the accumulator left through carry.
    pub fn rol_accumulator(&mut self)
        ensures
            final(self).pc == old(self).pc,
            final(self).bus == old(self).bus,
            old(self).rol_accumulator_claim(*final(self)),
    {
        proof {
            reveal(CPU::rol_accumulator_claim);
        }
        let value = self.a;
        let result = self.rotate_left(value);
        self.a = result;
        self.update_zero_and_negative_flags(result);
    }

    /// Rotate the accumulator right through carry.
    pub fn ror_accumulator(&mut self)
        ensures
            final(self).pc == old(self).pc,
            final(self).bus == old(self).bus,
            old(self).ror_accumulator_claim(*final(self)),
    {
        proof {
            reveal(CPU::ror_accumulator_claim);
        }
        let value = self.a;
        let result = self.rotate_right(value);
        self.a = result;
        self.update_zero_and_negative_flags(result);
    }
}

impl CPU {
    /// What a taken or not-taken branch does: a not-taken branch changes
    /// nothing; a taken one burns a cycle, reads the offset at PC, jumps
    /// relative to the byte after it, and burns one more cycle when the
    /// jump crosses a page.
    pub open spec fn branch_claim(self, post: CPU, taken: bool) -> bool {
        if !taken {
            post == self
        } else {
            let s1 = self.after_tick(1);
            let off = s1.mem_value(self.pc);
            let target = self.pc.wrapping_add(1).wrapping_add(sign_extend(off));
            let s2 = s1.after_read(self.pc);
            let crossed = page_cross_spec(self.pc.wrapping_add(1), target);
            post == (CPU { pc: target, ..ticked_if(s2, crossed) })
        }
    }

    /// Whether the branch opcode `op` takes its jump in this state.
    pub open spec fn branch_taken(self, op: u8) -> bool {
        match op {
            0x90 => !self.flag(FLAG_CARRY),
            0xB0 => self.flag(FLAG_CARRY),
            0xF0 => self.flag(FLAG_ZERO),
            0x30 => self.flag(FLAG_NEGATIVE),
            0xD0 => !self.flag(FLAG_ZERO),
            0x10 => !self.flag(FLAG_NEGATIVE),
            0x50 => !self.flag(FLAG_OVERFLOW),
            0x70 => self.flag(FLAG_OVERFLOW),
            _ => false,
        }
    }

    /// The shared body of the eight conditional branches.
    fn branch_if(&mut self, condition: bool)
        requires
            old(self).wf(),
        ensures
            final(self).wf(),
            old(self).branch_claim(*final(self), condition),
    {
        if condition {
            let _ = self.bus.tick(1);
            let jump = self.bus.mem_read(self.pc);
            let ext: u16 = if jump < 0x80 {
                jump as u16
            } else {
                jump as u16 + 0xFF00
            };
            let jump_addr = self.pc.wrapping_add(1).wrapping_add(ext);
            if page_cross(self.pc.wrapping_add(1), jump_addr) {
                let _ = self.bus.tick(1);
            }
            self.pc = jump_addr;
        }
    }

    /// Branch when carry is clear.
    pub fn bcc(&mut self)
        requires
            old(self).wf(),
        ensures
            final(self).wf(),
            old(self).branch_claim(*final(self), !old(self).flag(FLAG_CARRY)),
    {
        let c = self.get_flag(FLAG_CARRY);
        self.branch_if(!c);
    }

    /// Branch when carry is set.
    pub fn bcs(&mut self)
        requires
            old(self).wf(),
        ensures
            final(self).wf(),
            old(self).branch_claim(*final(self), old(self).flag(FLAG_CARRY)),
    {
        let c = self.get_flag(FLAG_CARRY);
        self.branch_if(c);
    }

    /// Branch when the zero flag is set.
    pub fn beq(&mut self)
        requires
            old(self).wf(),
        ensures
            final(self).wf(),
            old(self).branch_claim(*final(self), old(self).flag(FLAG_ZERO)),
    {
        let z = self.get_flag(FLAG_ZERO);
        self.branch_if(z);
    }

    /// Branch when the negative flag is set.
    pub fn bmi(&mut self)
        requires
            old(self).wf(),
        ensures
            final(self).wf(),
            old(self).branch_claim(*final(self), old(self).flag(FLAG_NEGATIVE)),
    {
        let n = self.get_flag(FLAG_NEGATIVE);
        self.branch_if(n);
    }

    /// Branch when the zero flag is clear.
    pub fn bne(&mut self)
        requires
            old(self).wf(),
        ensures
            final(self).wf(),
            old(self).branch_claim(*final(self), !old(self).flag(FLAG_ZERO)),
    {
        let z = self.get_flag(FLAG_ZERO);
        self.branch_if(!z);
    }

    /// Branch when the negative flag is clear.
    pub fn bpl(&mut self)
        requires
            old(self).wf(),
        ensures
            final(self).wf(),
            old(self).branch_claim(*final(self), !old(self).flag(FLAG_NEGATIVE)),
    {
        let n = self.get_flag(FLAG_NEGATIVE);
        self.branch_if(!n);
    }

    /// Branch when overflow is clear.
    pub fn bvc(&mut self)
        requires
            old(self).wf(),
        ensures
            final(self).wf(),
            old(self).branch_claim(*final(self), !old(self).flag(FLAG_OVERFLOW)),
    {
        let v = self.get_flag(FLAG_OVERFLOW);
        self.branch_if(!v);
    }

    /// Branch when overflow is set.
    pub fn bvs(&mut self)
        requires
            old(self).wf(),
        ensures
            final(self).wf(),
            old(self).branch_claim(*final(self), old(self).flag(FLAG_OVERFLOW)),
    {
        let v = self.get_flag(FLAG_OVERFLOW);
        self.branch_if(v);
    }

    /// Jump: PC takes the resolved address (with the page-wrap quirk
    /// under the indirect mode).
    pub fn jmp(&mut self, mode: AddressMode)
        requires
            old(self).wf(),
            is_operand_mode(mode),
        ensures
            final(self).wf(),
            old(self).jmp_claim(*final(self), mode),
    {
        proof {
            reveal(CPU::jmp_claim);
        }
        let (addr, _) = self.get_operand(mode);
        self.pc = addr;
    }

    /// Jump to subroutine: push the address of the encoding's last byte,
    /// then jump.
    pub fn jsr(&mut self)
        requires
            old(self).wf(),
        ensures
            final(self).wf(),
            old(self).jsr_claim(*final(self)),
    {
        proof {
            reveal(CPU::jsr_claim);
        }
        let addr = self.fetch_word();
        let ret = self.pc.wrapping_sub(1);
        self.push_word(ret);
        self.pc = addr;
    }

    /// Return from subroutine: pop low then high, add one.
    pub fn rts(&mut self)
        requires
            old(self).wf(),
        ensures
            final(self).wf(),
            old(self).rts_claim(*final(self)),
    {
        proof {
            reveal(CPU::rts_claim);
        }
        let pcl = self.pop() as u16;
        let pch = self.pop() as u16;
        self.pc = (pch * 256 + pcl).wrapping_add(1);
    }

    /// Return from interrupt: pop the status byte (Break forced clear,
    /// the unused bit forced set), then pop PC without the extra one.
    pub fn rti(&mut self)
        requires
            old(self).wf(),
        ensures
            final(self).wf(),
            old(self).rti_claim(*final(self)),
    {
        proof {
            reveal(CPU::rti_claim);
        }
        let flags = self.pop();
        self.status = (flags & !FLAG_BREAK) | FLAG_UNUSED;
        let pcl = self.pop() as u16;
        let pch = self.pop() as u16;
        self.pc = pch * 256 + pcl;
    }

    /// Software interrupt: advance PC past the padding byte, push PC and
    /// the status byte with Break set, set InterruptDisable, and load PC
    /// from the vector at `0xFFFE`/`0xFFFF`.
    pub fn brk(&mut self)
        requires
            old(self).wf(),
        ensures
            final(self).wf(),
            final(self).flag(FLAG_INTERRUPT),
            old(self).brk_claim(*final(self)),
    {
        proof {
            reveal(CPU::brk_claim);
        }
        self.pc = self.pc.wrapping_add(1);
        self.interrupt(crate::cpu::InterruptType::BRK);
    }

    /// No operation.
    pub fn nop(&mut self)
        ensures
            *final(self) == *old(self),
    {
    }

    /// Push the accumulator.
    pub fn pha(&mut self)
        requires
            old(self).wf(),
        ensures
            final(self).wf(),
            old(self).push_claim(*final(self), old(self).a),
    {
        let a = self.a;
        self.push(a);
    }

    /// Push the status byte with Break and the unused bit forced on.
    pub fn php(&mut self)
        requires
            old(self).wf(),
        ensures
            final(self).wf(),
            old(self).push_claim(*final(self), old(self).status | (FLAG_BREAK | FLAG_UNUSED)),
    {
        self.push_status();
    }

    /// Pop into the accumulator; Z and N from the value.
    pub fn pla(&mut self)
        requires
            old(self).wf(),
        ensures
            final(self).pc == old(self).pc,
            final(self).bus == old(self).bus,
            final(self).wf(),
            old(self).pla_claim(*final(self)),
    {
        proof {
            reveal(CPU::pla_claim);
        }
        let value = self.pop();
        self.a = value;
        self.update_zero_and_negative_flags(value);
    }

    /// Pop the status byte, forcing Break clear and the unused bit set.
    pub fn plp(&mut self)
        requires
            old(self).wf(),
        ensures
            final(self).pc == old(self).pc,
            final(self).bus == old(self).bus,
            final(self).wf(),
            old(self).plp_claim(*final(self)),
    {
        proof {
            reveal(CPU::plp_claim);
        }
        let flags = self.pop();
        self.status = (flags & !FLAG_BREAK) | FLAG_UNUSED;
    }

    /// Increment X; Z and N from the result.
    pub fn inx(&mut self)
        ensures
            final(self).pc == old(self).pc,
            final(self).bus == old(self).bus,
            old(self).inx_claim(*final(self)),
    {
        proof {
            reveal(CPU::inx_claim);
        }
        self.x = self.x.wrapping_add(1);
        let x = self.x;
        self.update_zero_and_negative_flags(x);
    }

    /// Increment Y; Z and N from the result.
    pub fn iny(&mut self)
        ensures
            final(self).pc == old(self).pc,
            final(self).bus == old(self).bus,
            old(self).iny_claim(*final(self)),
    {
        proof {
            reveal(CPU::iny_claim);
        }
        self.y = self.y.wrapping_add(1);
        let y = self.y;
        self.update_zero_and_negative_flags(y);
    }

    /// Decrement X; Z and N from the result.
    pub fn dex(&mut self)
        ensures
            final(self).pc == old(self).pc,
            final(self).bus == old(self).bus,
            old(self).dex_claim(*final(self)),
    {
        proof {
            reveal(CPU::dex_claim);
        }
        self.x = self.x.wrapping_sub(1);
        let x = self.x;
        self.update_zero_and_negative_flags(x);
    }

    /// Decrement Y; Z and N from the result.
    pub fn dey(&mut self)
        ensures
            final(self).pc == old(self).pc,
            final(self).bus == old(self).bus,
            old(self).dey_claim(*final(self)),
    {
        proof {
            reveal(CPU::dey_claim);
        }
        self.y = self.y.wrapping_sub(1);
        let y = self.y;
        self.update_zero_and_negative_flags(y);
    }

    /// Transfer A to X; Z and N from the value.
    pub fn tax(&mut self)
        ensures
            final(self).pc == old(self).pc,
            final(self).bus == old(self).bus,
            old(self).tax_claim(*final(self)),
    {
        proof {
            reveal(CPU::tax_claim);
        }
        self.x = self.a;
        let x = self.x;
        self.update_zero_and_negative_flags(x);
    }

    /// Transfer A to Y; Z and N from the value.
    pub fn tay(&mut self)
        ensures
            final(self).pc == old(self).pc,
            final(self).bus == old(self).bus,
            old(self).tay_claim(*final(self)),
    {
        proof {
            reveal(CPU::tay_claim);
        }
        self.y = self.a;
        let y = self.y;
        self.update_zero_and_negative_flags(y);
    }

    /// Transfer SP to X; Z and N from the value.
    pub fn tsx(&mut self)
        ensures
            final(self).pc == old(self).pc,
            final(self).bus == old(self).bus,
            old(self).tsx_claim(*final(self)),
    {
        proof {
            reveal(CPU::tsx_claim);
        }
        self.x = self.sp;
        let x = self.x;
        self.update_zero_and_negative_flags(x);
    }

    /// Transfer X to A; Z and N from the value.
    pub fn txa(&mut self)
        ensures
            final(self).pc == old(self).pc,
            final(self).bus == old(self).bus,
            old(self).txa_claim(*final(self)),
    {
        proof {
            reveal(CPU::txa_claim);
        }
        self.a = self.x;
        let a = self.a;
        self.update_zero_and_negative_flags(a);
    }

    /// Transfer Y to A; Z and N from the value.
    pub fn tya(&mut self)
        ensures
            final(self).pc == old(self).pc,
            final(self).bus == old(self).bus,
            old(self).tya_claim(*final(self)),
    {
        proof {
            reveal(CPU::tya_claim);
        }
        self.a = self.y;
        let a = self.a;
        self.update_zero_and_negative_flags(a);
    }

    /// Transfer X to SP; no flags.
    pub fn txs(&mut self)
        ensures
            final(self).pc == old(self).pc,
            final(self).bus == old(self).bus,
            old(self).txs_claim(*final(self)),
    {
        proof {
            reveal(CPU::txs_claim);
        }
        self.sp = self.x;
    }

    /// Clear carry.
    pub fn clc(&mut self)
        ensures
            final(self).pc == old(self).pc,
            final(self).bus == old(self).bus,
            old(self).clc_claim(*final(self)),
    {
        proof {
            reveal(CPU::clc_claim);
        }
        self.set_flag(FLAG_CARRY, false);
    }

    /// Clear the decimal flag (stored but never interpreted).
    pub fn cld(&mut self)
        ensures
            final(self).pc == old(self).pc,
            final(self).bus == old(self).bus,
            old(self).cld_claim(*final(self)),
    {
        proof {
            reveal(CPU::cld_claim);
        }
        self.set_flag(FLAG_DECIMAL, false);
    }

    /// Clear InterruptDisable.
    pub fn cli(&mut self)
        ensures
            final(self).pc == old(self).pc,
            final(self).bus == old(self).bus,
            old(self).cli_claim(*final(self)),
    {
        proof {
            reveal(CPU::cli_claim);
        }
        self.set_flag(FLAG_INTERRUPT, false);
    }

    /// Clear overflow.
    pub fn clv(&mut self)
        ensures
            final(self).pc == old(self).pc,
            final(self).bus == old(self).bus,
            old(self).clv_claim(*final(self)),
    {
        proof {
            reveal(CPU::clv_claim);
        }
        self.set_flag(FLAG_OVERFLOW, false);
    }

    /// Set carry.
    pub fn sec(&mut self)
        ensures
            final(self).pc == old(self).pc,
            final(self).bus == old(self).bus,
            old(self).sec_claim(*final(self)),
    {
        proof {
            reveal(CPU::sec_claim);
        }
        self.set_flag(FLAG_CARRY, true);
    }

    /// Set the decimal flag (stored but never interpreted).
    pub fn sed(&mut self)
        ensures
            final(self).pc == old(self).pc,
            final(self).bus == old(self).bus,
            old(self).sed_claim(*final(self)),
    {
        proof {
            reveal(CPU::sed_claim);
        }
        self.set_flag(FLAG_DECIMAL, true);
    }

    /// Set InterruptDisable.
    pub fn sei(&mut self)
        ensures
            final(self).pc == old(self).pc,
            final(self).bus == old(self).bus,
            old(self).sei_claim(*final(self)),
    {
        proof {
            reveal(CPU::sei_claim);
        }
        self.set_flag(FLAG_INTERRUPT, true);
    }
}

/// Binary add with carry, modulo 256.
pub open spec fn adc_value(a: u8, m: u8, c: bool) -> u8 {
    ((a + m + (if c {
        1int
    } else {
        0int
    })) % 256) as u8
}

/// Whether the 9-bit sum carried out.
pub open spec fn adc_carry(a: u8, m: u8, c: bool) -> bool {
    a + m + (if c {
        1int
    } else {
        0int
    }) > 255
}

/// Signed overflow of an add: the operands agree in sign and the result
/// disagrees.
pub open spec fn overflow_flag(a: u8, m: u8, r: u8) -> bool {
    (a ^ m) & 0x80 == 0 && (a ^ r) & 0x80 != 0
}

/// The status byte ADC leaves: Z and N from the result, C from the
/// 9-bit sum, V from the sign rule.
pub open spec fn adc_status(status: u8, a: u8, m: u8, c: bool) -> u8 {
    apply_mask(
        apply_mask(zn_flags(status, adc_value(a, m, c)), FLAG_CARRY, adc_carry(a, m, c)),
        FLAG_OVERFLOW,
        overflow_flag(a, m, adc_value(a, m, c)),
    )
}

/// The status byte a compare leaves: C for register at least the
/// operand, Z for equality, N from bit 7 of the difference.
pub open spec fn cmp_status(status: u8, reg: u8, m: u8) -> u8 {
    apply_mask(
        apply_mask(
            apply_mask(status, FLAG_CARRY, reg >= m),
            FLAG_ZERO,
            reg == m,
        ),
        FLAG_NEGATIVE,
        reg.wrapping_sub(m) & 0x80 != 0,
    )
}

/// A rotate left through carry.
pub open spec fn rol_result(v: u8, c: bool) -> u8 {
    v.wrapping_mul(2) | (if c {
        1u8
    } else {
        0u8
    })
}

/// A rotate right through carry.
pub open spec fn ror_result(v: u8, c: bool) -> u8 {
    (v / 2) | (if c {
        0x80u8
    } else {
        0u8
    })
}

impl CPU {
    /// What `brk` does: PC skips the padding byte and is pushed high
    /// then low, then the status copy with Break and the unused bit
    /// set; InterruptDisable is set; PC holds the little-endian word at
    /// `0xFFFE`/`0xFFFF`.
    #[verifier::opaque]
    pub open spec fn brk_claim(self, post: CPU) -> bool {
        &&& post.status == (self.status | FLAG_INTERRUPT)
        &&& post.pc == (self.bus.mem.prg_byte(0xFFFF) * 256 + self.bus.mem.prg_byte(
            0xFFFE,
        )) as u16
        &&& post.sp == self.sp.wrapping_sub(3)
        &&& post.a == self.a
        &&& post.x == self.x
        &&& post.y == self.y
        &&& post.bus.mem.cpu_ram@ == self.bus.mem.cpu_ram@.update(
            crate::cpu::STACK_BASE + self.sp,
            (self.pc.wrapping_add(1) / 256) as u8,
        ).update(
            crate::cpu::STACK_BASE + self.sp.wrapping_sub(1),
            (self.pc.wrapping_add(1) % 256) as u8,
        ).update(
            crate::cpu::STACK_BASE + self.sp.wrapping_sub(2),
            self.status | (FLAG_BREAK | FLAG_UNUSED),
        )
        &&& post.bus.mem.ppu == self.bus.mem.ppu
        &&& post.bus.mem.prg_rom == self.bus.mem.prg_rom
        &&& post.bus.cycles == self.bus.cycles
    }

    /// What `lda` does, as a relation between the old and new state.
    #[verifier::opaque]
    pub open spec fn lda_claim(self, post: CPU, mode: AddressMode) -> bool {
        post == (CPU {
                a: self.operand_value(mode),
                status: zn_flags(self.status, self.operand_value(mode)),
                ..self.loaded_state(mode)
            })
    }

    /// What `ldx` does, as a relation between the old and new state.
    #[verifier::opaque]
    pub open spec fn ldx_claim(self, post: CPU, mode: AddressMode) -> bool {
        post == (CPU {
                x: self.operand_value(mode),
                status: zn_flags(self.status, self.operand_value(mode)),
                ..self.loaded_state(mode)
            })
    }

    /// What `ldy` does, as a relation between the old and new state.
    #[verifier::opaque]
    pub open spec fn ldy_claim(self, post: CPU, mode: AddressMode) -> bool {
        post == (CPU {
                y: self.operand_value(mode),
                status: zn_flags(self.status, self.operand_value(mode)),
                ..self.loaded_state(mode)
            })
    }

    /// What `and` does, as a relation between the old and new state.
    #[verifier::opaque]
    pub open spec fn and_claim(self, post: CPU, mode: AddressMode) -> bool {
        post == (CPU {
                a: self.a & self.operand_value(mode),
                status: zn_flags(self.status, self.a & self.operand_value(mode)),
                ..self.loaded_state(mode)
            })
    }

    /// What `eor` does, as a relation between the old and new state.
    #[verifier::opaque]
    pub open spec fn eor_claim(self, post: CPU, mode: AddressMode) -> bool {
        post == (CPU {
                a: self.a ^ self.operand_value(mode),
                status: zn_flags(self.status, self.a ^ self.operand_value(mode)),
                ..self.loaded_state(mode)
            })
    }

    /// What `ora` does, as a relation between the old and new state.
    #[verifier::opaque]
    pub open spec fn ora_claim(self, post: CPU, mode: AddressMode) -> bool {
        post == (CPU {
                a: self.a | self.operand_value(mode),
                status: zn_flags(self.status, self.a | self.operand_value(mode)),
                ..self.loaded_state(mode)
            })
    }

    /// What `adc` does, as a relation between the old and new state.
    #[verifier::opaque]
    pub open spec fn adc_claim(self, post: CPU, mode: AddressMode) -> bool {
        post == (CPU {
                a: adc_value(
                    self.a,
                    self.operand_value(mode),
                    self.flag(FLAG_CARRY),
                ),
                status: adc_status(
                    self.status,
                    self.a,
                    self.operand_value(mode),
                    self.flag(FLAG_CARRY),
                ),
                ..self.loaded_state(mode)
            })
    }

    /// What `sbc` does, as a relation between the old and new state.
    #[verifier::opaque]
    pub open spec fn sbc_claim(self, post: CPU, mode: AddressMode) -> bool {
        post == (CPU {
                a: adc_value(
                    self.a,
                    self.operand_value(mode) ^ 0xFF,
                    self.flag(FLAG_CARRY),
                ),
                status: adc_status(
                    self.status,
                    self.a,
                    self.operand_value(mode) ^ 0xFF,
                    self.flag(FLAG_CARRY),
                ),
                ..self.loaded_state(mode)
            })
    }

    /// What `cmp` does, as a relation between the old and new state.
    #[verifier::opaque]
    pub open spec fn cmp_claim(self, post: CPU, mode: AddressMode) -> bool {
        post == (CPU {
                status: cmp_status(self.status, self.a, self.operand_value(mode)),
                ..self.loaded_state(mode)
            })
    }

    /// What `cpx` does, as a relation between the old and new state.
    #[verifier::opaque]
    pub open spec fn cpx_claim(self, post: CPU, mode: AddressMode) -> bool {
        post == (CPU {
                status: cmp_status(self.status, self.x, self.operand_value(mode)),
                ..self.loaded_state(mode)
            })
    }

    /// What `cpy` does, as a relation between the old and new state.
    #[verifier::opaque]
    pub open spec fn cpy_claim(self, post: CPU, mode: AddressMode) -> bool {
        post == (CPU {
                status: cmp_status(self.status, self.y, self.operand_value(mode)),
                ..self.loaded_state(mode)
            })
    }

    /// What `bit` does, as a relation between the old and new state.
    #[verifier::opaque]
    pub open spec fn bit_claim(self, post: CPU, mode: AddressMode) -> bool {
        post == (CPU {
                status: apply_mask(
                    apply_mask(
                        apply_mask(
                            self.status,
                            FLAG_ZERO,
                            self.a & self.operand_value(mode) == 0,
                        ),
                        FLAG_NEGATIVE,
                        self.operand_value(mode) & 0x80 != 0,
                    ),
                    FLAG_OVERFLOW,
                    self.operand_value(mode) & 0x40 != 0,
                ),
                ..self.after_operand(mode)
            })
    }

    /// What `sta` does, as a relation between the old and new state.
    #[verifier::opaque]
    pub open spec fn sta_claim(self, post: CPU, mode: AddressMode) -> bool {
        &&& (bus_write_claim(
                self.operand_post(mode).bus,
                post.bus,
                self.operand_addr(mode),
                self.a,
            ))
        &&& (post == (CPU { bus: post.bus, ..self }))
    }

    /// What `stx` does, as a relation between the old and new state.
    #[verifier::opaque]
    pub open spec fn stx_claim(self, post: CPU, mode: AddressMode) -> bool {
        &&& (bus_write_claim(
                self.operand_post(mode).bus,
                post.bus,
                self.operand_addr(mode),
                self.x,
            ))
        &&& (post == (CPU { bus: post.bus, ..self }))
    }

    /// What `sty` does, as a relation between the old and new state.
    #[verifier::opaque]
    pub open spec fn sty_claim(self, post: CPU, mode: AddressMode) -> bool {
        &&& (bus_write_claim(
                self.operand_post(mode).bus,
                post.bus,
                self.operand_addr(mode),
                self.y,
            ))
        &&& (post == (CPU { bus: post.bus, ..self }))
    }

    /// What `inc` does, as a relation between the old and new state.
    #[verifier::opaque]
    pub open spec fn inc_claim(self, post: CPU, mode: AddressMode) -> bool {
        &&& (bus_write_claim(
                self.after_operand(mode).bus,
                post.bus,
                self.operand_addr(mode),
                self.operand_value(mode).wrapping_add(1),
            ))
        &&& (post == (CPU {
                status: zn_flags(self.status, self.operand_value(mode).wrapping_add(1)),
                bus: post.bus,
                ..self
            }))
    }

    /// What `dec` does, as a relation between the old and new state.
    #[verifier::opaque]
    pub open spec fn dec_claim(self, post: CPU, mode: AddressMode) -> bool {
        &&& (bus_write_claim(
                self.after_operand(mode).bus,
                post.bus,
                self.operand_addr(mode),
                self.operand_value(mode).wrapping_sub(1),
            ))
        &&& (post == (CPU {
                status: zn_flags(self.status, self.operand_value(mode).wrapping_sub(1)),
                bus: post.bus,
                ..self
            }))
    }

    /// What `asl` does, as a relation between the old and new state.
    #[verifier::opaque]
    pub open spec fn asl_claim(self, post: CPU, mode: AddressMode) -> bool {
        &&& (bus_write_claim(
                self.after_operand(mode).bus,
                post.bus,
                self.operand_addr(mode),
                self.operand_value(mode).wrapping_mul(2),
            ))
        &&& (post == (CPU {
                status: zn_flags(
                    apply_mask(
                        self.status,
                        FLAG_CARRY,
                        self.operand_value(mode) & 0x80 != 0,
                    ),
                    self.operand_value(mode).wrapping_mul(2),
                ),
                bus: post.bus,
                ..self
            }))
    }

    /// What `lsr` does, as a relation between the old and new state.
    #[verifier::opaque]
    pub open spec fn lsr_claim(self, post: CPU, mode: AddressMode) -> bool {
        &&& (bus_write_claim(
                self.after_operand(mode).bus,
                post.bus,
                self.operand_addr(mode),
                self.operand_value(mode) / 2,
            ))
        &&& (post == (CPU {
                status: apply_mask(
                    apply_mask(
                        apply_mask(
                            self.status,
                            FLAG_CARRY,
                            self.operand_value(mode) & 0x01 != 0,
                        ),
                        FLAG_ZERO,
                        self.operand_value(mode) / 2 == 0,
                    ),
                    FLAG_NEGATIVE,
                    false,
                ),
                bus: post.bus,
                ..self
            }))
    }

    /// What `rol` does, as a relation between the old and new state.
    #[verifier::opaque]
    pub open spec fn rol_claim(self, post: CPU, mode: AddressMode) -> bool {
        &&& (bus_write_claim(
                self.after_operand(mode).bus,
                post.bus,
                self.operand_addr(mode),
                rol_result(self.operand_value(mode), self.flag(FLAG_CARRY)),
            ))
        &&& (post == (CPU {
                status: zn_flags(
                    apply_mask(
                        self.status,
                        FLAG_CARRY,
                        self.operand_value(mode) & 0x80 != 0,
                    ),
                    rol_result(self.operand_value(mode), self.flag(FLAG_CARRY)),
                ),
                bus: post.bus,
                ..self
            }))
    }

    /// What `ror` does, as a relation between the old and new state.
    #[verifier::opaque]
    pub open spec fn ror_claim(self, post: CPU, mode: AddressMode) -> bool {
        &&& (bus_write_claim(
                self.after_operand(mode).bus,
                post.bus,
                self.operand_addr(mode),
                ror_result(self.operand_value(mode), self.flag(FLAG_CARRY)),
            ))
        &&& (post == (CPU {
                status: zn_flags(
                    apply_mask(
                        self.status,
                        FLAG_CARRY,
                        self.operand_value(mode) & 0x01 != 0,
                    ),
                    ror_result(self.operand_value(mode), self.flag(FLAG_CARRY)),
                ),
                bus: post.bus,
                ..self
            }))
    }

    /// What `jmp` does, as a relation between the old and new state.
    #[verifier::opaque]
    pub open spec fn jmp_claim(self, post: CPU, mode: AddressMode) -> bool {
        post == (CPU {
                pc: self.operand_addr(mode),
                ..self.operand_post(mode)
            })
    }

    /// What `asl_accumulator` does, as a relation between the old and new state.
    #[verifier::opaque]
    pub open spec fn asl_accumulator_claim(self, post: CPU) -> bool {
        post == (CPU {
                a: self.a.wrapping_mul(2),
                status: zn_flags(
                    apply_mask(self.status, FLAG_CARRY, self.a & 0x80 != 0),
                    self.a.wrapping_mul(2),
                ),
                ..self
            })
    }

    /// What `lsr_accumulator` does, as a relation between the old and new state.
    #[verifier::opaque]
    pub open spec fn lsr_accumulator_claim(self, post: CPU) -> bool {
        post == (CPU {
                a: self.a / 2,
                status: zn_flags(
                    apply_mask(self.status, FLAG_CARRY, self.a & 0x01 != 0),
                    self.a / 2,
                ),
                ..self
            })
    }

    /// What `rol_accumulator` does, as a relation between the old and new state.
    #[verifier::opaque]
    pub open spec fn rol_accumulator_claim(self, post: CPU) -> bool {
        post == (CPU {
                a: rol_result(self.a, self.flag(FLAG_CARRY)),
                status: zn_flags(
                    apply_mask(self.status, FLAG_CARRY, self.a & 0x80 != 0),
                    rol_result(self.a, self.flag(FLAG_CARRY)),
                ),
                ..self
            })
    }

    /// What `ror_accumulator` does, as a relation between the old and new state.
    #[verifier::opaque]
    pub open spec fn ror_accumulator_claim(self, post: CPU) -> bool {
        post == (CPU {
                a: ror_result(self.a, self.flag(FLAG_CARRY)),
                status: zn_flags(
                    apply_mask(self.status, FLAG_CARRY, self.a & 0x01 != 0),
                    ror_result(self.a, self.flag(FLAG_CARRY)),
                ),
                ..self
            })
    }

    /// What `jsr` does, as a relation between the old and new state.
    #[verifier::opaque]
    pub open spec fn jsr_claim(self, post: CPU) -> bool {
        &&& (post.pc == self.word_value(self.pc))
        &&& ((CPU {
                pc: self.pc.wrapping_add(2),
                ..self.after_read_word(self.pc)
            }).push_word_claim(
                (CPU { pc: self.pc.wrapping_add(2), ..post }),
                self.pc.wrapping_add(2).wrapping_sub(1),
            ))
    }

    /// What `rts` does, as a relation between the old and new state.
    #[verifier::opaque]
    pub open spec fn rts_claim(self, post: CPU) -> bool {
        post == (CPU {
                pc: ((self.popped().pop_value() * 256 + self.pop_value())
                    as u16).wrapping_add(1),
                ..self.popped().popped()
            })
    }

    /// What `rti` does, as a relation between the old and new state.
    #[verifier::opaque]
    pub open spec fn rti_claim(self, post: CPU) -> bool {
        post == (CPU {
                status: (self.pop_value() & !FLAG_BREAK) | FLAG_UNUSED,
                pc: (self.popped().popped().pop_value() * 256
                    + self.popped().pop_value()) as u16,
                ..self.popped().popped().popped()
            })
    }

    /// What `pla` does, as a relation between the old and new state.
    #[verifier::opaque]
    pub open spec fn pla_claim(self, post: CPU) -> bool {
        post == (CPU {
                a: self.pop_value(),
                status: zn_flags(self.status, self.pop_value()),
                ..self.popped()
            })
    }

    /// What `plp` does, as a relation between the old and new state.
    #[verifier::opaque]
    pub open spec fn plp_claim(self, post: CPU) -> bool {
        post == (CPU {
                status: (self.pop_value() & !FLAG_BREAK) | FLAG_UNUSED,
                ..self.popped()
            })
    }

    /// What `inx` does, as a relation between the old and new state.
    #[verifier::opaque]
    pub open spec fn inx_claim(self, post: CPU) -> bool {
        post == (CPU {
                x: self.x.wrapping_add(1),
                status: zn_flags(self.status, self.x.wrapping_add(1)),
                ..self
            })
    }

    /// What `iny` does, as a relation between the old and new state.
    #[verifier::opaque]
    pub open spec fn iny_claim(self, post: CPU) -> bool {
        post == (CPU {
                y: self.y.wrapping_add(1),
                status: zn_flags(self.status, self.y.wrapping_add(1)),
                ..self
            })
    }

    /// What `dex` does, as a relation between the old and new state.
    #[verifier::opaque]
    pub open spec fn dex_claim(self, post: CPU) -> bool {
        post == (CPU {
                x: self.x.wrapping_sub(1),
                status: zn_flags(self.status, self.x.wrapping_sub(1)),
                ..self
            })
    }

    /// What `dey` does, as a relation between the old and new state.
    #[verifier::opaque]
    pub open spec fn dey_claim(self, post: CPU) -> bool {
        post == (CPU {
                y: self.y.wrapping_sub(1),
                status: zn_flags(self.status, self.y.wrapping_sub(1)),
                ..self
            })
    }

    /// What `tax` does, as a relation between the old and new state.
    #[verifier::opaque]
    pub open spec fn tax_claim(self, post: CPU) -> bool {
        post == (CPU {
                x: self.a,
                status: zn_flags(self.status, self.a),
                ..self
            })
    }

    /// What `tay` does, as a relation between the old and new state.
    #[verifier::opaque]
    pub open spec fn tay_claim(self, post: CPU) -> bool {
        post == (CPU {
                y: self.a,
                status: zn_flags(self.status, self.a),
                ..self
            })
    }

    /// What `tsx` does, as a relation between the old and new state.
    #[verifier::opaque]
    pub open spec fn tsx_claim(self, post: CPU) -> bool {
        post == (CPU {
                x: self.sp,
                status: zn_flags(self.status, self.sp),
                ..self
            })
    }

    /// What `txa` does, as a relation between the old and new state.
    #[verifier::opaque]
    pub open spec fn txa_claim(self, post: CPU) -> bool {
        post == (CPU {
                a: self.x,
                status: zn_flags(self.status, self.x),
                ..self
            })
    }

    /// What `tya` does, as a relation between the old and new state.
    #[verifier::opaque]
    pub open spec fn tya_claim(self, post: CPU) -> bool {
        post == (CPU {
                a: self.y,
                status: zn_flags(self.status, self.y),
                ..self
            })
    }

    /// What `txs` does, as a relation between the old and new state.
    #[verifier::opaque]
    pub open spec fn txs_claim(self, post: CPU) -> bool {
        post == (CPU { sp: self.x, ..self })
    }

    /// What `clc` does, as a relation between the old and new state.
    #[verifier::opaque]
    pub open spec fn clc_claim(self, post: CPU) -> bool {
        post == (CPU {
                status: apply_mask(self.status, FLAG_CARRY, false),
                ..self
            })
    }

    /// What `cld` does, as a relation between the old and new state.
    #[verifier::opaque]
    pub open spec fn cld_claim(self, post: CPU) -> bool {
        post == (CPU {
                status: apply_mask(self.status, FLAG_DECIMAL, false),
                ..self
            })
    }

    /// What `cli` does, as a relation between the old and new state.
    #[verifier::opaque]
    pub open spec fn cli_claim(self, post: CPU) -> bool {
        post == (CPU {
                status: apply_mask(self.status, FLAG_INTERRUPT, false),
                ..self
            })
    }

    /// What `clv` does, as a relation between the old and new state.
    #[verifier::opaque]
    pub open spec fn clv_claim(self, post: CPU) -> bool {
        post == (CPU {
                status: apply_mask(self.status, FLAG_OVERFLOW, false),
                ..self
            })
    }

    /// What `sec` does, as a relation between the old and new state.
    #[verifier::opaque]
    pub open spec fn sec_claim(self, post: CPU) -> bool {
        post == (CPU {
                status: apply_mask(self.status, FLAG_CARRY, true),
                ..self
            })
    }

    /// What `sed` does, as a relation between the old and new state.
    #[verifier::opaque]
    pub open spec fn sed_claim(self, post: CPU) -> bool {
        post == (CPU {
                status: apply_mask(self.status, FLAG_DECIMAL, true),
                ..self
            })
    }

    /// What `sei` does, as a relation between the old and new state.
    #[verifier::opaque]
    pub open spec fn sei_claim(self, post: CPU) -> bool {
        post == (CPU {
                status: apply_mask(self.status, FLAG_INTERRUPT, true),
                ..self
            })
    }
}

/// A store of the accumulator through the zero-page mode followed by a
/// load through the same mode is an identity on the accumulator: the
/// store lands in writable RAM and the load resolves the same address
/// (the operand byte sits in cartridge ROM, which the store cannot
/// touch) and reads the stored byte back.  `c1` is the state `sta`
/// leaves, described by its contract.
pub proof fn lemma_sta_lda_zero_page_identity(c0: CPU, c1: CPU)
    requires
        c0.wf(),
        c0.pc >= 0x8000,
        bus_write_claim(
            c0.operand_post(AddressMode::ZeroPage).bus,
            c1.bus,
            c0.operand_addr(AddressMode::ZeroPage),
            c0.a,
        ),
        c1 == (CPU { bus: c1.bus, ..c0 }),
    ensures
        c1.operand_addr(AddressMode::ZeroPage) == c0.operand_addr(AddressMode::ZeroPage),
        c1.operand_value(AddressMode::ZeroPage) == c0.a,
{
    reveal(CPU::operand_addr);
    reveal(CPU::operand_post);
}

/// An add with carry followed by a subtract (an add of the bitwise
/// complement) of the same operand with the carry-in inverted restores
/// the accumulator: the two 9-bit sums add up to exactly one full wrap.
pub proof fn lemma_adc_sbc_inverse(a: u8, m: u8, c: bool)
    ensures
        adc_value(adc_value(a, m, c), m ^ 0xFF, !c) == a,
{
    assert(m ^ 0xFFu8 == 255 - m) by (bit_vector);
    let cin = if c {
        1int
    } else {
        0int
    };
    let r1 = (a + m + cin) % 256;
    vstd::arithmetic::div_mod::lemma_add_mod_noop_right(
        a + m + cin,
        (255 - m) + (1 - cin),
        256,
    );
    assert((r1 + ((255 - m) + (1 - cin))) % 256 == (a + 256) % 256);
    vstd::arithmetic::div_mod::lemma_mod_add_multiples_vanish(a as int, 256);
    vstd::arithmetic::div_mod::lemma_small_mod(a as nat, 256);
}

} // verus!
