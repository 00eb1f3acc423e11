//! The status register: sprite overflow, sprite-0 hit, and the
//! vertical-blank flag, packed into one byte.

use vstd::prelude::*;

verus! {

pub const STATUS_SPRITE_OVERFLOW: u8 = 0x20;
pub const STATUS_SPRITE_ZERO_HIT: u8 = 0x40;
pub const STATUS_VBLANK: u8 = 0x80;

/// Set or clear `mask` in `bits`.
pub open spec fn apply_mask(bits: u8, mask: u8, on: bool) -> u8 {
    if on {
        bits | mask
    } else {
        bits & !mask
    }
}

pub struct StatusReg {
    pub bits: u8,
}

impl StatusReg {
    pub open spec fn vblank(self) -> bool {
        self.bits & STATUS_VBLANK != 0
    }

    pub open spec fn sprite_zero_hit(self) -> bool {
        self.bits & STATUS_SPRITE_ZERO_HIT != 0
    }

    pub fn new() -> (r: Self)
        ensures
            r.bits == 0,
    {
        StatusReg { bits: 0 }
    }

    pub fn set_vblank_status(&mut self, status: bool)
        ensures
            final(self).bits == apply_mask(old(self).bits, STATUS_VBLANK, status),
    {
        if status {
            self.bits = self.bits | STATUS_VBLANK;
        } else {
            self.bits = self.bits & !STATUS_VBLANK;
        }
    }

    pub fn set_sprite_zero_hit(&mut self, status: bool)
        ensures
            final(self).bits == apply_mask(old(self).bits, STATUS_SPRITE_ZERO_HIT, status),
    {
        if status {
            self.bits = self.bits | STATUS_SPRITE_ZERO_HIT;
        } else {
            self.bits = self.bits & !STATUS_SPRITE_ZERO_HIT;
        }
    }

    pub fn set_sprite_overflow(&mut self, status: bool)
        ensures
            final(self).bits == apply_mask(old(self).bits, STATUS_SPRITE_OVERFLOW, status),
    {
        if status {
            self.bits = self.bits | STATUS_SPRITE_OVERFLOW;
        } else {
            self.bits = self.bits & !STATUS_SPRITE_OVERFLOW;
        }
    }

    pub fn reset_vblank_status(&mut self)
        ensures
            final(self).bits == apply_mask(old(self).bits, STATUS_VBLANK, false),
    {
        self.bits = self.bits & !STATUS_VBLANK;
    }

    pub fn is_in_vblank(&self) -> (r: bool)
        ensures
            r == self.vblank(),
    {
        self.bits & STATUS_VBLANK != 0
    }

    pub fn snapshot(&self) -> (r: u8)
        ensures
            r == self.bits,
    {
        self.bits
    }
}

} // verus!
