//! The VRAM address register: a 14-bit address filled one byte at a time
//! through the shared write latch, with post-increment on DATA access.

use vstd::prelude::*;

verus! {

pub struct AddrReg {
    /// High six bits of the address (the register is 14 bits wide).
    pub hi: u8,
    /// Low byte of the address.
    pub lo: u8,
    /// True when the next write fills the high byte.
    pub hi_latch: bool,
}

impl AddrReg {
    /// The high byte always fits in six bits.
    pub open spec fn wf(self) -> bool {
        self.hi < 0x40
    }

    /// The 14-bit address the register currently holds.
    pub open spec fn addr(self) -> u16 {
        (self.hi * 256 + self.lo) as u16
    }

    /// One write through the latch: the high byte (masked to 14 bits) on
    /// the first write, the low byte on the second, alternating.
    pub open spec fn spec_update(self, data: u8) -> AddrReg {
        if self.hi_latch {
            AddrReg { hi: (data % 0x40) as u8, lo: self.lo, hi_latch: false }
        } else {
            AddrReg { hi: self.hi, lo: data, hi_latch: true }
        }
    }

    /// The address after a post-increment, wrapping within 14 bits; the
    /// latch is untouched.
    pub open spec fn spec_increment(self, amount: u16) -> AddrReg {
        let sum = ((self.addr() + amount) % 0x4000) as u16;
        AddrReg { hi: (sum / 256) as u8, lo: (sum % 256) as u8, hi_latch: self.hi_latch }
    }

    pub fn new() -> (r: Self)
        ensures
            r.hi == 0,
            r.lo == 0,
            r.hi_latch == true,
            r.wf(),
    {
        AddrReg { hi: 0, lo: 0, hi_latch: true }
    }

    pub fn get(&self) -> (r: u16)
        requires
            self.wf(),
        ensures
            r == self.addr(),
            r < 0x4000,
    {
        (self.hi as u16) * 256 + (self.lo as u16)
    }

    pub fn update(&mut self, data: u8)
        requires
            old(self).wf(),
        ensures
            *final(self) == old(self).spec_update(data),
            final(self).wf(),
    {
        if self.hi_latch {
            self.hi = data % 0x40;
        } else {
            self.lo = data;
        }
        self.hi_latch = !self.hi_latch;
    }

    pub fn increment(&mut self, amount: u16)
        requires
            old(self).wf(),
        ensures
            *final(self) == old(self).spec_increment(amount),
            final(self).wf(),
    {
        let sum: u32 = (self.get() as u32 + amount as u32) % 0x4000;
        self.hi = (sum / 256) as u8;
        self.lo = (sum % 256) as u8;
    }

    pub fn reset_latch(&mut self)
        ensures
            final(self).hi == old(self).hi,
            final(self).lo == old(self).lo,
            final(self).hi_latch == true,
    {
        self.hi_latch = true;
    }
}

/// Starting with the latch reset, two writes fill the high byte then the
/// low byte — the address becomes `(hi % 0x40) * 256 + lo` — and leave
/// the latch reset again, so further write pairs keep alternating
/// high-byte, low-byte.
pub proof fn lemma_addr_two_writes(r: AddrReg, hi: u8, lo: u8)
    requires
        r.wf(),
        r.hi_latch,
    ensures
        r.spec_update(hi).spec_update(lo).addr() == (hi % 0x40) * 256 + lo,
        r.spec_update(hi).spec_update(lo).hi_latch,
        !r.spec_update(hi).hi_latch,
{
}

} // verus!
