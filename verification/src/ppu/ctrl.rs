//! The control register: base nametable select, VRAM address increment,
//! pattern table selects, sprite size, and the NMI-on-vblank enable.

use vstd::prelude::*;

verus! {

pub const CTRL_VRAM_INC: u8 = 0x04;
pub const CTRL_NMI_ENABLE: u8 = 0x80;

pub struct CtrlRegister {
    pub bits: u8,
}

impl CtrlRegister {
    /// How far a DATA access moves the address register: 1, or 32 when
    /// the increment bit is set.
    pub open spec fn vram_step(self) -> u8 {
        if self.bits & CTRL_VRAM_INC != 0 {
            32
        } else {
            1
        }
    }

    pub open spec fn nmi_enabled(self) -> bool {
        self.bits & CTRL_NMI_ENABLE != 0
    }

    pub fn new() -> (r: Self)
        ensures
            r.bits == 0,
    {
        CtrlRegister { bits: 0 }
    }

    pub fn vram_addr_increment(&self) -> (r: u8)
        ensures
            r == self.vram_step(),
    {
        if self.bits & CTRL_VRAM_INC != 0 {
            32
        } else {
            1
        }
    }

    pub fn generate_vblank_nmi(&self) -> (r: bool)
        ensures
            r == self.nmi_enabled(),
    {
        self.bits & CTRL_NMI_ENABLE != 0
    }

    pub fn update(&mut self, data: u8)
        ensures
            final(self).bits == data,
    {
        self.bits = data;
    }
}

} // verus!
