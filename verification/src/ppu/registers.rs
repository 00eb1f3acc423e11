//! The memory-mapped register block: control, mask, status, the shared
//! ADDR/SCROLL write latch, OAM, and the pending-NMI latch.

use vstd::prelude::*;

use crate::ppu::addr::AddrReg;
use crate::ppu::ctrl::CtrlRegister;
use crate::ppu::mask::MaskReg;
use crate::ppu::scroll::ScrollReg;
use crate::ppu::status::apply_mask;
use crate::ppu::status::StatusReg;
use crate::ppu::status::STATUS_VBLANK;

verus! {

pub struct Registers {
    pub ctrl: CtrlRegister,
    pub mask: MaskReg,
    pub status: StatusReg,
    pub addr: AddrReg,
    pub scroll: ScrollReg,
    pub oam_addr: u8,
    pub oam_data: Vec<u8>,
    pub nmi_interrupt: Option<u8>,
    pub internal_data_buf: u8,
}

impl Registers {
    pub open spec fn wf(self) -> bool {
        &&& self.addr.wf()
        &&& self.oam_data@.len() == 256
    }

    pub fn new() -> (r: Registers)
        ensures
            r.wf(),
            r.ctrl.bits == 0,
            r.mask.bits == 0,
            r.status.bits == 0,
            r.addr == (AddrReg { hi: 0, lo: 0, hi_latch: true }),
            r.scroll.scroll_x == 0,
            r.scroll.scroll_y == 0,
            r.scroll.latch == false,
            r.oam_addr == 0,
            r.oam_data@ == Seq::new(256, |i: int| 0u8),
            r.nmi_interrupt is None,
            r.internal_data_buf == 0,
    {
        let mut oam_data: Vec<u8> = Vec::new();
        let mut i: usize = 0;
        while i < 256
            invariant
                i <= 256,
                oam_data@ =~= Seq::new(i as nat, |j: int| 0u8),
            decreases 256 - i,
        {
            oam_data.push(0);
            proof {
                assert(oam_data@ =~= Seq::new((i + 1) as nat, |j: int| 0u8));
            }
            i += 1;
        }
        Registers {
            ctrl: CtrlRegister::new(),
            mask: MaskReg::new(),
            status: StatusReg::new(),
            addr: AddrReg::new(),
            scroll: ScrollReg::new(),
            oam_addr: 0,
            oam_data,
            internal_data_buf: 0,
            nmi_interrupt: None,
        }
    }

    pub fn write_to_ppu_addr(&mut self, value: u8)
        requires
            old(self).wf(),
        ensures
            *final(self) == (Registers { addr: old(self).addr.spec_update(value), ..*old(self) }),
            final(self).wf(),
    {
        self.addr.update(value);
    }

    pub fn write_to_scroll(&mut self, value: u8)
        ensures
            final(self).scroll.scroll_x == if old(self).scroll.latch {
                old(self).scroll.scroll_x
            } else {
                value
            },
            final(self).scroll.scroll_y == if old(self).scroll.latch {
                value
            } else {
                old(self).scroll.scroll_y
            },
            final(self).scroll.latch == !old(self).scroll.latch,
            *final(self) == (Registers { scroll: final(self).scroll, ..*old(self) }),
    {
        self.scroll.write(value);
    }

    pub fn write_to_mask(&mut self, value: u8)
        ensures
            *final(self) == (Registers { mask: (MaskReg { bits: value }), ..*old(self) }),
    {
        self.mask.update(value);
    }

    pub fn write_to_oam_data(&mut self, value: u8)
        requires
            old(self).wf(),
        ensures
            final(self).oam_data@ == old(self).oam_data@.update(old(self).oam_addr as int, value),
            final(self).oam_addr == vstd::wrapping::u8_specs::wrapping_add(old(self).oam_addr, 1),
            *final(self) == (Registers {
                oam_addr: final(self).oam_addr,
                oam_data: final(self).oam_data,
                ..*old(self)
            }),
            final(self).wf(),
    {
        let idx = self.oam_addr as usize;
        self.oam_data[idx] = value;
        self.oam_addr = self.oam_addr.wrapping_add(1);
    }

    pub fn write_to_oam_addr(&mut self, addr: u8)
        ensures
            *final(self) == (Registers { oam_addr: addr, ..*old(self) }),
    {
        self.oam_addr = addr;
    }

    pub fn read_oam_data(&self) -> (r: u8)
        requires
            self.wf(),
        ensures
            r == self.oam_data@[self.oam_addr as int],
    {
        self.oam_data[self.oam_addr as usize]
    }

    /// Writing the control register can raise the pending NMI at once:
    /// when the NMI enable goes from off to on while the vblank flag is
    /// already set.
    pub fn write_control(&mut self, value: u8)
        ensures
            *final(self) == (Registers {
                ctrl: (CtrlRegister { bits: value }),
                nmi_interrupt: final(self).nmi_interrupt,
                ..*old(self)
            }),
            final(self).nmi_interrupt == if !old(self).ctrl.nmi_enabled() && (CtrlRegister {
                bits: value,
            }).nmi_enabled() && old(self).status.vblank() {
                Some(1u8)
            } else {
                old(self).nmi_interrupt
            },
    {
        let before_nmi_status = self.ctrl.generate_vblank_nmi();
        self.ctrl.update(value);
        if !before_nmi_status && self.ctrl.generate_vblank_nmi() && self.status.is_in_vblank() {
            self.nmi_interrupt = Some(1);
        }
    }

    /// Reading the status register returns the snapshot, clears the
    /// vblank flag, and resets the shared write latch.
    pub fn read_status(&mut self) -> (r: u8)
        ensures
            r == old(self).status.bits,
            *final(self) == (Registers {
                status: (StatusReg { bits: apply_mask(old(self).status.bits, STATUS_VBLANK, false) }),
                addr: (AddrReg { hi_latch: true, ..old(self).addr }),
                scroll: (ScrollReg { latch: false, ..old(self).scroll }),
                ..*old(self)
            }),
    {
        let data = self.status.snapshot();
        self.status.reset_vblank_status();
        self.addr.reset_latch();
        self.scroll.reset_latch();
        data
    }
}

} // verus!
