//! The picture processing unit: pattern, nametable and palette memory,
//! the memory-mapped register block, the scanline/dot counters, and the
//! non-maskable-interrupt latch.

pub mod addr;
pub mod ctrl;
pub mod mask;
pub mod registers;
pub mod scroll;
pub mod status;

use vstd::prelude::*;

use crate::ppu::addr::AddrReg;
use crate::ppu::ctrl::CtrlRegister;
use crate::ppu::mask::MaskReg;
use crate::ppu::registers::Registers;
use crate::ppu::scroll::ScrollReg;
use crate::ppu::status::apply_mask;
use crate::ppu::status::StatusReg;
use crate::ppu::status::STATUS_SPRITE_ZERO_HIT;
use crate::ppu::status::STATUS_VBLANK;
use crate::rom::Mirroring;

verus! {

/// Fold a PPU address in `0x2000..=0x3FFF` down to an index into the two
/// physical 1 KiB nametable banks.  The address is first masked to the
/// `0x2000..=0x2FFF` window (`0x3000..=0x3EFF` mirrors it); the top two
/// bits of the remaining 12-bit index pick the logical nametable, which
/// the mirroring mode maps onto a bank.
pub open spec fn mirror_vram_spec(mirroring: Mirroring, addr: u16) -> int {
    let masked = if addr >= 0x3000 {
        addr - 0x1000
    } else {
        addr as int
    };
    let vram_index = masked - 0x2000;
    let name_table = vram_index / 0x400;
    match mirroring {
        Mirroring::Vertical => if name_table == 2 || name_table == 3 {
            vram_index - 0x800
        } else {
            vram_index
        },
        Mirroring::Horizontal => if name_table == 1 || name_table == 2 {
            vram_index - 0x400
        } else if name_table == 3 {
            vram_index - 0x800
        } else {
            vram_index
        },
        Mirroring::FourScreen => vram_index % 0x800,
    }
}

/// Under horizontal mirroring each nametable and its partner one step to
/// the side share a bank: the pair `0x2000`/`0x2400` and the pair
/// `0x2800`/`0x2C00` fold to the same byte, so writing through one
/// address and reading through the other sees the written value.
pub proof fn lemma_horizontal_pair_aliases(addr: u16)
    requires
        0x2000 <= addr < 0x3F00,
    ensures
        mirror_vram_spec(Mirroring::Horizontal, addr) == mirror_vram_spec(
            Mirroring::Horizontal,
            if ((if addr >= 0x3000 { addr - 0x1000 } else { addr as int }) - 0x2000) / 0x400 % 2
                == 0 {
                (addr + 0x400) as u16
            } else {
                (addr - 0x400) as u16
            },
        ),
{
}

/// Under vertical mirroring each nametable shares a bank with the one two
/// steps away: `0x2000`/`0x2800` fold together, as do `0x2400`/`0x2C00`.
pub proof fn lemma_vertical_pair_aliases(addr: u16)
    requires
        0x2000 <= addr < 0x3F00,
    ensures
        mirror_vram_spec(Mirroring::Vertical, addr) == mirror_vram_spec(
            Mirroring::Vertical,
            if (if addr >= 0x3000 { addr - 0x1000 } else { addr as int }) - 0x2000 < 0x800 {
                (addr + 0x800) as u16
            } else {
                (addr - 0x800) as u16
            },
        ),
{
}

/// Every nametable address folds into the two 1 KiB banks.
pub proof fn lemma_mirror_in_range(mirroring: Mirroring, addr: u16)
    requires
        0x2000 <= addr < 0x4000,
    ensures
        0 <= mirror_vram_spec(mirroring, addr) < 0x800,
{
}

/// Writing a byte through DATA at a nametable address and then reading
/// through any address that folds onto the same bank byte — in
/// particular the mirrored partner of the written address — sees
/// exactly the written byte.
pub proof fn lemma_aliased_write_then_read(pre: PPU, post: PPU, value: u8, partner: u16)
    requires
        pre.wf(),
        0x2000 <= pre.registers.addr.addr() < 0x3F00,
        0x2000 <= partner < 0x4000,
        mirror_vram_spec(pre.mirroring, partner) == mirror_vram_spec(
            pre.mirroring,
            pre.registers.addr.addr(),
        ),
        pre.write_data_claim(post, value),
    ensures
        post.vram@[mirror_vram_spec(post.mirroring, partner)] == value,
{
    lemma_mirror_in_range(pre.mirroring, pre.registers.addr.addr());
}

/// The palette slot a PPU address in `0x3F00..=0x3FFF` selects: 32 bytes,
/// mirrored every 32, with `0x3F10/14/18/1C` folded onto
/// `0x3F00/04/08/0C`.
pub open spec fn palette_index(addr: u16) -> int {
    let i = (addr - 0x3F00) % 0x20;
    if i == 0x10 || i == 0x14 || i == 0x18 || i == 0x1C {
        i - 0x10
    } else {
        i
    }
}

pub struct PPU {
    /// Pattern-table bytes: CHR ROM from the cartridge, or 8 KiB of CHR
    /// RAM when the cartridge declared none.
    pub chr_rom: Vec<u8>,
    /// True when the cartridge declared CHR RAM, making writes to the
    /// pattern tables land.
    pub chr_writable: bool,
    /// The two physical 1 KiB nametable banks.
    pub vram: Vec<u8>,
    /// The 32 palette bytes.
    pub palette_table: Vec<u8>,
    pub mirroring: Mirroring,
    pub registers: Registers,
    /// The scanline now being drawn, `0..=261`.
    pub scanline: u16,
    /// The dot within the scanline; kept below 341 between ticks.
    pub cycles: usize,
}

impl PPU {
    pub open spec fn wf(self) -> bool {
        &&& self.vram@.len() == 0x800
        &&& self.palette_table@.len() == 0x20
        &&& self.registers.wf()
        &&& self.chr_writable ==> self.chr_rom@.len() == 0x2000
        &&& self.scanline < 262
        &&& self.cycles < 341
    }

    pub open spec fn mirror_addr(self, addr: u16) -> int {
        mirror_vram_spec(self.mirroring, addr)
    }

    /// What a DATA read returns: the stale buffer for pattern and
    /// nametable addresses, the palette byte directly for palette
    /// addresses.
    pub open spec fn read_data_value(self) -> u8 {
        let a = self.registers.addr.addr();
        if a < 0x3F00 {
            self.registers.internal_data_buf
        } else {
            self.palette_table@[palette_index(a)]
        }
    }

    /// What a DATA read leaves in the internal buffer: the byte under the
    /// address — for palette addresses, the nametable byte underneath.
    pub open spec fn read_data_buf(self) -> u8 {
        let a = self.registers.addr.addr();
        if a < 0x2000 {
            if a < self.chr_rom@.len() {
                self.chr_rom@[a as int]
            } else {
                0
            }
        } else {
            self.vram@[self.mirror_addr(a)]
        }
    }

    /// The state after a DATA read: buffer refilled, address bumped by
    /// the control register's step.
    pub open spec fn read_data_post(self) -> PPU {
        PPU {
            registers: Registers {
                addr: self.registers.addr.spec_increment(self.registers.ctrl.vram_step() as u16),
                internal_data_buf: self.read_data_buf(),
                ..self.registers
            },
            ..self
        }
    }

    /// The register block after a DATA access: the address stepped by
    /// the control register's increment, all else kept.
    pub open spec fn regs_stepped(self) -> Registers {
        Registers {
            addr: self.registers.addr.spec_increment(self.registers.ctrl.vram_step() as u16),
            ..self.registers
        }
    }

    /// Where a DATA write lands, as three disjoint claims over the old
    /// address: pattern tables (only when CHR is RAM), nametables, or
    /// palette.
    pub open spec fn write_data_claim(self, post: PPU, value: u8) -> bool {
        let a = self.registers.addr.addr();
        &&& post.registers == self.regs_stepped()
        &&& post.chr_writable == self.chr_writable
        &&& post.mirroring == self.mirroring
        &&& post.scanline == self.scanline
        &&& post.cycles == self.cycles
        &&& (a < 0x2000 ==> {
            &&& post.chr_rom@ == if self.chr_writable {
                self.chr_rom@.update(a as int, value)
            } else {
                self.chr_rom@
            }
            &&& post.vram == self.vram
            &&& post.palette_table == self.palette_table
        })
        &&& (0x2000 <= a < 0x3F00 ==> {
            &&& post.chr_rom == self.chr_rom
            &&& post.vram@ == self.vram@.update(self.mirror_addr(a), value)
            &&& post.palette_table == self.palette_table
        })
        &&& (a >= 0x3F00 ==> {
            &&& post.chr_rom == self.chr_rom
            &&& post.vram == self.vram
            &&& post.palette_table@ == self.palette_table@.update(palette_index(a), value)
        })
    }

    pub fn new(chr_rom: Vec<u8>, mirroring: Mirroring) -> (r: PPU)
        ensures
            r.wf(),
            r.mirroring == mirroring,
            r.chr_writable == (chr_rom@.len() == 0),
            r.chr_writable ==> r.chr_rom@ == Seq::new(0x2000, |i: int| 0u8),
            !r.chr_writable ==> r.chr_rom@ == chr_rom@,
            r.vram@ == Seq::new(0x800, |i: int| 0u8),
            r.palette_table@ == Seq::new(0x20, |i: int| 0u8),
            r.registers.internal_data_buf == 0,
            r.registers.addr.addr() == 0,
            r.registers.addr.hi_latch,
            r.registers.ctrl.bits == 0,
            r.registers.status.bits == 0,
            r.registers.nmi_interrupt is None,
            r.registers.oam_addr == 0,
            r.scanline == 0,
            r.cycles == 0,
    {
        let chr_writable = chr_rom.len() == 0;
        let chr_rom = if chr_writable {
            zeros(0x2000)
        } else {
            chr_rom
        };
        PPU {
            chr_rom,
            chr_writable,
            vram: zeros(0x800),
            palette_table: zeros(0x20),
            mirroring,
            registers: Registers::new(),
            scanline: 0,
            cycles: 0,
        }
    }

    /// A PPU over 2 KiB of blank CHR with horizontal mirroring; a
    /// convenient fixture.
    pub fn new_empty_rom() -> (r: PPU)
        ensures
            r.wf(),
            r.mirroring == Mirroring::Horizontal,
            r.vram@ == Seq::new(0x800, |i: int| 0u8),
            r.registers.internal_data_buf == 0,
            r.registers.addr.addr() == 0,
            r.registers.addr.hi_latch,
            r.registers.ctrl.bits == 0,
            r.registers.status.bits == 0,
            r.registers.nmi_interrupt is None,
            r.registers.oam_addr == 0,
    {
        PPU::new(zeros(2048), Mirroring::Horizontal)
    }

    pub fn mirror_vram_addr(&self, addr: u16) -> (r: u16)
        requires
            0x2000 <= addr < 0x4000,
        ensures
            r == self.mirror_addr(addr),
            r < 0x800,
    {
        let masked = if addr >= 0x3000 {
            addr - 0x1000
        } else {
            addr
        };
        let vram_index = masked - 0x2000;
        let name_table = vram_index / 0x400;
        match self.mirroring {
            Mirroring::Vertical => {
                if name_table == 2 || name_table == 3 {
                    vram_index - 0x800
                } else {
                    vram_index
                }
            },
            Mirroring::Horizontal => {
                if name_table == 1 || name_table == 2 {
                    vram_index - 0x400
                } else if name_table == 3 {
                    vram_index - 0x800
                } else {
                    vram_index
                }
            },
            Mirroring::FourScreen => {
                // four-screen cartridges carry their own extra RAM, which
                // is out of scope for mapper 0; fold onto the two banks
                vram_index % 0x800
            },
        }
    }

    /// A DATA read: buffered for pattern and nametable bytes, immediate
    /// for palette bytes, post-incrementing the address either way.
    pub fn read_data(&mut self) -> (r: u8)
        requires
            old(self).wf(),
        ensures
            r == old(self).read_data_value(),
            *final(self) == old(self).read_data_post(),
            final(self).wf(),
    {
        let addr = self.registers.addr.get();
        let step = self.registers.ctrl.vram_addr_increment();
        self.registers.addr.increment(step as u16);

        if addr < 0x2000 {
            let result = self.registers.internal_data_buf;
            self.registers.internal_data_buf = if (addr as usize) < self.chr_rom.len() {
                self.chr_rom[addr as usize]
            } else {
                0
            };
            result
        } else if addr < 0x3F00 {
            let result = self.registers.internal_data_buf;
            let mirrored = self.mirror_vram_addr(addr);
            self.registers.internal_data_buf = self.vram[mirrored as usize];
            result
        } else {
            let mirrored = self.mirror_vram_addr(addr);
            self.registers.internal_data_buf = self.vram[mirrored as usize];
            let mut slot = (addr - 0x3F00) % 0x20;
            if slot == 0x10 || slot == 0x14 || slot == 0x18 || slot == 0x1C {
                slot = slot - 0x10;
            }
            self.palette_table[slot as usize]
        }
    }

    /// A DATA write, post-incrementing the address.
    pub fn write_to_data(&mut self, value: u8)
        requires
            old(self).wf(),
        ensures
            old(self).write_data_claim(*final(self), value),
            final(self).wf(),
    {
        let addr = self.registers.addr.get();
        if addr < 0x2000 {
            if self.chr_writable {
                self.chr_rom[addr as usize] = value;
            }
        } else if addr < 0x3F00 {
            let mirrored = self.mirror_vram_addr(addr);
            self.vram[mirrored as usize] = value;
        } else {
            let mut slot = (addr - 0x3F00) % 0x20;
            if slot == 0x10 || slot == 0x14 || slot == 0x18 || slot == 0x1C {
                slot = slot - 0x10;
            }
            self.palette_table[slot as usize] = value;
        }
        let step = self.registers.ctrl.vram_addr_increment();
        self.registers.addr.increment(step as u16);
    }

    /// A DATA write; `write_to_data` under its shorter name.
    pub fn write_data(&mut self, value: u8)
        requires
            old(self).wf(),
        ensures
            old(self).write_data_claim(*final(self), value),
            final(self).wf(),
    {
        self.write_to_data(value);
    }

    /// Sprite 0 is considered hit on the scanline equal to its Y byte
    /// (`OAM[0]`) once the dot count reaches its X byte (`OAM[3]`), and
    /// only while sprites are shown.
    fn is_sprite_0_hit(&self, cycle: usize) -> (r: bool)
        requires
            self.registers.wf(),
        ensures
            r == (self.registers.oam_data@[0] == self.scanline as u8
                && self.registers.oam_data@[0] as u16 == self.scanline
                && self.registers.oam_data@[3] as usize <= cycle
                && self.registers.mask.show_sprites_spec()),
    {
        let y = self.registers.oam_data[0] as usize;
        let x = self.registers.oam_data[3] as usize;
        (y == self.scanline as usize) && x <= cycle && self.registers.mask.show_sprites()
    }

    /// Whether the pending sprite-0 check fires for the scanline now
    /// completing.
    pub open spec fn sprite_zero_now(self) -> bool {
        self.registers.oam_data@[0] as u16 == self.scanline
            && self.registers.mask.show_sprites_spec()
    }

    /// One scanline boundary: consume 341 dots and advance the scanline.
    /// Completing scanline 240 enters vertical blank — the vblank flag
    /// is set and, with the NMI enable on, an NMI is latched.  Completing
    /// scanline 261 wraps the frame — scanline 0, NMI latch and status
    /// bits cleared.
    pub open spec fn scanline_step(self) -> PPU {
        let bits0 = if self.sprite_zero_now() {
            apply_mask(self.registers.status.bits, STATUS_SPRITE_ZERO_HIT, true)
        } else {
            self.registers.status.bits
        };
        let cycles2 = if self.cycles >= 341 {
            (self.cycles - 341) as usize
        } else {
            self.cycles
        };
        let sl2 = (self.scanline + 1) as u16;
        if sl2 == 241 {
            PPU {
                scanline: 241,
                cycles: cycles2,
                registers: Registers {
                    status: StatusReg { bits: apply_mask(bits0, STATUS_VBLANK, true) },
                    nmi_interrupt: if self.registers.ctrl.nmi_enabled() {
                        Some(1u8)
                    } else {
                        self.registers.nmi_interrupt
                    },
                    ..self.registers
                },
                ..self
            }
        } else if sl2 >= 262 {
            PPU {
                scanline: 0,
                cycles: cycles2,
                registers: Registers {
                    status: StatusReg {
                        bits: apply_mask(
                            apply_mask(bits0, STATUS_SPRITE_ZERO_HIT, false),
                            STATUS_VBLANK,
                            false,
                        ),
                    },
                    nmi_interrupt: None,
                    ..self.registers
                },
                ..self
            }
        } else {
            PPU {
                scanline: sl2,
                cycles: cycles2,
                registers: Registers { status: (StatusReg { bits: bits0 }), ..self.registers },
                ..self
            }
        }
    }

    /// Retire whole scanlines until fewer than 341 dots remain.
    #[verifier::opaque]
    pub open spec fn drain(self) -> PPU
        decreases self.cycles,
    {
        if self.cycles >= 341 {
            self.scanline_step().drain()
        } else {
            self
        }
    }

    /// Whether draining crosses the end of scanline 261, completing a
    /// frame.
    #[verifier::opaque]
    pub open spec fn drain_frame(self) -> bool
        decreases self.cycles,
    {
        if self.cycles >= 341 {
            self.scanline == 261 || self.scanline_step().drain_frame()
        } else {
            false
        }
    }

    /// The state after `dots` more PPU dots.
    pub open spec fn advanced(self, dots: nat) -> PPU {
        (PPU { cycles: (self.cycles + dots) as usize, ..self }).drain()
    }

    /// Whether `dots` more dots complete a frame.
    pub open spec fn advanced_frame(self, dots: nat) -> bool {
        (PPU { cycles: (self.cycles + dots) as usize, ..self }).drain_frame()
    }

    /// Advance the dot counter; returns true when the frame wrapped.
    pub fn tick(&mut self, cycles: u8) -> (frame: bool)
        requires
            old(self).wf(),
        ensures
            *final(self) == old(self).advanced(cycles as nat),
            frame == old(self).advanced_frame(cycles as nat),
            final(self).wf(),
    {
        proof {
            reveal(PPU::drain);
            reveal(PPU::drain_frame);
        }
        self.cycles = self.cycles + cycles as usize;
        let mut frame = false;
        while self.cycles >= 341
            invariant
                self.vram@.len() == 0x800,
                self.palette_table@.len() == 0x20,
                self.registers.wf(),
                self.chr_writable ==> self.chr_rom@.len() == 0x2000,
                self.scanline < 262,
                self.cycles < 341 + 256,
                old(self).advanced(cycles as nat) == self.drain(),
                old(self).advanced_frame(cycles as nat) == (frame || self.drain_frame()),
            decreases self.cycles,
        {
            let ghost prev = *self;
            if self.is_sprite_0_hit(self.cycles) {
                self.registers.status.set_sprite_zero_hit(true);
            }
            self.cycles = self.cycles - 341;
            self.scanline = self.scanline + 1;

            if self.scanline == 241 {
                self.registers.status.set_vblank_status(true);
                if self.registers.ctrl.generate_vblank_nmi() {
                    self.registers.nmi_interrupt = Some(1);
                }
            }
            if self.scanline >= 262 {
                self.scanline = 0;
                self.registers.nmi_interrupt = None;
                self.registers.status.set_sprite_zero_hit(false);
                self.registers.status.reset_vblank_status();
                frame = true;
            }
            proof {
                reveal(PPU::drain);
                reveal(PPU::drain_frame);
                assert(*self == prev.scanline_step());
            }
        }
        frame
    }

    /// Hand out and clear the pending NMI latch.
    pub fn poll_nmi_interrupt(&mut self) -> (r: Option<u8>)
        ensures
            r == old(self).registers.nmi_interrupt,
            *final(self) == (PPU {
                registers: Registers { nmi_interrupt: None, ..old(self).registers },
                ..*old(self)
            }),
    {
        self.registers.nmi_interrupt.take()
    }

    /// One ADDR write through the shared latch.
    pub fn set_addr(&mut self, addr: u8)
        requires
            old(self).wf(),
        ensures
            *final(self) == (PPU {
                registers: Registers {
                    addr: old(self).registers.addr.spec_update(addr),
                    ..old(self).registers
                },
                ..*old(self)
            }),
            final(self).wf(),
    {
        self.registers.write_to_ppu_addr(addr);
    }

    /// A CTRL write; turning the NMI enable on during vblank latches an
    /// NMI at once.
    pub fn set_ctrl(&mut self, value: u8)
        requires
            old(self).wf(),
        ensures
            *final(self) == (PPU {
                registers: Registers {
                    ctrl: (CtrlRegister { bits: value }),
                    nmi_interrupt: if !old(self).registers.ctrl.nmi_enabled() && (CtrlRegister {
                        bits: value,
                    }).nmi_enabled() && old(self).registers.status.vblank() {
                        Some(1u8)
                    } else {
                        old(self).registers.nmi_interrupt
                    },
                    ..old(self).registers
                },
                ..*old(self)
            }),
            final(self).wf(),
    {
        self.registers.write_control(value);
    }

    /// The register block after a STATUS read: vblank cleared, both
    /// write latches reset.
    pub open spec fn status_read_post(self) -> Registers {
        Registers {
            status: StatusReg {
                bits: apply_mask(self.registers.status.bits, STATUS_VBLANK, false),
            },
            addr: AddrReg { hi_latch: true, ..self.registers.addr },
            scroll: ScrollReg { latch: false, ..self.registers.scroll },
            ..self.registers
        }
    }

    /// A STATUS read: returns the snapshot, clears vblank, resets the
    /// write latch.
    pub fn read_status(&mut self) -> (r: u8)
        requires
            old(self).wf(),
        ensures
            r == old(self).registers.status.bits,
            *final(self) == (PPU { registers: old(self).status_read_post(), ..*old(self) }),
            final(self).wf(),
    {
        self.registers.read_status()
    }

    /// What a CPU read of the register at `addr` returns: the status
    /// snapshot, the current OAM byte, the DATA read value, or zero for
    /// the write-only registers.
    pub open spec fn reg_read_value(self, addr: u16) -> u8 {
        if addr == 0x2002 {
            self.registers.status.bits
        } else if addr == 0x2004 {
            self.registers.oam_data@[self.registers.oam_addr as int]
        } else if addr == 0x2007 {
            self.read_data_value()
        } else {
            0
        }
    }

    /// The state after a CPU read of the register at `addr`: STATUS
    /// clears vblank and the latch, DATA refills the buffer and steps
    /// the address, everything else is untouched.
    pub open spec fn reg_read_post(self, addr: u16) -> PPU {
        if addr == 0x2002 {
            PPU { registers: self.status_read_post(), ..self }
        } else if addr == 0x2007 {
            self.read_data_post()
        } else {
            self
        }
    }

    /// A CPU read of the register at `0x2000 + (addr % 8)`.  STATUS, OAM
    /// DATA and DATA have read behaviour; the write-only registers read
    /// as zero.
    pub fn read_register(&mut self, addr: u16) -> (r: u8)
        requires
            old(self).wf(),
            0x2000 <= addr <= 0x2007,
        ensures
            final(self).wf(),
            r == old(self).reg_read_value(addr),
            *final(self) == old(self).reg_read_post(addr),
    {
        match addr {
            0x2002 => self.read_status(),
            0x2004 => self.registers.read_oam_data(),
            0x2007 => self.read_data(),
            _ => 0,
        }
    }

    /// How a CPU write to the register at `addr` relates the new state
    /// to the old, one clause per register; writes to STATUS are
    /// ignored.
    pub open spec fn reg_write_claim(self, post: PPU, addr: u16, value: u8) -> bool {
        &&& (addr == 0x2000 ==> post == (PPU {
            registers: Registers {
                ctrl: (CtrlRegister { bits: value }),
                nmi_interrupt: if !self.registers.ctrl.nmi_enabled() && (CtrlRegister {
                    bits: value,
                }).nmi_enabled() && self.registers.status.vblank() {
                    Some(1u8)
                } else {
                    self.registers.nmi_interrupt
                },
                ..self.registers
            },
            ..self
        }))
        &&& (addr == 0x2001 ==> post == (PPU {
            registers: Registers { mask: (MaskReg { bits: value }), ..self.registers },
            ..self
        }))
        &&& (addr == 0x2002 ==> post == self)
        &&& (addr == 0x2003 ==> post == (PPU {
            registers: Registers { oam_addr: value, ..self.registers },
            ..self
        }))
        &&& (addr == 0x2004 ==> post == (PPU {
            registers: Registers {
                oam_addr: vstd::wrapping::u8_specs::wrapping_add(self.registers.oam_addr, 1),
                oam_data: post.registers.oam_data,
                ..self.registers
            },
            ..self
        }) && post.registers.oam_data@ == self.registers.oam_data@.update(
            self.registers.oam_addr as int,
            value,
        ))
        &&& (addr == 0x2005 ==> post == (PPU {
            registers: Registers { scroll: post.registers.scroll, ..self.registers },
            ..self
        }) && post.registers.scroll == (ScrollReg {
            scroll_x: if self.registers.scroll.latch {
                self.registers.scroll.scroll_x
            } else {
                value
            },
            scroll_y: if self.registers.scroll.latch {
                value
            } else {
                self.registers.scroll.scroll_y
            },
            latch: !self.registers.scroll.latch,
        }))
        &&& (addr == 0x2006 ==> post == (PPU {
            registers: Registers { addr: self.registers.addr.spec_update(value), ..self.registers },
            ..self
        }))
        &&& (addr == 0x2007 ==> self.write_data_claim(post, value))
    }

    /// A CPU write to the register at `0x2000 + (addr % 8)`.  Writes to
    /// STATUS are ignored.
    pub fn write_register(&mut self, addr: u16, value: u8)
        requires
            old(self).wf(),
            0x2000 <= addr <= 0x2007,
        ensures
            final(self).wf(),
            old(self).reg_write_claim(*final(self), addr, value),
    {
        match addr {
            0x2000 => self.registers.write_control(value),
            0x2001 => self.registers.write_to_mask(value),
            0x2002 => (),
            0x2003 => self.registers.write_to_oam_addr(value),
            0x2004 => self.registers.write_to_oam_data(value),
            0x2005 => self.registers.write_to_scroll(value),
            0x2006 => self.registers.write_to_ppu_addr(value),
            0x2007 => self.write_to_data(value),
            _ => (),
        }
    }

    /// Rasterize the background tile grid into four little-endian
    /// bytes per pixel: byte `k` of the result is byte `k % 4` of the
    /// colour the tile composition assigns to pixel `k / 4`, over a
    /// blank frame.
    pub fn render_frame(&self) -> (r: Vec<u8>)
        requires
            self.wf(),
        ensures
            r@.len() == crate::frame::FRAME_WIDTH * crate::frame::FRAME_HEIGHT * 4,
            forall|k: int|
                0 <= k < crate::frame::FRAME_WIDTH * crate::frame::FRAME_HEIGHT * 4
                    ==> #[trigger] r@[k] == crate::frame::le_byte(
                    crate::frame::composed_pixel(
                        Seq::new(61440, |i: int| 0u32),
                        self.chr_rom@,
                        self.vram@,
                        self.palette_table@,
                        crate::frame::system_palette(),
                        k / 4 % 256,
                        k / 4 / 256,
                    ),
                    k % 4,
                ),
    {
        let frame = crate::frame::Frame::new();
        let palette = crate::frame::SystemPalette::new();
        proof {
            assert(frame.pixels@ =~= Seq::new(61440, |i: int| 0u32));
        }
        frame.render_frame(
            self.chr_rom.as_slice(),
            self.vram.as_slice(),
            self.palette_table.as_slice(),
            &palette,
        )
    }

    /// A whole-page OAM copy: byte `j` of the page lands at OAM slot
    /// `(OAMADDR + j) % 256`, so after all 256 writes OAMADDR is back
    /// where it started.
    pub fn write_oam_dma(&mut self, data: &[u8; 256])
        requires
            old(self).wf(),
        ensures
            final(self).wf(),
            *final(self) == (PPU {
                registers: Registers {
                    oam_data: final(self).registers.oam_data,
                    ..old(self).registers
                },
                ..*old(self)
            }),
            forall|j: int|
                0 <= j < 256 ==> final(self).registers.oam_data@[
                    (old(self).registers.oam_addr + j) % 256
                ] == data@[j],
    {
        let base = self.registers.oam_addr as usize;
        let mut j: usize = 0;
        while j < 256
            invariant
                self.registers.oam_data@.len() == 256,
                base < 256,
                j <= 256,
                base == old(self).registers.oam_addr,
                *self == (PPU {
                    registers: Registers {
                        oam_data: self.registers.oam_data,
                        ..old(self).registers
                    },
                    ..*old(self)
                }),
                forall|k: int| 0 <= k < j ==> self.registers.oam_data@[(base + k) % 256] == data@[k],
            decreases 256 - j,
        {
            let idx = (base + j) % 256;
            self.registers.oam_data[idx] = data[j];
            proof {
                lemma_oam_slots_distinct(base as int, j as int);
            }
            j += 1;
        }
    }
}

/// Draining pending dots commutes with adding more: a scanline step
/// depends only on the scanline and status, so dots added later do not
/// disturb the scanlines already retired.
proof fn lemma_drain_then_add(q: PPU, b: nat)
    requires
        q.cycles + b <= usize::MAX,
    ensures
        (PPU { cycles: (q.drain().cycles + b) as usize, ..q.drain() }).drain() == (PPU {
            cycles: (q.cycles + b) as usize,
            ..q
        }).drain(),
        ((PPU { cycles: (q.drain().cycles + b) as usize, ..q.drain() }).drain_frame()
            || q.drain_frame()) == (PPU { cycles: (q.cycles + b) as usize, ..q }).drain_frame(),
    decreases q.cycles,
{
    reveal(PPU::drain);
    reveal(PPU::drain_frame);
    if q.cycles >= 341 {
        let s = q.scanline_step();
        assert((PPU { cycles: (q.cycles + b) as usize, ..q }).scanline_step() == (PPU {
            cycles: (s.cycles + b) as usize,
            ..s
        }));
        lemma_drain_then_add(s, b);
    }
}

/// Retiring scanlines touches only the scanline and dot counters, the
/// status bits and the NMI latch; every memory and every other register
/// is untouched.
proof fn lemma_drain_preserves(p: PPU)
    ensures
        p.drain().chr_rom == p.chr_rom,
        p.drain().chr_writable == p.chr_writable,
        p.drain().vram == p.vram,
        p.drain().palette_table == p.palette_table,
        p.drain().mirroring == p.mirroring,
        p.drain().registers.ctrl == p.registers.ctrl,
        p.drain().registers.mask == p.registers.mask,
        p.drain().registers.addr == p.registers.addr,
        p.drain().registers.scroll == p.registers.scroll,
        p.drain().registers.oam_addr == p.registers.oam_addr,
        p.drain().registers.oam_data == p.registers.oam_data,
        p.drain().registers.internal_data_buf == p.registers.internal_data_buf,
    decreases p.cycles,
{
    reveal(PPU::drain);
    if p.cycles >= 341 {
        lemma_drain_preserves(p.scanline_step());
    }
}

/// Advancing the dot clock touches only the counters, the status bits
/// and the NMI latch.
pub proof fn lemma_advanced_preserves(p: PPU, d: nat)
    requires
        p.cycles + d <= usize::MAX,
    ensures
        p.advanced(d).chr_rom == p.chr_rom,
        p.advanced(d).chr_writable == p.chr_writable,
        p.advanced(d).vram == p.vram,
        p.advanced(d).palette_table == p.palette_table,
        p.advanced(d).mirroring == p.mirroring,
        p.advanced(d).registers.ctrl == p.registers.ctrl,
        p.advanced(d).registers.mask == p.registers.mask,
        p.advanced(d).registers.addr == p.registers.addr,
        p.advanced(d).registers.scroll == p.registers.scroll,
        p.advanced(d).registers.oam_addr == p.registers.oam_addr,
        p.advanced(d).registers.oam_data == p.registers.oam_data,
        p.advanced(d).registers.internal_data_buf == p.registers.internal_data_buf,
{
    lemma_drain_preserves(PPU { cycles: (p.cycles + d) as usize, ..p });
}

/// Advancing by `a` dots and then by `b` is advancing by `a + b`: the
/// state agrees exactly, and a frame completes in the combined run if
/// and only if it completes in one of the two parts.
pub proof fn lemma_advanced_additive(p: PPU, a: nat, b: nat)
    requires
        p.cycles + a + b <= usize::MAX,
    ensures
        p.advanced(a).advanced(b) == p.advanced(a + b),
        p.advanced_frame(a + b) == (p.advanced_frame(a) || p.advanced(a).advanced_frame(b)),
{
    let q = PPU { cycles: (p.cycles + a) as usize, ..p };
    lemma_drain_then_add(q, b);
    assert((PPU { cycles: (q.cycles + b) as usize, ..q }) == (PPU {
        cycles: (p.cycles + (a + b)) as usize,
        ..p
    }));
}

/// How the status masks interact: setting or clearing the sprite-0 bit
/// leaves the vblank bit alone, setting the vblank mask sets the flag,
/// and clearing it clears the flag.
proof fn lemma_status_mask_bits()
    by (bit_vector)
    ensures
        forall|b: u8| #[trigger] ((b | 0x40u8) & 0x80u8) == b & 0x80u8,
        forall|b: u8| #[trigger] ((b & !0x40u8) & 0x80u8) == b & 0x80u8,
        forall|b: u8| #[trigger] ((b | 0x80u8) & 0x80u8) != 0,
        forall|b: u8| #[trigger] ((b & !0x80u8) & 0x80u8) == 0,
{
}

/// The vblank flag rises only on the step that completes scanline 240
/// and enters scanline 241, and the step that completes scanline 261
/// leaves it clear; since every step advances the scanline by one and
/// wraps it after 261, the flag rises exactly once per 262-scanline
/// frame.
pub proof fn lemma_vblank_once_per_frame(p: PPU)
    requires
        p.scanline < 262,
    ensures
        p.scanline_step().scanline == if p.scanline == 261 {
            0u16
        } else {
            (p.scanline + 1) as u16
        },
        !p.registers.status.vblank() && p.scanline_step().registers.status.vblank()
            ==> p.scanline == 240,
        p.scanline == 240 ==> p.scanline_step().registers.status.vblank(),
        p.scanline == 261 ==> !p.scanline_step().registers.status.vblank(),
        p.scanline != 240 && p.scanline != 261 ==> p.scanline_step().registers.status.vblank()
            == p.registers.status.vblank(),
{
    lemma_status_mask_bits();
}

impl PPU {
    /// The state after `n` scanline boundaries.
    pub open spec fn stepped(self, n: nat) -> PPU
        decreases n,
    {
        if n == 0 {
            self
        } else {
            self.scanline_step().stepped((n - 1) as nat)
        }
    }

    /// How many of the next `n` scanline boundaries raise the vblank
    /// flag from clear to set.
    pub open spec fn vblank_rises(self, n: nat) -> nat
        decreases n,
    {
        if n == 0 {
            0
        } else {
            let q = self.scanline_step();
            (if !self.registers.status.vblank() && q.registers.status.vblank() {
                1nat
            } else {
                0nat
            }) + q.vblank_rises((n - 1) as nat)
        }
    }
}

/// Counting rises distributes over splitting a run of scanline steps.
proof fn lemma_vblank_rises_split(p: PPU, a: nat, b: nat)
    ensures
        p.vblank_rises(a + b) == p.vblank_rises(a) + p.stepped(a).vblank_rises(b),
    decreases a,
{
    if a > 0 {
        lemma_vblank_rises_split(p.scanline_step(), (a - 1) as nat, b);
    }
}

/// Scanlines strictly below 240 pass without touching the vblank flag.
proof fn lemma_vblank_quiet_run(p: PPU, n: nat)
    requires
        p.scanline + n <= 240,
    ensures
        p.vblank_rises(n) == 0,
        p.stepped(n).scanline == p.scanline + n,
        p.stepped(n).registers.status.vblank() == p.registers.status.vblank(),
    decreases n,
{
    if n > 0 {
        lemma_vblank_once_per_frame(p);
        lemma_vblank_quiet_run(p.scanline_step(), (n - 1) as nat);
    }
}

/// Once vblank is set, the scanlines through the end of the frame never
/// raise it again; the wrap clears it.
proof fn lemma_vblank_set_run(p: PPU, n: nat)
    requires
        241 <= p.scanline < 262,
        p.scanline + n <= 262,
        p.registers.status.vblank(),
    ensures
        p.vblank_rises(n) == 0,
    decreases n,
{
    if n > 0 {
        lemma_vblank_once_per_frame(p);
        if p.scanline == 261 {
            assert(n == 1);
            assert(p.scanline_step().vblank_rises(0) == 0);
        } else {
            lemma_vblank_set_run(p.scanline_step(), (n - 1) as nat);
        }
    }
}

/// Starting at a freshly wrapped frame — scanline 0, vblank clear — the
/// 262 scanline boundaries of one frame raise the vblank flag exactly
/// once: at the transition into scanline 241.  The dot clock retires
/// one scanline boundary per 341 dots, so this is one rise per frame.
pub proof fn lemma_exactly_one_vblank_rise_per_frame(p: PPU)
    requires
        p.scanline == 0,
        !p.registers.status.vblank(),
    ensures
        p.vblank_rises(262) == 1,
{
    lemma_vblank_quiet_run(p, 240);
    let q = p.stepped(240);
    lemma_vblank_once_per_frame(q);
    let r = q.scanline_step();
    lemma_vblank_set_run(r, 21);
    lemma_vblank_rises_split(p, 240, 22);
    assert(q.vblank_rises(22) == 1 + r.vblank_rises(21));
}

/// Distinct offsets within one wrapped page land in distinct OAM slots.
proof fn lemma_oam_slots_distinct(base: int, j: int)
    requires
        0 <= base < 256,
        0 <= j < 256,
    ensures
        forall|k: int| 0 <= k < j ==> #[trigger] ((base + k) % 256) != (base + j) % 256,
{
    assert forall|k: int| 0 <= k < j implies #[trigger] ((base + k) % 256) != (base + j) % 256 by {
        if base + k < 256 {
            assert((base + k) % 256 == base + k);
        } else {
            assert((base + k) % 256 == base + k - 256);
        }
        if base + j < 256 {
            assert((base + j) % 256 == base + j);
        } else {
            assert((base + j) % 256 == base + j - 256);
        }
    }
}

/// A vector of `len` zero bytes.
fn zeros(len: usize) -> (r: Vec<u8>)
    ensures
        r@ == Seq::new(len as nat, |i: int| 0u8),
{
    let mut out: Vec<u8> = Vec::new();
    let mut i: usize = 0;
    while i < len
        invariant
            i <= len,
            out@ =~= Seq::new(i as nat, |j: int| 0u8),
        decreases len - i,
    {
        out.push(0);
        proof {
            assert(out@ =~= Seq::new((i + 1) as nat, |j: int| 0u8));
        }
        i += 1;
    }
    out
}

} // verus!
