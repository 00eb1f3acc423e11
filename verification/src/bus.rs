//! The memory bus: the CPU-side address decoder over internal RAM, the
//! PPU register window, the APU/controller stubs, OAM DMA, and the
//! cartridge PRG space, plus the clocked bus that forwards CPU cycles to
//! the PPU as dots.

use vstd::prelude::*;

use crate::ppu::registers::Registers;
use crate::ppu::PPU;
use crate::rom::Rom;

verus! {

/// The address decoder: internal RAM, the PPU, and the PRG image.
pub struct MemoryBus {
    /// 2 KiB of internal RAM, mirrored four times below `0x2000`.
    pub cpu_ram: Vec<u8>,
    pub ppu: PPU,
    pub prg_rom: Vec<u8>,
}

/// The PPU register a CPU address in `0x2000..=0x3FFF` lands on: the
/// eight registers repeat every eight bytes.
pub open spec fn ppu_reg_of(addr: u16) -> u16 {
    (0x2000 + (addr % 8)) as u16
}

impl MemoryBus {
    pub open spec fn wf(self) -> bool {
        &&& self.cpu_ram@.len() == 0x800
        &&& self.ppu.wf()
    }

    /// The PRG byte at a CPU address in `0x8000..=0xFFFF` under NROM:
    /// `(addr - 0x8000) mod prg_len`, so a 16 KiB image appears twice.
    pub open spec fn prg_byte(self, addr: u16) -> u8 {
        if self.prg_rom@.len() == 0 {
            0
        } else {
            self.prg_rom@[(addr - 0x8000) % (self.prg_rom@.len() as int)]
        }
    }

    /// The value a read without side effects sees: RAM and PRG bytes;
    /// everything else — the PPU window included, as during DMA — reads
    /// as zero.
    pub open spec fn peek_value(self, addr: u16) -> u8 {
        if addr < 0x2000 {
            self.cpu_ram@[(addr % 0x800) as int]
        } else if addr < 0x8000 {
            0
        } else {
            self.prg_byte(addr)
        }
    }

    /// The value a CPU read returns.
    pub open spec fn read_value(self, addr: u16) -> u8 {
        if 0x2000 <= addr < 0x4000 {
            self.ppu.reg_read_value(ppu_reg_of(addr))
        } else {
            self.peek_value(addr)
        }
    }

    /// The state after a CPU read: only reads through the PPU window
    /// change anything.
    pub open spec fn read_post(self, addr: u16) -> MemoryBus {
        if 0x2000 <= addr < 0x4000 {
            MemoryBus { ppu: self.ppu.reg_read_post(ppu_reg_of(addr)), ..self }
        } else {
            self
        }
    }

    /// The byte OAM DMA for page `page` copies at offset `j`.
    pub open spec fn dma_byte(self, page: u8, j: int) -> u8 {
        self.peek_value((page * 256 + j) as u16)
    }

    /// How a CPU write relates the new state to the old, by region: RAM,
    /// the PPU window, the OAM DMA trigger, and everything else (APU
    /// stubs, the controller ports, and ROM) which swallows the write.
    pub open spec fn write_claim(self, post: MemoryBus, addr: u16, data: u8) -> bool {
        &&& post.prg_rom == self.prg_rom
        &&& (addr < 0x2000 ==> post.ppu == self.ppu && post.cpu_ram@ == self.cpu_ram@.update(
            (addr % 0x800) as int,
            data,
        ))
        &&& (0x2000 <= addr < 0x4000 ==> post.cpu_ram == self.cpu_ram
            && self.ppu.reg_write_claim(post.ppu, ppu_reg_of(addr), data))
        &&& (addr == 0x4014 ==> {
            &&& post.cpu_ram == self.cpu_ram
            &&& post.ppu == (PPU {
                registers: Registers {
                    oam_data: post.ppu.registers.oam_data,
                    ..self.ppu.registers
                },
                ..self.ppu
            })
            &&& forall|j: int|
                0 <= j < 256 ==> post.ppu.registers.oam_data@[
                    (self.ppu.registers.oam_addr + j) % 256
                ] == self.dma_byte(data, j)
        })
        &&& (addr >= 0x4000 && addr != 0x4014 ==> post == self)
    }

    pub fn new(prg_rom: Vec<u8>, chr_rom: Vec<u8>, mirroring: crate::rom::Mirroring) -> (r: Self)
        ensures
            r.wf(),
            r.prg_rom@ == prg_rom@,
            r.cpu_ram@ == Seq::new(0x800, |i: int| 0u8),
            r.ppu.mirroring == mirroring,
            r.ppu.scanline == 0,
            r.ppu.cycles == 0,
            r.ppu.registers.nmi_interrupt is None,
            r.ppu.registers.status.bits == 0,
            r.ppu.registers.ctrl.bits == 0,
            !r.ppu.chr_writable ==> r.ppu.chr_rom@ == chr_rom@,
            r.ppu.chr_writable == (chr_rom@.len() == 0),
    {
        MemoryBus { cpu_ram: zeros_ram(), ppu: PPU::new(chr_rom, mirroring), prg_rom }
    }

    /// A side-effect-free read: RAM and PRG only.
    fn peek(&self, addr: u16) -> (r: u8)
        requires
            self.wf(),
        ensures
            r == self.peek_value(addr),
    {
        if addr < 0x2000 {
            self.cpu_ram[(addr % 0x800) as usize]
        } else if addr < 0x8000 {
            0
        } else if self.prg_rom.len() == 0 {
            0
        } else {
            self.prg_rom[((addr - 0x8000) as usize) % self.prg_rom.len()]
        }
    }

    /// A CPU read, with the PPU window's side effects.
    pub fn cpu_read(&mut self, addr: u16) -> (r: u8)
        requires
            old(self).wf(),
        ensures
            r == old(self).read_value(addr),
            *final(self) == old(self).read_post(addr),
            final(self).wf(),
    {
        if addr < 0x2000 {
            self.cpu_ram[(addr % 0x800) as usize]
        } else if addr < 0x4000 {
            let reg = 0x2000 + (addr % 8);
            self.ppu.read_register(reg)
        } else {
            self.peek(addr)
        }
    }

    /// A CPU write: RAM, a PPU register, the OAM DMA trigger, or a
    /// no-op.
    pub fn cpu_write(&mut self, addr: u16, data: u8)
        requires
            old(self).wf(),
        ensures
            old(self).write_claim(*final(self), addr, data),
            final(self).wf(),
    {
        if addr < 0x2000 {
            let idx = (addr % 0x800) as usize;
            self.cpu_ram[idx] = data;
        } else if addr < 0x4000 {
            let reg = 0x2000 + (addr % 8);
            self.ppu.write_register(reg, data);
        } else if addr == 0x4014 {
            let base: u16 = (data as u16) * 256;
            let mut buffer: [u8; 256] = [0; 256];
            let mut j: usize = 0;
            while j < 256
                invariant
                    self.wf(),
                    *self == *old(self),
                    j <= 256,
                    base == data * 256,
                    forall|k: int| 0 <= k < j ==> buffer@[k] == self.dma_byte(data, k),
                decreases 256 - j,
            {
                buffer[j] = self.peek(base + j as u16);
                j += 1;
            }
            self.ppu.write_oam_dma(&buffer);
            proof {
                assert forall|k: int| 0 <= k < 256 implies self.ppu.registers.oam_data@[
                    (old(self).ppu.registers.oam_addr + k) % 256
                ] == old(self).dma_byte(data, k) by {
                    assert(self.ppu.registers.oam_data@[
                        (old(self).ppu.registers.oam_addr + k) % 256
                    ] == buffer@[k]);
                }
            }
        }
    }

    /// A little-endian 16-bit read: low byte first.
    pub fn cpu_read_word(&mut self, addr: u16) -> (r: u16)
        requires
            old(self).wf(),
        ensures
            r == old(self).read_word_value(addr),
            *final(self) == old(self).read_word_post(addr),
            final(self).wf(),
    {
        let lo = self.cpu_read(addr) as u16;
        let hi = self.cpu_read(addr.wrapping_add(1)) as u16;
        hi * 256 + lo
    }

    /// The value of a little-endian word read at `addr`: the low byte
    /// read first, the high byte from the state that read left behind.
    pub open spec fn read_word_value(self, addr: u16) -> u16 {
        let lo = self.read_value(addr);
        let hi = self.read_post(addr).read_value(vstd::wrapping::u16_specs::wrapping_add(addr, 1));
        (hi * 256 + lo) as u16
    }

    /// The state after a little-endian word read.
    pub open spec fn read_word_post(self, addr: u16) -> MemoryBus {
        self.read_post(addr).read_post(vstd::wrapping::u16_specs::wrapping_add(addr, 1))
    }
}

/// How a write through the clocked bus relates the new state to the
/// old: outside the DMA trigger it is the decoder's write with the
/// clock untouched; the DMA trigger fills OAM from the named page and
/// burns the stall cycles.
pub open spec fn bus_write_claim(pre: Bus, post: Bus, addr: u16, data: u8) -> bool {
    &&& (addr != 0x4014 ==> pre.mem.write_claim(post.mem, addr, data) && post.cycles
        == pre.cycles)
    &&& (addr == 0x4014 ==> {
        let stall: u64 = if pre.cycles % 2 == 1 {
            514
        } else {
            513
        };
        &&& post.mem.cpu_ram == pre.mem.cpu_ram
        &&& post.mem.prg_rom == pre.mem.prg_rom
        &&& post.cycles == vstd::wrapping::u64_specs::wrapping_add(pre.cycles, stall)
        &&& post.mem.ppu == (PPU {
            registers: Registers {
                oam_data: post.mem.ppu.registers.oam_data,
                ..pre.mem.ppu.registers
            },
            ..pre.mem.ppu
        }).advanced(3 * stall as nat)
        &&& forall|j: int|
            0 <= j < 256 ==> post.mem.ppu.registers.oam_data@[
                (pre.mem.ppu.registers.oam_addr + j) % 256
            ] == pre.mem.dma_byte(data, j)
    })
}

/// The clocked bus: the address decoder plus the CPU cycle counter that
/// drives the PPU at three dots per cycle.
pub struct Bus {
    pub mem: MemoryBus,
    /// CPU cycles elapsed, wrapping.
    pub cycles: u64,
}

impl Bus {
    pub open spec fn wf(self) -> bool {
        self.mem.wf()
    }

    pub fn new(rom: Rom) -> (r: Bus)
        ensures
            r.wf(),
            r.mem.prg_rom@ == rom.prg_rom@,
            r.mem.cpu_ram@ == Seq::new(0x800, |i: int| 0u8),
            r.mem.ppu.mirroring == rom.mirroring,
            r.mem.ppu.scanline == 0,
            r.mem.ppu.cycles == 0,
            r.mem.ppu.registers.nmi_interrupt is None,
            r.mem.ppu.registers.status.bits == 0,
            r.mem.ppu.registers.ctrl.bits == 0,
            !r.mem.ppu.chr_writable ==> r.mem.ppu.chr_rom@ == rom.chr_rom@,
            r.mem.ppu.chr_writable == (rom.chr_rom@.len() == 0),
            r.cycles == 0,
    {
        Bus { mem: MemoryBus::new(rom.prg_rom, rom.chr_rom, rom.mirroring), cycles: 0 }
    }

    /// The PRG byte under NROM at a cartridge address.
    #[allow(dead_code)]
    fn read_prg_rom(&self, addr: u16) -> (r: u8)
        requires
            self.wf(),
            addr >= 0x8000,
        ensures
            r == self.mem.prg_byte(addr),
    {
        if self.mem.prg_rom.len() == 0 {
            0
        } else {
            self.mem.prg_rom[((addr - 0x8000) as usize) % self.mem.prg_rom.len()]
        }
    }

    /// A CPU read through the decoder.
    pub fn mem_read(&mut self, addr: u16) -> (r: u8)
        requires
            old(self).wf(),
        ensures
            r == old(self).mem.read_value(addr),
            final(self).mem == old(self).mem.read_post(addr),
            final(self).cycles == old(self).cycles,
            final(self).wf(),
    {
        self.mem.cpu_read(addr)
    }

    /// A CPU write through the decoder.  A write to the OAM DMA trigger
    /// copies a whole page into OAM and stalls the CPU for 513 cycles —
    /// 514 when it lands on an odd cycle — during which the PPU keeps
    /// running.
    pub fn mem_write(&mut self, addr: u16, data: u8)
        requires
            old(self).wf(),
        ensures
            final(self).wf(),
            bus_write_claim(*old(self), *final(self), addr, data),
    {
        self.mem.cpu_write(addr, data);
        if addr == 0x4014 {
            let ghost mid = self.mem.ppu;
            let stall: u16 = if self.cycles % 2 == 1 {
                514
            } else {
                513
            };
            self.tick_many(stall);
            proof {
                crate::ppu::lemma_advanced_preserves(mid, 3 * stall as nat);
                assert(mid == (PPU {
                    registers: Registers {
                        oam_data: final(self).mem.ppu.registers.oam_data,
                        ..old(self).mem.ppu.registers
                    },
                    ..old(self).mem.ppu
                }));
            }
        }
    }

    /// A little-endian 16-bit read.
    pub fn read_word(&mut self, addr: u16) -> (r: u16)
        requires
            old(self).wf(),
        ensures
            r == old(self).mem.read_word_value(addr),
            final(self).mem == old(self).mem.read_word_post(addr),
            final(self).cycles == old(self).cycles,
            final(self).wf(),
    {
        self.mem.cpu_read_word(addr)
    }

    /// Advance the clock by whole CPU cycles, the PPU by three dots
    /// each.  Returns true when this advance latched a new NMI — the
    /// edge on which the frame sink fires.
    pub fn tick(&mut self, cycles: u8) -> (r: bool)
        requires
            old(self).wf(),
            cycles <= 85,
        ensures
            final(self).wf(),
            final(self).mem.cpu_ram == old(self).mem.cpu_ram,
            final(self).mem.prg_rom == old(self).mem.prg_rom,
            final(self).mem.ppu == old(self).mem.ppu.advanced(3 * cycles as nat),
            final(self).cycles == vstd::wrapping::u64_specs::wrapping_add(
                old(self).cycles,
                cycles as u64,
            ),
            r == (old(self).mem.ppu.registers.nmi_interrupt is None
                && final(self).mem.ppu.registers.nmi_interrupt is Some),
    {
        let nmi_before = self.mem.ppu.registers.nmi_interrupt.is_some();
        let _frame = self.mem.ppu.tick(cycles * 3);
        let nmi_after = self.mem.ppu.registers.nmi_interrupt.is_some();
        self.cycles = self.cycles.wrapping_add(cycles as u64);
        !nmi_before && nmi_after
    }

    /// Record a controller button change.  Controller input is out of
    /// scope for this core — the ports read as disconnected — so the
    /// state is accepted and discarded.
    pub fn set_button_state(&mut self, joypad: u8, button: u8, pressed: bool)
        ensures
            *final(self) == *old(self),
    {
        let _ = joypad;
        let _ = button;
        let _ = pressed;
    }

    /// Advance the clock one CPU cycle at a time, for stalls longer than
    /// one instruction.
    fn tick_many(&mut self, cycles: u16)
        requires
            old(self).wf(),
        ensures
            final(self).wf(),
            final(self).mem.cpu_ram == old(self).mem.cpu_ram,
            final(self).mem.prg_rom == old(self).mem.prg_rom,
            final(self).mem.ppu == old(self).mem.ppu.advanced(3 * cycles as nat),
            final(self).cycles == vstd::wrapping::u64_specs::wrapping_add(
                old(self).cycles,
                cycles as u64,
            ),
    {
        let mut i: u16 = 0;
        proof {
            reveal(PPU::drain);
        }
        while i < cycles
            invariant
                old(self).wf(),
                self.wf(),
                i <= cycles,
                self.mem.cpu_ram == old(self).mem.cpu_ram,
                self.mem.prg_rom == old(self).mem.prg_rom,
                self.mem.ppu == old(self).mem.ppu.advanced(3 * i as nat),
                self.cycles == vstd::wrapping::u64_specs::wrapping_add(
                    old(self).cycles,
                    i as u64,
                ),
            decreases cycles - i,
        {
            let _frame = self.mem.ppu.tick(3);
            self.cycles = self.cycles.wrapping_add(1);
            proof {
                crate::ppu::lemma_advanced_additive(old(self).mem.ppu, 3 * i as nat, 3);
            }
            i += 1;
        }
    }
}

/// Writing a byte to an internal RAM address and reading it back — from
/// the same address or any of its three mirrors — returns that byte;
/// this is what makes a store-then-load pair an identity on RAM.
pub proof fn lemma_ram_write_then_read(pre: MemoryBus, post: MemoryBus, addr: u16, value: u8)
    requires
        pre.wf(),
        addr < 0x2000,
        pre.write_claim(post, addr, value),
    ensures
        forall|a2: u16|
            a2 < 0x2000 && a2 % 0x800 == addr % 0x800 ==> #[trigger] post.read_value(a2) == value,
        forall|a2: u16| a2 < 0x2000 ==> #[trigger] post.read_post(a2) == post,
{
}

/// 2 KiB of zeroed internal RAM.
fn zeros_ram() -> (r: Vec<u8>)
    ensures
        r@ == Seq::new(0x800, |i: int| 0u8),
{
    let mut out: Vec<u8> = Vec::new();
    let mut i: usize = 0;
    while i < 0x800
        invariant
            i <= 0x800,
            out@ =~= Seq::new(i as nat, |j: int| 0u8),
        decreases 0x800 - i,
    {
        out.push(0);
        proof {
            assert(out@ =~= Seq::new((i + 1) as nat, |j: int| 0u8));
        }
        i += 1;
    }
    out
}

} // verus!
