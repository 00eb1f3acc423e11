use nes::bus::Bus;
use nes::bus::MemoryBus;
use nes::rom::Mirroring;
use nes::rom::Rom;

fn sample_bus() -> Bus {
    let mut prg = vec![0u8; 0x4000]; // 16 KiB, so the image appears twice
    prg[0] = 0x55;
    prg[1] = 0xAA;
    let rom = Rom { prg_rom: prg, chr_rom: vec![0; 8192], mapper: 0, mirroring: Mirroring::Horizontal };
    Bus::new(rom)
}

#[test]
fn test_ram_is_mirrored_four_times() {
    let mut bus = sample_bus();
    bus.mem_write(0x0005, 0x42);
    assert_eq!(bus.mem_read(0x0005), 0x42);
    assert_eq!(bus.mem_read(0x0805), 0x42);
    assert_eq!(bus.mem_read(0x1005), 0x42);
    assert_eq!(bus.mem_read(0x1805), 0x42);
}

#[test]
fn test_prg_rom_16k_appears_twice() {
    let mut bus = sample_bus();
    assert_eq!(bus.mem_read(0x8000), 0x55);
    assert_eq!(bus.mem_read(0x8001), 0xAA);
    assert_eq!(bus.mem_read(0xC000), 0x55);
    assert_eq!(bus.mem_read(0xC001), 0xAA);
}

#[test]
fn test_rom_writes_are_ignored() {
    let mut bus = sample_bus();
    bus.mem_write(0x8000, 0x99);
    assert_eq!(bus.mem_read(0x8000), 0x55);
}

#[test]
fn test_read_word_is_little_endian() {
    let mut bus = sample_bus();
    bus.mem_write(0x0010, 0xCD);
    bus.mem_write(0x0011, 0xAB);
    assert_eq!(bus.read_word(0x0010), 0xABCD);
}

#[test]
fn test_apu_range_reads_zero() {
    let mut bus = sample_bus();
    bus.mem_write(0x4000, 0x77); // swallowed
    assert_eq!(bus.mem_read(0x4000), 0);
    assert_eq!(bus.mem_read(0x4015), 0);
    assert_eq!(bus.mem_read(0x4016), 0);
    assert_eq!(bus.mem_read(0x4017), 0);
}

#[test]
fn test_ppu_registers_mirror_every_eight_bytes() {
    let mut bus = sample_bus();
    // ADDR (0x2006) written through a mirror at 0x3456 % 8 == 6
    bus.mem_write(0x3456, 0x23);
    bus.mem_write(0x2006, 0x05);
    bus.mem_write(0x2007, 0x66);
    assert_eq!(bus.mem.ppu.vram[0x0305], 0x66);
}

#[test]
fn test_write_only_registers_read_zero() {
    let mut bus = sample_bus();
    assert_eq!(bus.mem_read(0x2000), 0);
    assert_eq!(bus.mem_read(0x2001), 0);
    assert_eq!(bus.mem_read(0x2003), 0);
    assert_eq!(bus.mem_read(0x2005), 0);
    assert_eq!(bus.mem_read(0x2006), 0);
    assert_eq!(bus.mem_read(0x4014), 0);
}

#[test]
fn test_oam_dma_copies_page_and_stalls() {
    let mut bus = sample_bus();
    for i in 0..256u16 {
        bus.mem_write(0x0200 + i, (255 - i) as u8);
    }
    bus.mem_write(0x2003, 0x00); // OAMADDR = 0
    let cycles_before = bus.cycles;

    bus.mem_write(0x4014, 0x02); // DMA from page 2

    assert_eq!(bus.mem.ppu.registers.oam_data[0], 255);
    assert_eq!(bus.mem.ppu.registers.oam_data[255], 0);
    let stall = bus.cycles - cycles_before;
    assert!(stall == 513 || stall == 514);
}

#[test]
fn test_oam_dma_wraps_at_current_oam_addr() {
    let mut bus = sample_bus();
    for i in 0..256u16 {
        bus.mem_write(0x0300 + i, i as u8);
    }
    bus.mem_write(0x2003, 0x10); // OAMADDR = 0x10
    bus.mem_write(0x4014, 0x03);
    // byte 0 of the page lands at slot 0x10; byte 0xF0 wraps to slot 0
    assert_eq!(bus.mem.ppu.registers.oam_data[0x10], 0x00);
    assert_eq!(bus.mem.ppu.registers.oam_data[0x00], 0xF0);
    assert_eq!(bus.mem.ppu.registers.oam_data[0x0F], 0xFF);
}

#[test]
fn test_tick_reports_nmi_edge_once_per_frame() {
    let mut bus = sample_bus();
    bus.mem_write(0x2000, 0x80); // enable NMI on vblank
    let mut edges = 0u32;
    // two frames are 2 * 262 * 341 = 178684 dots; 59562 CPU cycles give
    // 178686 dots, just past the second frame and far from the third
    for _ in 0..700 {
        if bus.tick(85) {
            edges += 1;
        }
    }
    if bus.tick(62) {
        edges += 1;
    }
    assert_eq!(edges, 2);
}

#[test]
fn test_memory_bus_word_read() {
    let mut mem = MemoryBus::new(vec![0x10, 0x20], vec![0; 8192], Mirroring::Vertical);
    mem.cpu_write(0x0000, 0x34);
    mem.cpu_write(0x0001, 0x12);
    assert_eq!(mem.cpu_read_word(0x0000), 0x1234);
    assert_eq!(mem.cpu_read(0x8000), 0x10);
    assert_eq!(mem.cpu_read(0x8001), 0x20);
    assert_eq!(mem.cpu_read(0x8002), 0x10); // modulo the 2-byte image
}
