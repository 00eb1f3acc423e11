use nes::ppu::PPU;
use nes::rom::Mirroring;

#[test]
fn test_vblank_rises_entering_scanline_241() {
    let mut ppu = PPU::new_empty_rom();
    ppu.registers.write_control(0x80); // NMI enable

    // run to the end of scanline 240: 241 * 341 dots
    let mut dots: u64 = 0;
    while dots + 241 <= 241 * 341 {
        ppu.tick(241);
        dots += 241;
    }
    while dots < 241 * 341 {
        ppu.tick(1);
        dots += 1;
    }
    assert_eq!(ppu.scanline, 241);
    assert_eq!(ppu.registers.status.snapshot() >> 7, 1);
    assert_eq!(ppu.poll_nmi_interrupt(), Some(1));
}

#[test]
fn test_exactly_one_frame_per_262_scanlines() {
    let mut ppu = PPU::new_empty_rom();
    let mut frames = 0u32;
    let mut vblank_rises = 0u32;
    let mut last_vblank = false;
    // one full frame: 262 scanlines of 341 dots, in two ticks each
    for _ in 0..262 {
        for chunk in [170u8, 171u8] {
            if ppu.tick(chunk) {
                frames += 1;
            }
            let vblank = ppu.registers.status.snapshot() >> 7 == 1;
            if vblank && !last_vblank {
                vblank_rises += 1;
            }
            last_vblank = vblank;
        }
    }
    assert_eq!(frames, 1);
    assert_eq!(vblank_rises, 1);
    assert_eq!(ppu.scanline, 0);
}

#[test]
fn test_frame_wrap_clears_vblank_and_nmi() {
    let mut ppu = PPU::new_empty_rom();
    ppu.registers.write_control(0x80);
    for _ in 0..262 {
        ppu.tick(170);
        ppu.tick(171);
    }
    assert_eq!(ppu.scanline, 0);
    assert_eq!(ppu.registers.status.snapshot() >> 7, 0);
    assert_eq!(ppu.poll_nmi_interrupt(), None);
}

#[test]
fn test_data_buffered_read_scenario() {
    // Set ADDR to 0x2305, write 0x66, point ADDR back, and read twice:
    // the first read returns the stale buffer (zero), the second the
    // written byte.
    let mut ppu = PPU::new_empty_rom();
    ppu.set_addr(0x23);
    ppu.set_addr(0x05);
    ppu.write_to_data(0x66);

    ppu.set_addr(0x23);
    ppu.set_addr(0x05);
    assert_eq!(ppu.read_data(), 0x00);
    assert_eq!(ppu.read_data(), 0x66);
}

#[test]
fn test_vertical_mirroring_write_then_read() {
    // Under vertical mirroring 0x2C05 and 0x2405 share a byte.
    let mut ppu = PPU::new(vec![0; 2048], Mirroring::Vertical);
    ppu.set_addr(0x2C);
    ppu.set_addr(0x05);
    ppu.write_to_data(0x77);

    ppu.set_addr(0x24);
    ppu.set_addr(0x05);
    ppu.read_data(); // dummy read fills the buffer
    assert_eq!(ppu.read_data(), 0x77);
}

#[test]
fn test_palette_read_is_immediate_and_aliased() {
    let mut ppu = PPU::new_empty_rom();
    // write 0x3F10, which aliases onto 0x3F00
    ppu.set_addr(0x3F);
    ppu.set_addr(0x10);
    ppu.write_to_data(0x2A);

    ppu.set_addr(0x3F);
    ppu.set_addr(0x00);
    assert_eq!(ppu.read_data(), 0x2A); // no buffering delay
}

#[test]
fn test_write_control_during_vblank_latches_nmi() {
    let mut ppu = PPU::new_empty_rom();
    ppu.registers.status.set_vblank_status(true);
    assert_eq!(ppu.poll_nmi_interrupt(), None);
    ppu.set_ctrl(0x80); // enabling NMI during vblank fires at once
    assert_eq!(ppu.poll_nmi_interrupt(), Some(1));
}

#[test]
fn test_read_register_dispatch() {
    let mut ppu = PPU::new_empty_rom();
    ppu.registers.write_to_oam_addr(3);
    ppu.registers.write_to_oam_data(0x5C);
    ppu.registers.write_to_oam_addr(3);
    assert_eq!(ppu.read_register(0x2004), 0x5C);
    assert_eq!(ppu.read_register(0x2000), 0); // write-only reads as zero
    assert_eq!(ppu.read_register(0x2005), 0);
}

#[test]
fn test_write_register_dispatch() {
    let mut ppu = PPU::new_empty_rom();
    ppu.write_register(0x2000, 0x04);
    assert_eq!(ppu.registers.ctrl.bits, 0x04);
    ppu.write_register(0x2001, 0x1E);
    assert_eq!(ppu.registers.mask.bits, 0x1E);
    ppu.write_register(0x2006, 0x21);
    ppu.write_register(0x2006, 0x08);
    ppu.write_register(0x2007, 0x9D);
    assert_eq!(ppu.vram[0x0108], 0x9D);
}

#[test]
fn test_chr_ram_accepts_writes() {
    // a cartridge that declares no CHR gets 8 KiB of CHR RAM
    let mut ppu = PPU::new(vec![], Mirroring::Horizontal);
    ppu.set_addr(0x01);
    ppu.set_addr(0x23);
    ppu.write_to_data(0x42);
    assert_eq!(ppu.chr_rom[0x0123], 0x42);

    // CHR ROM refuses them
    let mut rom_ppu = PPU::new(vec![0; 8192], Mirroring::Horizontal);
    rom_ppu.set_addr(0x01);
    rom_ppu.set_addr(0x23);
    rom_ppu.write_to_data(0x42);
    assert_eq!(rom_ppu.chr_rom[0x0123], 0x00);
}

#[test]
fn test_sprite_zero_hit_on_matching_scanline() {
    let mut ppu = PPU::new_empty_rom();
    ppu.registers.oam_data[0] = 5; // sprite 0 Y
    ppu.registers.oam_data[3] = 10; // sprite 0 X
    ppu.registers.write_to_mask(0x10); // show sprites
    for _ in 0..6 {
        ppu.tick(170);
        ppu.tick(171);
    }
    assert_eq!(ppu.registers.status.snapshot() & 0x40, 0x40);
}
