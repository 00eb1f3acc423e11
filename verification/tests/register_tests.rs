use nes::mapper::Mapper;
use nes::mapper::Mapper0;
use nes::ppu::addr::AddrReg;
use nes::ppu::ctrl::CtrlRegister;
use nes::ppu::mask::Color;
use nes::ppu::mask::MaskReg;
use nes::ppu::scroll::ScrollReg;
use nes::ppu::status::StatusReg;

#[test]
fn test_addr_latch_alternates() {
    // writes fill high byte, low byte, high byte, ... from a reset latch
    let mut reg = AddrReg::new();
    reg.update(0x21);
    reg.update(0x08);
    assert_eq!(reg.get(), 0x2108);
    reg.update(0x3F);
    reg.update(0x55);
    assert_eq!(reg.get(), 0x3F55);
}

#[test]
fn test_addr_reset_latch_restarts_sequence() {
    let mut reg = AddrReg::new();
    reg.update(0x21); // high byte written, latch now points at low
    reg.reset_latch();
    reg.update(0x33); // high byte again
    reg.update(0x44);
    assert_eq!(reg.get(), 0x3344);
}

#[test]
fn test_addr_is_fourteen_bits() {
    let mut reg = AddrReg::new();
    reg.update(0xFF); // masked to 0x3F
    reg.update(0xFF);
    assert_eq!(reg.get(), 0x3FFF);
    reg.increment(1);
    assert_eq!(reg.get(), 0x0000); // wraps within 14 bits
}

#[test]
fn test_addr_increment_steps() {
    let mut reg = AddrReg::new();
    reg.update(0x21);
    reg.update(0xFF);
    reg.increment(32);
    assert_eq!(reg.get(), 0x221F);
}

#[test]
fn test_ctrl_register_increment_select() {
    let mut ctrl = CtrlRegister::new();
    assert_eq!(ctrl.vram_addr_increment(), 1);
    ctrl.update(0x04);
    assert_eq!(ctrl.vram_addr_increment(), 32);
    assert!(!ctrl.generate_vblank_nmi());
    ctrl.update(0x80);
    assert!(ctrl.generate_vblank_nmi());
}

#[test]
fn test_scroll_register_latch() {
    let mut scroll = ScrollReg::new();
    scroll.write(13);
    scroll.write(27);
    assert_eq!(scroll.scroll_x, 13);
    assert_eq!(scroll.scroll_y, 27);
    scroll.reset_latch();
    scroll.write(99);
    assert_eq!(scroll.scroll_x, 99);
    assert_eq!(scroll.scroll_y, 27);
}

#[test]
fn test_status_register_bits() {
    let mut status = StatusReg::new();
    status.set_sprite_overflow(true);
    status.set_sprite_zero_hit(true);
    status.set_vblank_status(true);
    assert_eq!(status.snapshot(), 0xE0);
    assert!(status.is_in_vblank());
    status.reset_vblank_status();
    assert!(!status.is_in_vblank());
    assert_eq!(status.snapshot(), 0x60);
}

#[test]
fn test_mask_register_bits() {
    let mut mask = MaskReg::new();
    mask.update(0b1011_1111);
    assert!(mask.is_grayscale());
    assert!(mask.leftmost_8pxl_background());
    assert!(mask.leftmost_8pxl_sprite());
    assert!(mask.show_background());
    assert!(mask.show_sprites());
    assert_eq!(mask.emphasise(), vec![Color::Red, Color::Blue]);
    mask.update(0x40);
    assert_eq!(mask.emphasise(), vec![Color::Green]);
}

#[test]
fn test_mapper0_prg_mirroring() {
    let mut prg = vec![0u8; 0x4000];
    prg[0] = 0x12;
    prg[0x3FFF] = 0x34;
    let mapper = Mapper0::new(prg);
    assert_eq!(mapper.read_prg_byte(0x8000), 0x12);
    assert_eq!(mapper.read_prg_byte(0xC000), 0x12);
    assert_eq!(mapper.read_prg_byte(0xBFFF), 0x34);
    assert_eq!(mapper.read_prg_byte(0xFFFF), 0x34);
}

#[test]
fn test_mapper0_ignores_writes() {
    let mut mapper = Mapper0::new(vec![0x77; 0x4000]);
    mapper.write_prg_byte(0x8000, 0x00);
    assert_eq!(mapper.read_prg_byte(0x8000), 0x77);
    mapper.signal_scanline();
    mapper.write_chr_byte(0x0000, 0x55);
    assert_eq!(mapper.read_chr_byte(0x0000), 0);
}
