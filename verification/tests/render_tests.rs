use nes::frame::decode_tile;
use nes::frame::tile_palette;
use nes::frame::Frame;
use nes::frame::SystemPalette;
use nes::ppu::PPU;

#[test]
fn test_decode_tile_planes() {
    // tile 0: low plane row 0 = 0b1000_0001, high plane row 0 = 0b0000_0001
    let mut pattern = vec![0u8; 32];
    pattern[0] = 0b1000_0001;
    pattern[8] = 0b0000_0001;
    let tile = decode_tile(&pattern, 0);
    assert_eq!(tile.pixels[0], 1); // low bit only
    assert_eq!(tile.pixels[7], 3); // both planes
    assert_eq!(tile.pixels[1], 0);
    assert_eq!(tile.pixels[8], 0); // next row clear
}

#[test]
fn test_decode_second_tile() {
    let mut pattern = vec![0u8; 64];
    pattern[16 + 3] = 0b0100_0000; // tile 1, row 3, pixel column 1
    let tile = decode_tile(&pattern, 1);
    assert_eq!(tile.pixels[3 * 8 + 1], 1);
    assert_eq!(tile.pixels[3 * 8 + 0], 0);
}

#[test]
fn test_tile_palette_uses_attribute_bits() {
    let mut name_tables = vec![0u8; 0x400];
    // attribute byte for the top-left 4x4 tile block: palette 2 for the
    // top-left quadrant
    name_tables[0x3C0] = 0b0000_0010;
    let mut palette_ram = vec![0u8; 32];
    palette_ram[8] = 1; // palette 2 starts at slot 8
    palette_ram[9] = 2;
    palette_ram[10] = 3;
    palette_ram[11] = 4;
    let palette = SystemPalette::new();
    let colors = tile_palette(&name_tables, &palette_ram, &palette, 0, 0);
    assert_eq!(colors[0], palette.colors[1]);
    assert_eq!(colors[1], palette.colors[2]);
    assert_eq!(colors[2], palette.colors[3]);
    assert_eq!(colors[3], palette.colors[4]);
}

#[test]
fn test_frame_new_and_clear() {
    let mut frame = Frame::new();
    assert_eq!(frame.pixels.len(), 256 * 240);
    frame.pixels[17] = 0xDEAD;
    frame.clear();
    assert_eq!(frame.pixels[17], 0);
}

#[test]
fn test_system_palette_has_64_colors() {
    let palette = SystemPalette::new();
    assert_eq!(palette.colors.len(), 64);
}

#[test]
fn test_render_frame_geometry() {
    let frame = Frame::new();
    let palette = SystemPalette::new();
    let pattern = vec![0u8; 0x2000];
    let name_tables = vec![0u8; 0x800];
    let palette_ram = vec![0u8; 0x20];
    let bytes = frame.render_frame(&pattern, &name_tables, &palette_ram, &palette);
    assert_eq!(bytes.len(), 256 * 240 * 4);
}

#[test]
fn test_ppu_render_frame_length() {
    let ppu = PPU::new(vec![0; 0x2000], nes::rom::Mirroring::Horizontal);
    let bytes = ppu.render_frame();
    assert_eq!(bytes.len(), 256 * 240 * 4);
}
