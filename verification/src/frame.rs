//! Background rendering: decoding pattern-table tiles, picking their
//! palettes from the attribute table, and composing an RGBA frame.
//! The exact shading of pixels is presentation, not emulation; what is
//! pinned down here is the tile decoding and the buffer geometry.

use vstd::prelude::*;

verus! {

pub const FRAME_WIDTH: usize = 256;
pub const FRAME_HEIGHT: usize = 240;

/// One 8x8 tile, two bits per pixel, row-major.
pub struct Tile {
    pub pixels: Vec<u8>,
}

/// The fixed 64-colour system palette.
pub struct SystemPalette {
    pub colors: Vec<u32>,
}

/// The two-bit value of a tile pixel: bit `7 - col` of the row's low
/// plane, plus twice the same bit of the high plane 8 bytes later.
pub open spec fn tile_pixel(pat: Seq<u8>, base: int, row: int, col: int) -> u8 {
    let low_bit = (pat[base + row] >> ((7 - col) as u8)) % 2;
    let high_bit = (pat[base + row + 8] >> ((7 - col) as u8)) % 2;
    (high_bit * 2 + low_bit) as u8
}

/// The 64 fixed system colours.
pub open spec fn system_palette() -> Seq<u32> {
    seq![
        0x626262u32, 0x001FB2, 0x2404C8, 0x5200B2, 0x730076, 0x800024, 0x730B00, 0x522800,
        0x244400, 0x005700, 0x005C00, 0x005324, 0x003C76, 0x000000, 0x000000, 0x000000,
        0xABABAB, 0x0D57FF, 0x4B30FF, 0x8A13FF, 0xBC08D6, 0xD21269, 0xC72E00, 0x9D5400,
        0x607B00, 0x209800, 0x00A300, 0x009942, 0x007DB4, 0x000000, 0x000000, 0x000000,
        0xFFFFFF, 0x53AEFF, 0x9085FF, 0xD365FF, 0xFF57FF, 0xFF5DCF, 0xFF7757, 0xFA9E00,
        0xBDC700, 0x7AE700, 0x43F611, 0x26EF7E, 0x2CD5F6, 0x4E4E4E, 0x000000, 0x000000,
        0xFFFFFF, 0xB6E1FF, 0xCED1FF, 0xE9C3FF, 0xFFBCFF, 0xFFBDF4, 0xFFC6C3, 0xFFD59A,
        0xE9E681, 0xCEF481, 0xB6FB9A, 0xA9FAC3, 0xA9F0F4, 0xB8B8B8, 0x000000, 0x000000,
    ]
}

impl SystemPalette {
    pub fn new() -> (r: SystemPalette)
        ensures
            r.colors@.len() == 64,
            r.colors@ == system_palette(),
    {
        let colors: Vec<u32> = vec![
            0x626262, 0x001FB2, 0x2404C8, 0x5200B2, 0x730076, 0x800024, 0x730B00, 0x522800,
            0x244400, 0x005700, 0x005C00, 0x005324, 0x003C76, 0x000000, 0x000000, 0x000000,
            0xABABAB, 0x0D57FF, 0x4B30FF, 0x8A13FF, 0xBC08D6, 0xD21269, 0xC72E00, 0x9D5400,
            0x607B00, 0x209800, 0x00A300, 0x009942, 0x007DB4, 0x000000, 0x000000, 0x000000,
            0xFFFFFF, 0x53AEFF, 0x9085FF, 0xD365FF, 0xFF57FF, 0xFF5DCF, 0xFF7757, 0xFA9E00,
            0xBDC700, 0x7AE700, 0x43F611, 0x26EF7E, 0x2CD5F6, 0x4E4E4E, 0x000000, 0x000000,
            0xFFFFFF, 0xB6E1FF, 0xCED1FF, 0xE9C3FF, 0xFFBCFF, 0xFFBDF4, 0xFFC6C3, 0xFFD59A,
            0xE9E681, 0xCEF481, 0xB6FB9A, 0xA9FAC3, 0xA9F0F4, 0xB8B8B8, 0x000000, 0x000000,
        ];
        proof {
            assert(colors@ =~= system_palette());
        }
        SystemPalette { colors }
    }
}

/// Decode tile `index` of a pattern table into its 64 two-bit pixels.
pub fn decode_tile(pattern_tables: &[u8], index: usize) -> (r: Tile)
    requires
        index < 0x1000,
        index * 16 + 16 <= pattern_tables@.len(),
    ensures
        r.pixels@.len() == 64,
        forall|row: int, col: int|
            0 <= row < 8 && 0 <= col < 8 ==> r.pixels@[row * 8 + col] == #[trigger] tile_pixel(
                pattern_tables@,
                index * 16,
                row,
                col,
            ),
{
    let mut pixels: Vec<u8> = Vec::new();
    let base = index * 16;
    let mut row: usize = 0;
    while row < 8
        invariant
            index < 0x1000,
            index * 16 + 16 <= pattern_tables@.len(),
            base == index * 16,
            row <= 8,
            pixels@.len() == row * 8,
            forall|r2: int, c2: int|
                0 <= r2 < row && 0 <= c2 < 8 ==> pixels@[r2 * 8 + c2] == #[trigger] tile_pixel(
                    pattern_tables@,
                    base as int,
                    r2,
                    c2,
                ),
        decreases 8 - row,
    {
        let low_byte = pattern_tables[base + row];
        let high_byte = pattern_tables[base + row + 8];
        let mut col: usize = 0;
        while col < 8
            invariant
                index < 0x1000,
                index * 16 + 16 <= pattern_tables@.len(),
                base == index * 16,
                row < 8,
                col <= 8,
                low_byte == pattern_tables@[base + row],
                high_byte == pattern_tables@[base + row + 8],
                pixels@.len() == row * 8 + col,
                forall|r2: int, c2: int|
                    0 <= r2 < row && 0 <= c2 < 8 ==> pixels@[r2 * 8 + c2] == #[trigger] tile_pixel(
                        pattern_tables@,
                        base as int,
                        r2,
                        c2,
                    ),
                forall|c2: int|
                    0 <= c2 < col ==> pixels@[row * 8 + c2] == #[trigger] tile_pixel(
                        pattern_tables@,
                        base as int,
                        row as int,
                        c2,
                    ),
            decreases 8 - col,
        {
            let shift = (7 - col) as u8;
            let low_bit = (low_byte >> shift) % 2;
            let high_bit = (high_byte >> shift) % 2;
            pixels.push(high_bit * 2 + low_bit);
            col += 1;
        }
        row += 1;
    }
    Tile { pixels }
}

/// The colour the attribute table assigns to slot `i` of the tile at
/// `(tile_x, tile_y)`: two attribute bits pick one of four four-byte
/// palettes, and the palette byte (six significant bits) picks the
/// system colour.
pub open spec fn tile_palette_color(
    name_tables: Seq<u8>,
    palette_ram: Seq<u8>,
    colors: Seq<u32>,
    tile_x: int,
    tile_y: int,
    i: int,
) -> u32 {
    let attr_byte = name_tables[0x3C0 + (tile_y / 4) * 8 + tile_x / 4];
    let shift = ((tile_x % 4 / 2) + 2 * (tile_y % 4 / 2)) * 2;
    let palette_index = (attr_byte >> (shift as u8)) % 4;
    colors[(palette_ram[palette_index * 4 + i] % 64) as int]
}

/// Look up the four colours for one background tile.
pub fn tile_palette(
    name_tables: &[u8],
    palette_ram: &[u8],
    palette: &SystemPalette,
    tile_x: usize,
    tile_y: usize,
) -> (r: [u32; 4])
    requires
        name_tables@.len() >= 0x400,
        palette_ram@.len() == 0x20,
        palette.colors@.len() == 64,
        tile_x < 32,
        tile_y < 30,
    ensures
        forall|i: int|
            0 <= i < 4 ==> r@[i] == #[trigger] tile_palette_color(
                name_tables@,
                palette_ram@,
                palette.colors@,
                tile_x as int,
                tile_y as int,
                i,
            ),
{
    let attr_x = tile_x / 4;
    let attr_y = tile_y / 4;
    let attr_byte = name_tables[0x3C0 + attr_y * 8 + attr_x];
    let shift = ((tile_x % 4 / 2) + 2 * (tile_y % 4 / 2)) * 2;
    let palette_index = ((attr_byte >> (shift as u8)) % 4) as usize;
    [
        palette.colors[(palette_ram[palette_index * 4] % 64) as usize],
        palette.colors[(palette_ram[palette_index * 4 + 1] % 64) as usize],
        palette.colors[(palette_ram[palette_index * 4 + 2] % 64) as usize],
        palette.colors[(palette_ram[palette_index * 4 + 3] % 64) as usize],
    ]
}

/// Byte `k` of a packed pixel, little-endian.
pub open spec fn le_byte(p: u32, k: int) -> u8 {
    if k == 0 {
        (p % 256) as u8
    } else if k == 1 {
        (p / 256 % 256) as u8
    } else if k == 2 {
        (p / 65536 % 256) as u8
    } else {
        (p / 16777216) as u8
    }
}

/// The colour background composition leaves at pixel `(x, y)`: the
/// palette colour of the covering tile's pixel when that tile's pattern
/// bytes are in range, else the frame's own pixel.
pub open spec fn composed_pixel(
    base: Seq<u32>,
    pat: Seq<u8>,
    name_tables: Seq<u8>,
    palette_ram: Seq<u8>,
    colors: Seq<u32>,
    x: int,
    y: int,
) -> u32 {
    let tile_x = x / 8;
    let tile_y = y / 8;
    let index = tile_y * 32 + tile_x;
    if index * 16 + 16 <= pat.len() {
        tile_palette_color(
            name_tables,
            palette_ram,
            colors,
            tile_x,
            tile_y,
            tile_pixel(pat, index * 16, y % 8, x % 8) as int,
        )
    } else {
        base[y * 256 + x]
    }
}

/// A frame of 256 x 240 packed-RGB pixels.
pub struct Frame {
    pub pixels: Vec<u32>,
}

impl Frame {
    pub open spec fn wf(self) -> bool {
        self.pixels@.len() == FRAME_WIDTH * FRAME_HEIGHT
    }

    pub fn new() -> (r: Frame)
        ensures
            r.wf(),
            forall|i: int| 0 <= i < r.pixels@.len() ==> r.pixels@[i] == 0,
    {
        let mut pixels: Vec<u32> = Vec::new();
        let mut i: usize = 0;
        while i < FRAME_WIDTH * FRAME_HEIGHT
            invariant
                i <= FRAME_WIDTH * FRAME_HEIGHT,
                pixels@.len() == i,
                forall|j: int| 0 <= j < i ==> pixels@[j] == 0,
            decreases FRAME_WIDTH * FRAME_HEIGHT - i,
        {
            pixels.push(0);
            i += 1;
        }
        Frame { pixels }
    }

    /// Blank every pixel.
    pub fn clear(&mut self)
        requires
            old(self).wf(),
        ensures
            final(self).wf(),
            forall|i: int| 0 <= i < final(self).pixels@.len() ==> final(self).pixels@[i] == 0,
    {
        let mut i: usize = 0;
        while i < self.pixels.len()
            invariant
                self.pixels@.len() == old(self).pixels@.len(),
                i <= self.pixels@.len(),
                forall|j: int| 0 <= j < i ==> self.pixels@[j] == 0,
            decreases self.pixels@.len() - i,
        {
            self.pixels[i] = 0;
            i += 1;
        }
    }

    /// Compose the 32x30 background tile grid over this frame's pixels
    /// and serialize the result as four little-endian bytes per pixel:
    /// byte `k` of the output is byte `k % 4` of the composed colour of
    /// pixel `k / 4`.
    pub fn render_frame(
        &self,
        pattern_tables: &[u8],
        name_tables: &[u8],
        palette_ram: &[u8],
        palette: &SystemPalette,
    ) -> (r: Vec<u8>)
        requires
            self.wf(),
            name_tables@.len() >= 0x400,
            palette_ram@.len() == 0x20,
            palette.colors@.len() == 64,
        ensures
            r@.len() == FRAME_WIDTH * FRAME_HEIGHT * 4,
            forall|k: int|
                0 <= k < FRAME_WIDTH * FRAME_HEIGHT * 4 ==> #[trigger] r@[k] == le_byte(
                    composed_pixel(
                        self.pixels@,
                        pattern_tables@,
                        name_tables@,
                        palette_ram@,
                        palette.colors@,
                        k / 4 % 256,
                        k / 4 / 256,
                    ),
                    k % 4,
                ),
    {
        let ghost base = self.pixels@;
        let ghost pat = pattern_tables@;
        let ghost nt = name_tables@;
        let ghost pr = palette_ram@;
        let ghost cols = palette.colors@;
        let mut frame: Vec<u32> = clone_pixels(&self.pixels);
        let mut tile_y: usize = 0;
        while tile_y < 30
            invariant
                base.len() == 61440,
                frame@.len() == 61440,
                pat == pattern_tables@,
                nt == name_tables@,
                pr == palette_ram@,
                cols == palette.colors@,
                nt.len() >= 0x400,
                pr.len() == 0x20,
                cols.len() == 64,
                tile_y <= 30,
                forall|i: int|
                    0 <= i < 61440 ==> #[trigger] frame@[i] == if i / 256 < tile_y * 8 {
                        composed_pixel(base, pat, nt, pr, cols, i % 256, i / 256)
                    } else {
                        base[i]
                    },
            decreases 30 - tile_y,
        {
            let mut tile_x: usize = 0;
            while tile_x < 32
                invariant
                    base.len() == 61440,
                    frame@.len() == 61440,
                    pat == pattern_tables@,
                    nt == name_tables@,
                    pr == palette_ram@,
                    cols == palette.colors@,
                    nt.len() >= 0x400,
                    pr.len() == 0x20,
                    cols.len() == 64,
                    tile_y < 30,
                    tile_x <= 32,
                    forall|i: int|
                        0 <= i < 61440 ==> #[trigger] frame@[i] == if i / 256 < tile_y * 8 || (i
                            / 256 < tile_y * 8 + 8 && i % 256 < tile_x * 8) {
                            composed_pixel(base, pat, nt, pr, cols, i % 256, i / 256)
                        } else {
                            base[i]
                        },
                decreases 32 - tile_x,
            {
                let index = tile_y * 32 + tile_x;
                if index * 16 + 16 <= pattern_tables.len() {
                    let tile = decode_tile(pattern_tables, index);
                    let colors = tile_palette(name_tables, palette_ram, palette, tile_x, tile_y);
                    let mut row: usize = 0;
                    while row < 8
                        invariant
                            base.len() == 61440,
                            frame@.len() == 61440,
                            pat == pattern_tables@,
                            nt.len() >= 0x400,
                            pr.len() == 0x20,
                            cols.len() == 64,
                            tile_y < 30,
                            tile_x < 32,
                            row <= 8,
                            index == tile_y * 32 + tile_x,
                            index * 16 + 16 <= pat.len(),
                            tile.pixels@.len() == 64,
                            forall|r2: int, c2: int|
                                0 <= r2 < 8 && 0 <= c2 < 8 ==> tile.pixels@[r2 * 8 + c2]
                                    == #[trigger] tile_pixel(pat, index * 16, r2, c2),
                            forall|i: int|
                                0 <= i < 4 ==> colors@[i] == #[trigger] tile_palette_color(
                                    nt,
                                    pr,
                                    cols,
                                    tile_x as int,
                                    tile_y as int,
                                    i,
                                ),
                            forall|i: int|
                                0 <= i < 61440 ==> #[trigger] frame@[i] == if i / 256 < tile_y * 8
                                    || (i / 256 < tile_y * 8 + 8 && i % 256 < tile_x * 8) || (i
                                    / 256 < tile_y * 8 + row && tile_x * 8 <= i % 256 < tile_x * 8
                                    + 8) {
                                    composed_pixel(base, pat, nt, pr, cols, i % 256, i / 256)
                                } else {
                                    base[i]
                                },
                        decreases 8 - row,
                    {
                        let mut col: usize = 0;
                        while col < 8
                            invariant
                                base.len() == 61440,
                                frame@.len() == 61440,
                                pat == pattern_tables@,
                                nt.len() >= 0x400,
                                pr.len() == 0x20,
                                cols.len() == 64,
                                tile_y < 30,
                                tile_x < 32,
                                row < 8,
                                col <= 8,
                                index == tile_y * 32 + tile_x,
                                index * 16 + 16 <= pat.len(),
                                tile.pixels@.len() == 64,
                                forall|r2: int, c2: int|
                                    0 <= r2 < 8 && 0 <= c2 < 8 ==> tile.pixels@[r2 * 8 + c2]
                                        == #[trigger] tile_pixel(pat, index * 16, r2, c2),
                                forall|i: int|
                                    0 <= i < 4 ==> colors@[i] == #[trigger] tile_palette_color(
                                        nt,
                                        pr,
                                        cols,
                                        tile_x as int,
                                        tile_y as int,
                                        i,
                                    ),
                                forall|i: int|
                                    0 <= i < 61440 ==> #[trigger] frame@[i] == if i / 256 < tile_y
                                        * 8 || (i / 256 < tile_y * 8 + 8 && i % 256 < tile_x * 8)
                                        || (i / 256 < tile_y * 8 + row && tile_x * 8 <= i % 256
                                        < tile_x * 8 + 8) || (i / 256 == tile_y * 8 + row && tile_x
                                        * 8 <= i % 256 < tile_x * 8 + col) {
                                        composed_pixel(base, pat, nt, pr, cols, i % 256, i / 256)
                                    } else {
                                        base[i]
                                    },
                            decreases 8 - col,
                        {
                            let pixel = tile.pixels[row * 8 + col];
                            let color = colors[(pixel % 4) as usize];
                            let x = tile_x * 8 + col;
                            let y = tile_y * 8 + row;
                            frame[y * FRAME_WIDTH + x] = color;
                            proof {
                                let i0 = (y * 256 + x) as int;
                                assert(i0 / 256 == y && i0 % 256 == x);
                                assert(x as int / 8 == tile_x && x as int % 8 == col);
                                assert(y as int / 8 == tile_y && y as int % 8 == row);
                                assert(tile.pixels@[row * 8 + col] == tile_pixel(
                                    pat,
                                    index * 16,
                                    row as int,
                                    col as int,
                                ));
                                assert(color == composed_pixel(
                                    base,
                                    pat,
                                    nt,
                                    pr,
                                    cols,
                                    x as int,
                                    y as int,
                                ));
                            }
                            col += 1;
                        }
                        row += 1;
                    }
                } else {
                    proof {
                        assert forall|i: int|
                            0 <= i < 61440 && (i / 256 < tile_y * 8 + 8 && tile_y * 8 <= i / 256
                                && tile_x * 8 <= i % 256 < tile_x * 8 + 8) implies frame@[i]
                            == composed_pixel(base, pat, nt, pr, cols, i % 256, i / 256) by {
                            assert((i % 256) / 8 == tile_x && (i / 256) / 8 == tile_y);
                            assert((i / 256) * 256 + i % 256 == i);
                        }
                    }
                }
                tile_x += 1;
            }
            tile_y += 1;
        }

        let mut out: Vec<u8> = Vec::new();
        let mut i: usize = 0;
        while i < frame.len()
            invariant
                frame@.len() == 61440,
                i <= 61440,
                out@.len() == 4 * i,
                forall|k: int| 0 <= k < 4 * i ==> #[trigger] out@[k] == le_byte(frame@[k / 4], k % 4),
            decreases frame@.len() - i,
        {
            let pixel = frame[i];
            out.push((pixel % 256) as u8);
            out.push((pixel / 256 % 256) as u8);
            out.push((pixel / 65536 % 256) as u8);
            out.push((pixel / 16777216) as u8);
            i += 1;
        }
        proof {
            assert forall|k: int|
                0 <= k < FRAME_WIDTH * FRAME_HEIGHT * 4 implies #[trigger] out@[k] == le_byte(
                composed_pixel(base, pat, nt, pr, cols, k / 4 % 256, k / 4 / 256),
                k % 4,
            ) by {
                assert(out@[k] == le_byte(frame@[k / 4], k % 4));
                assert(frame@[k / 4] == composed_pixel(
                    base,
                    pat,
                    nt,
                    pr,
                    cols,
                    (k / 4) % 256,
                    (k / 4) / 256,
                ));
            }
        }
        out
    }
}

/// Copy a pixel buffer.
fn clone_pixels(src: &Vec<u32>) -> (r: Vec<u32>)
    ensures
        r@ == src@,
{
    let mut out: Vec<u32> = Vec::new();
    let mut i: usize = 0;
    while i < src.len()
        invariant
            i <= src@.len(),
            out@ =~= src@.subrange(0, i as int),
        decreases src@.len() - i,
    {
        out.push(src[i]);
        proof {
            assert(out@ =~= src@.subrange(0, i + 1));
        }
        i += 1;
    }
    proof {
        assert(out@ =~= src@);
    }
    out
}

} // verus!
