//! The mask register: grayscale, the leftmost-8-pixel masks, the render
//! enables, and the colour-emphasis bits.

use vstd::prelude::*;

verus! {

pub const MASK_GREYSCALE: u8 = 0x01;
pub const MASK_LEFTMOST_BACKGROUND: u8 = 0x02;
pub const MASK_LEFTMOST_SPRITE: u8 = 0x04;
pub const MASK_SHOW_BACKGROUND: u8 = 0x08;
pub const MASK_SHOW_SPRITES: u8 = 0x10;
pub const MASK_EMPHASISE_RED: u8 = 0x20;
pub const MASK_EMPHASISE_GREEN: u8 = 0x40;
pub const MASK_EMPHASISE_BLUE: u8 = 0x80;

/// A colour channel the mask register can emphasise.
#[derive(Clone, Copy, Debug, PartialEq, Eq, Structural)]
pub enum Color {
    Red,
    Green,
    Blue,
}

pub struct MaskReg {
    pub bits: u8,
}

/// The emphasised channels, reported red first, then blue, then green.
pub open spec fn emphasise_spec(bits: u8) -> Seq<Color> {
    (if bits & MASK_EMPHASISE_RED != 0 {
        seq![Color::Red]
    } else {
        Seq::empty()
    }) + (if bits & MASK_EMPHASISE_BLUE != 0 {
        seq![Color::Blue]
    } else {
        Seq::empty()
    }) + (if bits & MASK_EMPHASISE_GREEN != 0 {
        seq![Color::Green]
    } else {
        Seq::empty()
    })
}

impl MaskReg {
    pub open spec fn show_sprites_spec(self) -> bool {
        self.bits & MASK_SHOW_SPRITES != 0
    }

    pub fn new() -> (r: Self)
        ensures
            r.bits == 0,
    {
        MaskReg { bits: 0 }
    }

    pub fn is_grayscale(&self) -> (r: bool)
        ensures
            r == (self.bits & MASK_GREYSCALE != 0),
    {
        self.bits & MASK_GREYSCALE != 0
    }

    pub fn leftmost_8pxl_background(&self) -> (r: bool)
        ensures
            r == (self.bits & MASK_LEFTMOST_BACKGROUND != 0),
    {
        self.bits & MASK_LEFTMOST_BACKGROUND != 0
    }

    pub fn leftmost_8pxl_sprite(&self) -> (r: bool)
        ensures
            r == (self.bits & MASK_LEFTMOST_SPRITE != 0),
    {
        self.bits & MASK_LEFTMOST_SPRITE != 0
    }

    pub fn show_background(&self) -> (r: bool)
        ensures
            r == (self.bits & MASK_SHOW_BACKGROUND != 0),
    {
        self.bits & MASK_SHOW_BACKGROUND != 0
    }

    pub fn show_sprites(&self) -> (r: bool)
        ensures
            r == self.show_sprites_spec(),
    {
        self.bits & MASK_SHOW_SPRITES != 0
    }

    pub fn emphasise(&self) -> (r: Vec<Color>)
        ensures
            r@ == emphasise_spec(self.bits),
    {
        let mut result: Vec<Color> = Vec::new();
        if self.bits & MASK_EMPHASISE_RED != 0 {
            result.push(Color::Red);
        }
        if self.bits & MASK_EMPHASISE_BLUE != 0 {
            result.push(Color::Blue);
        }
        if self.bits & MASK_EMPHASISE_GREEN != 0 {
            result.push(Color::Green);
        }
        proof {
            assert(result@ =~= emphasise_spec(self.bits));
        }
        result
    }

    pub fn update(&mut self, data: u8)
        ensures
            final(self).bits == data,
    {
        self.bits = data;
    }
}

} // verus!
