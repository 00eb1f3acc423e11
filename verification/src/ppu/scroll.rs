//! The scroll register pair: the first write sets the X offset, the
//! second sets Y, driven by the shared write latch.

use vstd::prelude::*;

verus! {

pub struct ScrollReg {
    pub scroll_x: u8,
    pub scroll_y: u8,
    pub latch: bool,
}

impl ScrollReg {
    pub fn new() -> (r: Self)
        ensures
            r.scroll_x == 0,
            r.scroll_y == 0,
            r.latch == false,
    {
        ScrollReg { scroll_x: 0, scroll_y: 0, latch: false }
    }

    pub fn write(&mut self, data: u8)
        ensures
            final(self).scroll_x == if old(self).latch {
                old(self).scroll_x
            } else {
                data
            },
            final(self).scroll_y == if old(self).latch {
                data
            } else {
                old(self).scroll_y
            },
            final(self).latch == !old(self).latch,
    {
        if !self.latch {
            self.scroll_x = data;
        } else {
            self.scroll_y = data;
        }
        self.latch = !self.latch;
    }

    pub fn reset_latch(&mut self)
        ensures
            final(self).scroll_x == old(self).scroll_x,
            final(self).scroll_y == old(self).scroll_y,
            final(self).latch == false,
    {
        self.latch = false;
    }
}

} // verus!
