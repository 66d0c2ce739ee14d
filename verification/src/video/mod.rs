//! Colours, frame buffers and the picture processing unit.
pub mod laws;
pub mod ppu2c02;

use vstd::prelude::*;

verus! {

/// A colour as red, green, blue and alpha channels.
#[derive(PartialEq, Eq, Clone, Copy, Debug)]
pub struct Color {
    pub channels: [u8; 4],
}

/// The colour with the given channels.
pub open spec fn rgba(r: u8, g: u8, b: u8, a: u8) -> Color {
    Color { channels: [r, g, b, a] }
}

impl Color {
    pub fn from_rgba(r: u8, g: u8, b: u8, a: u8) -> (c: Self)
        ensures
            c == rgba(r, g, b, a),
    {
        Self { channels: [r, g, b, a] }
    }

    /// An opaque colour.
    pub fn from_rgb(r: u8, g: u8, b: u8) -> (c: Self)
        ensures
            c == rgba(r, g, b, 0xFF),
    {
        Self { channels: [r, g, b, 0xFF] }
    }

    pub fn r(&self) -> (v: u8)
        ensures
            v == self.channels@[0],
    {
        self.channels[0]
    }

    pub fn g(&self) -> (v: u8)
        ensures
            v == self.channels@[1],
    {
        self.channels[1]
    }

    pub fn b(&self) -> (v: u8)
        ensures
            v == self.channels@[2],
    {
        self.channels[2]
    }

    pub fn a(&self) -> (v: u8)
        ensures
            v == self.channels@[3],
    {
        self.channels[3]
    }

    pub fn r_mut(&mut self) -> (v: &mut u8)
        ensures
            *v == old(self).channels@[0],
            final(self).channels@ == old(self).channels@.update(0, *final(v)),
    {
        &mut self.channels[0]
    }

    pub fn g_mut(&mut self) -> (v: &mut u8)
        ensures
            *v == old(self).channels@[1],
            final(self).channels@ == old(self).channels@.update(1, *final(v)),
    {
        &mut self.channels[1]
    }

    pub fn b_mut(&mut self) -> (v: &mut u8)
        ensures
            *v == old(self).channels@[2],
            final(self).channels@ == old(self).channels@.update(2, *final(v)),
    {
        &mut self.channels[2]
    }

    pub fn a_mut(&mut self) -> (v: &mut u8)
        ensures
            *v == old(self).channels@[3],
            final(self).channels@ == old(self).channels@.update(3, *final(v)),
    {
        &mut self.channels[3]
    }
}

/// A picture of `width` by `height` pixels, stored row by row.
pub trait VideoBuffer {
    spec fn spec_width(&self) -> usize;

    spec fn spec_height(&self) -> usize;

    spec fn spec_pixels(&self) -> Seq<Color>;

    fn width(&self) -> (r: usize)
        ensures
            r == self.spec_width(),
    ;

    fn height(&self) -> (r: usize)
        ensures
            r == self.spec_height(),
    ;

    fn get_pixels(&self) -> (r: &[Color])
        ensures
            r@ == self.spec_pixels(),
    ;

    /// The pixel in column `x` of row `y`.
    fn get_pixel(&self, x: usize, y: usize) -> (c: Color)
        requires
            y * self.spec_width() + x < self.spec_pixels().len(),
        ensures
            c == self.spec_pixels()[y * self.spec_width() + x],
    ;
}

/// Black.
pub open spec fn black() -> Color {
    rgba(0, 0, 0, 0xFF)
}

/// White.
pub open spec fn white() -> Color {
    rgba(0xFF, 0xFF, 0xFF, 0xFF)
}


/// A video chip: it resets, and it runs for a number of its own clock cycles.
pub trait VideoChip: View + Sized {
    /// The chip's invariant.
    spec fn wf(state: Self::V) -> bool;

    spec fn after_reset(state: Self::V) -> Self::V;

    /// The state after `cycles` clocks.
    spec fn after_clock(state: Self::V, cycles: nat) -> Self::V;

    fn reset(&mut self)
        requires
            Self::wf(old(self)@),
        ensures
            Self::wf(final(self)@),
            final(self)@ == Self::after_reset(old(self)@),
    ;

    fn clock(&mut self, cycles: u32)
        requires
            Self::wf(old(self)@),
        ensures
            Self::wf(final(self)@),
            final(self)@ == Self::after_clock(old(self)@, cycles as nat),
    ;
}

} // verus!
