//! Colors with fixed-point channels.
//!
//! Every channel is stored in thousandths: `0` is fully off, `COLOR_SCALE`
//! (1000) is fully on. The alpha channel uses the same scale, so the fade
//! timer's derived alpha can be written into a color directly.

use vstd::prelude::*;

verus! {

/// A channel value of `COLOR_SCALE` stands for 1.0; all channels lie in
/// `0 ..= COLOR_SCALE`.
pub const COLOR_SCALE: u32 = 1000;

/// An RGBA color; each channel is in thousandths (`0 ..= COLOR_SCALE`).
#[derive(Clone, Copy, Debug, PartialEq, Eq, Structural)]
pub struct Color {
    pub r: u32,
    pub g: u32,
    pub b: u32,
    pub a: u32,
}

impl Color {
    /// All channels within the fixed-point scale.
    pub open spec fn wf(self) -> bool {
        self.r <= COLOR_SCALE && self.g <= COLOR_SCALE && self.b <= COLOR_SCALE
            && self.a <= COLOR_SCALE
    }

    /// Builds a color from its four channels, each in thousandths.
    pub fn rgba(r: u32, g: u32, b: u32, a: u32) -> (c: Color)
        requires
            r <= COLOR_SCALE,
            g <= COLOR_SCALE,
            b <= COLOR_SCALE,
            a <= COLOR_SCALE,
        ensures
            c == (Color { r, g, b, a }),
            c.wf(),
    {
        Color { r, g, b, a }
    }

    /// Opaque black.
    pub fn black() -> (c: Color)
        ensures
            c == (Color { r: 0, g: 0, b: 0, a: COLOR_SCALE }),
            c.wf(),
    {
        Color { r: 0, g: 0, b: 0, a: COLOR_SCALE }
    }

    /// Opaque white.
    pub fn white() -> (c: Color)
        ensures
            c == (Color { r: COLOR_SCALE, g: COLOR_SCALE, b: COLOR_SCALE, a: COLOR_SCALE }),
            c.wf(),
    {
        Color { r: COLOR_SCALE, g: COLOR_SCALE, b: COLOR_SCALE, a: COLOR_SCALE }
    }

    /// Fully transparent black.
    pub fn none() -> (c: Color)
        ensures
            c == (Color { r: 0, g: 0, b: 0, a: 0 }),
            c.wf(),
    {
        Color { r: 0, g: 0, b: 0, a: 0 }
    }

    /// Runtime check of [`Color::wf`], for callers outside the verified world.
    pub fn is_wf(&self) -> (b: bool)
        ensures
            b == self.wf(),
    {
        self.r <= COLOR_SCALE && self.g <= COLOR_SCALE && self.b <= COLOR_SCALE
            && self.a <= COLOR_SCALE
    }

    /// Replaces the alpha channel, leaving the other channels as they are.
    pub fn set_alpha(&mut self, a: u32)
        ensures
            *final(self) == (Color { a, ..*old(self) }),
    {
        self.a = a;
    }
}

} // verus!
