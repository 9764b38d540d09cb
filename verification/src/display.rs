//! The pixel sink the video unit renders into. A consumer implements it to
//! receive one pixel at a time and a frame-sync call once per rendered frame.

use vstd::prelude::*;

use crate::gameboy::Color;

verus! {

/// A display sink: `set_pixel` receives coordinates on the 160x144 screen and
/// one of the four shades; `vsync` is called once per rendered frame, after
/// the last visible scanline.
pub trait VideoDisplay {
    fn set_pixel(&mut self, x: u8, y: u8, color: Color);

    fn vsync(&mut self);
}

/// A sink that discards every pixel and frame.
pub struct NoDisplay {}

impl NoDisplay {
    pub fn new() -> (r: NoDisplay) {
        NoDisplay {  }
    }
}

impl VideoDisplay for NoDisplay {
    fn set_pixel(&mut self, _x: u8, _y: u8, _color: Color) {
    }

    fn vsync(&mut self) {
    }
}

} // verus!
