//! The pixel grid that the LCD controller drives, as the host sees it.

use vstd::prelude::*;

verus! {

/// Width of the visible pixel grid.
pub const LCD_WIDTH: usize = 98;

/// Height of the visible pixel grid.
pub const LCD_HEIGHT: usize = 67;

/// Number of pixels in one frame.
pub const FRAME_PIXELS: usize = 6566;

/// A sink for complete frames. The host implements it; a frame always
/// holds `FRAME_PIXELS` pixels, row by row.
pub trait Screen {
    fn set_pixels(&self, pixels: &[Pixel]);
}

/// One pixel with 8 bits per colour channel.
#[derive(Clone, Copy, Debug, PartialEq, Eq, Structural)]
pub struct Pixel {
    pub red: u8,
    pub green: u8,
    pub blue: u8,
}

impl Pixel {
    /// The pixel as the number `0x00RRGGBB`.
    pub open spec fn rgb(self) -> int {
        self.red * 0x10000 + self.green * 0x100 + self.blue
    }

    /// A pixel with all channels at zero.
    pub open spec fn black() -> Pixel {
        Pixel { red: 0, green: 0, blue: 0 }
    }

    /// Packs the pixel as `0x00RRGGBB`.
    pub fn to_rgb_u32(&self) -> (e: u32)
        ensures
            e == self.rgb(),
    {
        (self.red as u32) * 0x10000 + (self.green as u32) * 0x100 + (self.blue as u32)
    }
}

} // verus!
