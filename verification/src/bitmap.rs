use vstd::prelude::*;

verus! {

/// Mathematical model of a bitmap: its dimensions in pixels and the flat
/// sequence of channel bytes, three per pixel, row-major.
#[verifier::ext_equal]
pub struct BitmapModel {
    pub width: nat,
    pub height: nat,
    pub data: Seq<u8>,
}

impl BitmapModel {
    /// The byte buffer holds exactly three channels for every pixel.
    pub open spec fn wf(self) -> bool {
        self.data.len() == self.width * self.height * 3
    }

    /// Channel `c` (0 = red, 1 = green, 2 = blue) of the pixel at column `x`,
    /// row `y`.
    pub open spec fn channel(self, x: int, y: int, c: int) -> u8
        recommends
            self.wf(),
            0 <= x < self.width,
            0 <= y < self.height,
            0 <= c < 3,
    {
        self.data[3 * (y * self.width + x) + c]
    }
}

/// The decoder's single output shape: an 8-bit-per-channel red-green-blue
/// pixel buffer in row-major order. No other bitmap shape circulates in the
/// pipeline.
#[derive(Debug, Clone)]
pub struct NormalizedBitmap {
    pub width: u32,
    pub height: u32,
    pub data: Vec<u8>,
}

impl NormalizedBitmap {
    /// The buffer length matches the declared dimensions.
    pub open spec fn wf(self) -> bool {
        self@.wf()
    }
}

impl View for NormalizedBitmap {
    type V = BitmapModel;

    open spec fn view(&self) -> BitmapModel {
        BitmapModel { width: self.width as nat, height: self.height as nat, data: self.data@ }
    }
}

} // verus!
