//! The negotiated format descriptor: pixel layout, dimensions and framerate.

use vstd::prelude::*;

verus! {

/// Pixel layout tag of a 4-byte interleaved frame.
///
/// The source advertises `Bgrx` downstream and installs `Rgba` as its
/// internal working layout before any negotiation. `Unknown` marks a
/// descriptor that cannot be painted.
#[derive(Clone, Copy, PartialEq, Eq, Structural, Debug)]
pub enum VideoFormat {
    Bgrx,
    Rgba,
    Unknown,
}

/// Concrete negotiated format: dimensions, framerate and pixel layout.
///
/// Dimensions come out of capability fields that range over non-negative
/// 32-bit signed integers, so `wf` bounds them by `i32::MAX`. A framerate
/// numerator of zero means the rate is still unconstrained (the state the
/// source is in right after `start`, before real negotiation).
#[derive(Clone, Copy, PartialEq, Eq, Structural, Debug)]
pub struct VideoInfo {
    pub format: VideoFormat,
    pub width: u32,
    pub height: u32,
    pub fps_n: u32,
    pub fps_d: u32,
}

/// The internal working format installed at `start`, before any real
/// negotiation: 4-byte packed RGBA, 320x240, framerate 0/1 (unconstrained).
pub open spec fn default_video_info() -> VideoInfo {
    VideoInfo { format: VideoFormat::Rgba, width: 320u32, height: 240u32, fps_n: 0u32, fps_d: 1u32 }
}

impl VideoInfo {
    /// Validity of a format descriptor: positive dimensions within the
    /// capability range, and a positive framerate denominator.
    pub open spec fn wf(self) -> bool {
        &&& 1 <= self.width <= i32::MAX
        &&& 1 <= self.height <= i32::MAX
        &&& 1 <= self.fps_d <= i32::MAX
        &&& self.fps_n <= i32::MAX
    }

    /// Byte size of one frame: stride-free 4-byte pixels, `width * height * 4`.
    pub open spec fn size_bytes(self) -> int {
        self.width * self.height * 4
    }

    /// Byte length of one row of pixels in this layout.
    pub open spec fn stride(self) -> int {
        self.width * 4
    }

    /// Computes `size_bytes` without overflowing: both dimensions fit in
    /// 31 bits, so the product fits in 64.
    pub fn frame_size(&self) -> (r: u64)
        requires
            self.wf(),
        ensures
            r == self.size_bytes(),
    {
        proof {
            assert((self.width as int) * (self.height as int) * 4 <= 0x7fffffffi64 * 0x7fffffffi64 * 4)
                by (nonlinear_arith)
                requires 1 <= self.width <= i32::MAX && 1 <= self.height <= i32::MAX;
        }
        (self.width as u64) * (self.height as u64) * 4
    }
}

} // verus!
