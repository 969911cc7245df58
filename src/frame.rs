use vstd::prelude::*;

verus! {

/// Bytes per pixel: 8-bit red, green and blue, tightly packed.
pub const CHANNELS: usize = 3;

/// The number of bytes that a frame of the given dimensions occupies.
pub open spec fn frame_len(width: int, height: int) -> int {
    width * height * 3
}

/// A frame: row-major RGB pixels with no padding between rows.
pub struct TextureInfo {
    pub buffer: Vec<u8>,
    pub width: i32,
    pub height: i32,
}

impl TextureInfo {
    /// Both sides are positive and the buffer holds exactly their pixels.
    pub open spec fn wf(&self) -> bool {
        &&& self.width > 0
        &&& self.height > 0
        &&& self.buffer@.len() == frame_len(self.width as int, self.height as int)
    }

    pub open spec fn same_dims(&self, other: &TextureInfo) -> bool {
        self.width == other.width && self.height == other.height
    }

    /// Whether this frame is well formed.
    pub fn is_valid(&self) -> (r: bool)
        ensures
            r == self.wf(),
    {
        if self.width <= 0 || self.height <= 0 {
            return false;
        }
        let w = self.width as u64;
        let h = self.height as u64;
        assert(w * h * 3 <= 0x7fff_ffff * 0x7fff_ffff * 3) by (nonlinear_arith)
            requires
                w <= 0x7fff_ffff,
                h <= 0x7fff_ffff,
        ;
        let needed = w * h * (CHANNELS as u64);
        self.buffer.len() as u64 == needed
    }

    /// Whether two frames have the same width and height.
    pub fn has_same_dims(&self, other: &TextureInfo) -> (r: bool)
        ensures
            r == self.same_dims(other),
    {
        self.width == other.width && self.height == other.height
    }
}

} // verus!
