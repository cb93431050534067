use vstd::prelude::*;

verus! {

/// The number of bytes that one pixel takes when a picture is read back: four
/// channels of eight bits.
pub const BYTES_PER_PIXEL: u32 = 4;

/// The pixel dimensions of a drawing target. A target of zero width or
/// height is a legal value.
#[derive(Copy, Clone, Debug, PartialEq, Eq, Structural)]
pub struct ImageInfo {
    pub width: u32,
    pub height: u32,
}

impl ImageInfo {
    #[inline]
    pub fn new_wh(w: u32, h: u32) -> (info: Self)
        ensures
            info.width == w,
            info.height == h,
    {
        Self { width: w, height: h }
    }

    /// The number of bytes in one row of pixels.
    pub open spec fn row_len(&self) -> int {
        BYTES_PER_PIXEL * self.width
    }

    /// The number of bytes in the whole picture.
    pub open spec fn byte_len(&self) -> int {
        BYTES_PER_PIXEL * self.width * self.height
    }

    /// The number of bytes in one row of pixels, where 32 bits hold it.
    pub fn row_bytes(&self) -> (n: Option<u32>)
        ensures
            n == if self.row_len() <= u32::MAX {
                Some(self.row_len() as u32)
            } else {
                None::<u32>
            },
    {
        BYTES_PER_PIXEL.checked_mul(self.width)
    }

    /// The number of bytes in the whole picture, where 32 bits hold it.
    pub fn buffer_bytes(&self) -> (n: Option<u32>)
        ensures
            n == if self.byte_len() <= u32::MAX {
                Some(self.byte_len() as u32)
            } else {
                None::<u32>
            },
    {
        if self.height == 0 {
            assert(self.byte_len() == 0) by (nonlinear_arith)
                requires
                    self.height == 0,
                    self.byte_len() == BYTES_PER_PIXEL * self.width * self.height,
            ;
            return Some(0);
        }
        match BYTES_PER_PIXEL.checked_mul(self.width) {
            Some(row) => row.checked_mul(self.height),
            None => {
                assert(self.byte_len() > u32::MAX) by (nonlinear_arith)
                    requires
                        self.height >= 1,
                        BYTES_PER_PIXEL * self.width > u32::MAX,
                        self.byte_len() == BYTES_PER_PIXEL * self.width * self.height,
                ;
                None
            },
        }
    }
}

} // verus!
