use vstd::prelude::*;

verus! {

/// One captured frame: the raw pixel bytes together with the frame's extents.
///
/// Pixel layout is top-down row order, four bytes per pixel in the platform's
/// native channel order (blue, green, red, alpha on the reference platform),
/// with a row stride of `width * 4` bytes. Ownership of the buffer passes
/// fully to the caller; it aliases no handle-owned memory.
#[derive(Debug)]
pub struct FrameData {
    pub pixel_data: Vec<u8>,
    pub width: i32,
    pub height: i32,
}

impl FrameData {
    /// A frame is well formed when both extents are positive and the pixel
    /// buffer holds exactly four bytes for every pixel.
    pub open spec fn wf(self) -> bool {
        0 < self.width && 0 < self.height && self.pixel_data@.len() == self.width * self.height
            * 4
    }
}

} // verus!
