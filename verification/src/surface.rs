use vstd::prelude::*;
use crate::canvas::Canvas;
use crate::device::Device;
use crate::image_info::ImageInfo;

verus! {

/// A drawing target: it owns one device for as long as it lives.
pub struct Surface<D> {
    device: D,
}

impl<D: Device> Surface<D> {
    /// The device that this surface owns.
    pub closed spec fn backend(&self) -> D {
        self.device
    }

    /// Makes a surface of the given dimensions, with a fresh device.
    pub fn new(info: ImageInfo) -> (surface: Self)
        ensures
            surface.backend().target() == info,
    {
        Self { device: D::new(info) }
    }

    /// The width of the target in pixels.
    #[inline]
    pub fn width(&self) -> (w: u32)
        ensures
            w == self.backend().target().width,
    {
        self.device.image_info().width
    }

    /// The height of the target in pixels.
    #[inline]
    pub fn height(&self) -> (h: u32)
        ensures
            h == self.backend().target().height,
    {
        self.device.image_info().height
    }

    /// Opens a drawing session on the device. The surface cannot be used
    /// again until the session has ended, and then owns the device as the
    /// session left it.
    #[inline]
    pub fn canvas(&mut self) -> (canvas: Canvas<'_, D>)
        ensures
            canvas.backend() == old(self).backend(),
            *final(canvas.device) == final(self).backend(),
    {
        Canvas::new(&mut self.device)
    }

    /// The device that this surface owns.
    #[inline]
    pub fn device(&self) -> (device: &D)
        ensures
            *device == self.backend(),
    {
        &self.device
    }
}

} // verus!
