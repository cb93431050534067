use vstd::prelude::*;
use crate::device::Device;
use crate::paint::Paint;
use crate::path::math::{circle_segments, AxisStops};
use crate::path::Path;

verus! {

/// A drawing session on a device. The session borrows the device
/// exclusively, so a device has at most one session at a time, and keeps no
/// geometry of its own between calls.
pub struct Canvas<'a, D> {
    /// The device that the session draws on.
    pub device: &'a mut D,
}

impl<'a, D: Device> Canvas<'a, D> {
    /// The device as the session sees it now.
    pub open spec fn backend(&self) -> D {
        *self.device
    }

    /// Opens a session on `device`.
    #[inline]
    pub fn new(device: &'a mut D) -> (canvas: Self)
        ensures
            canvas.backend() == *old(device),
            *final(canvas.device) == *final(device),
    {
        Self { device }
    }

    /// Hands `path` and `paint` to the device and returns this session, so
    /// that calls can be chained.
    #[inline]
    pub fn draw_path(&mut self, path: &Path, paint: &Paint) -> (session: &mut Self)
        ensures
            session.backend().target() == old(self).backend().target(),
            old(self).backend().draws(path.segments(), *paint, &session.backend()),
            *final(session.device) == *final(old(self).device),
            *final(session) == *final(self),
    {
        self.device.draw_path(path, paint);
        self
    }

    /// Draws the outline of a circle whose points lie at the stops `x` and
    /// `y`: builds a fresh path that holds the circle alone and hands it to
    /// the device.
    pub fn draw_circle(&mut self, x: AxisStops, y: AxisStops, paint: &Paint) -> (session: &mut Self)
        ensures
            session.backend().target() == old(self).backend().target(),
            old(self).backend().draws(circle_segments(x, y), *paint, &session.backend()),
            *final(session.device) == *final(old(self).device),
            *final(session) == *final(self),
    {
        let mut path = Path::new();
        path.add_circle(x, y);
        assert(path.segments() =~= circle_segments(x, y));
        self.device.draw_path(&path, paint);
        self
    }

    /// The device that this session draws on.
    #[inline]
    pub fn device(&self) -> (device: &D)
        ensures
            *device == self.backend(),
    {
        &*self.device
    }
}

} // verus!
