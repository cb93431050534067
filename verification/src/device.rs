use vstd::prelude::*;
use crate::image_info::ImageInfo;
use crate::paint::Paint;
use crate::path::{Path, PathSegment};

verus! {

/// A rendering backend: something that paths can be drawn on.
///
/// The two spec functions are the backend's own account of itself. A verified
/// backend defines them and is held to the contracts below; a backend that is
/// not verified leaves them as they are, and the contracts are then taken on
/// trust.
pub trait Device: Sized {
    /// The dimensions of the target that this device was made for.
    open spec fn target(&self) -> ImageInfo {
        arbitrary()
    }

    /// Whether drawing a path with the given segments and paint can take the
    /// device from this state to the state `after`. Unless a backend says
    /// more, every state can follow.
    open spec fn draws(&self, segments: Seq<PathSegment>, paint: Paint, after: &Self) -> bool {
        true
    }

    /// Makes a device for a target of the given dimensions. The device
    /// reports those dimensions from then on.
    fn new(info: ImageInfo) -> (device: Self)
        ensures
            device.target() == info,
    ;

    /// The dimensions that this device was made with.
    fn image_info(&self) -> (info: &ImageInfo)
        ensures
            *info == self.target(),
    ;

    /// Draws `path` with `paint`. What becomes visible is the backend's
    /// matter; the device's dimensions stay as they are.
    fn draw_path(&mut self, path: &Path, paint: &Paint)
        ensures
            final(self).target() == old(self).target(),
            old(self).draws(path.segments(), *paint, final(self)),
    ;
}

/// A device that accepts every drawing operation and draws nothing. It only
/// counts the operations.
#[derive(Debug)]
pub struct Sink {
    info: ImageInfo,
    count: usize,
}

impl Sink {
    /// The number of drawing operations that this device has counted.
    pub closed spec fn counted(&self) -> nat {
        self.count as nat
    }

    /// The count after one more operation: it stops at the largest number
    /// that it can hold.
    pub open spec fn one_more(n: nat) -> nat {
        if n < usize::MAX {
            n + 1
        } else {
            n
        }
    }

    /// The number of drawing operations that this device was handed.
    pub fn paths_drawn(&self) -> (n: usize)
        ensures
            n == self.counted(),
    {
        self.count
    }
}

impl Device for Sink {
    closed spec fn target(&self) -> ImageInfo {
        self.info
    }

    /// Drawing changes nothing but the count, whatever the path and paint.
    open spec fn draws(&self, segments: Seq<PathSegment>, paint: Paint, after: &Self) -> bool {
        &&& after.target() == self.target()
        &&& after.counted() == Self::one_more(self.counted())
    }

    fn new(info: ImageInfo) -> (device: Self)
        ensures
            device.counted() == 0,
    {
        Sink { info, count: 0 }
    }

    fn image_info(&self) -> (info: &ImageInfo) {
        &self.info
    }

    fn draw_path(&mut self, path: &Path, paint: &Paint) {
        if self.count < usize::MAX {
            self.count = self.count + 1;
        }
    }
}

} // verus!
