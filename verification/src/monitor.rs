//! Monitors as the host reports them.

use crate::rectangle::Rectangle;
use vstd::prelude::*;

verus! {

/// The resolution a monitor currently runs at, in pixels.
#[derive(Clone, Copy, Debug, PartialEq, Eq, Structural)]
pub struct VideoMode {
    pub width: u32,
    pub height: u32,
}

/// What the host reports of a connected monitor: where its top-left corner
/// lies on the virtual screen and, unless the monitor is between modes, its
/// video mode.
#[derive(Clone, Copy, Debug, PartialEq, Eq)]
pub struct Monitor {
    pub x: i32,
    pub y: i32,
    pub video_mode: Option<VideoMode>,
}

impl View for Monitor {
    type V = Option<Rectangle>;

    /// The part of the virtual screen the monitor shows; none while the
    /// monitor has no video mode.
    open spec fn view(&self) -> Option<Rectangle> {
        match self.video_mode {
            Some(mode) => Some(
                Rectangle { x: self.x, y: self.y, width: mode.width, height: mode.height },
            ),
            None => None,
        }
    }
}

impl Monitor {
    /// Number of pixels of `window` that the monitor shows; zero while the
    /// monitor has no video mode.
    pub open spec fn overlap(self, window: Rectangle) -> int {
        match self@ {
            Some(shown) => window.overlap(shown),
            None => 0,
        }
    }

    /// The part of the virtual screen the monitor shows, if it has a video
    /// mode.
    pub fn rectangle(&self) -> (shown: Option<Rectangle>)
        ensures
            shown == self@,
    {
        match self.video_mode {
            Some(mode) => Some(
                Rectangle { x: self.x, y: self.y, width: mode.width, height: mode.height },
            ),
            None => None,
        }
    }
}

} // verus!
