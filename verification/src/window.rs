//! Windows, and the operations that center one on a monitor.

use crate::centering::{centered_position, centering_fits, compute_centered_position};
use crate::monitor::Monitor;
use crate::rectangle::Rectangle;
use crate::selection::{any_usable, dominant, select_dominant};
use vstd::prelude::*;

verus! {

/// What the host reports of a window: where its top-left corner lies on the
/// virtual screen, and its size.
#[derive(Clone, Copy, Debug, PartialEq, Eq, Structural)]
pub struct Window {
    pub x: i32,
    pub y: i32,
    pub width: u32,
    pub height: u32,
}

impl View for Window {
    type V = Rectangle;

    /// The part of the virtual screen the window occupies.
    open spec fn view(&self) -> Rectangle {
        Rectangle { x: self.x, y: self.y, width: self.width, height: self.height }
    }
}

/// Whether the position that centers `window` on `monitor` can be expressed
/// in screen coordinates. Holds of every monitor without a video mode: on
/// such a monitor no window is centered.
pub open spec fn can_center_on(window: Rectangle, monitor: Monitor) -> bool {
    monitor@ matches Some(shown) ==> centering_fits(shown, (window.width, window.height))
}

/// Where `window` lies once it has been centered on `monitor`: in the middle
/// of the monitor and of the same size, or where it was while the monitor
/// has no video mode.
pub open spec fn centered_on(window: Rectangle, monitor: Monitor) -> Rectangle {
    match monitor@ {
        Some(shown) => {
            let (x, y) = centered_position(shown, (window.width, window.height));
            Rectangle { x: x as i32, y: y as i32, width: window.width, height: window.height }
        },
        None => window,
    }
}

/// Whether centering `window` on its dominant monitor among `monitors` ends
/// at a position that can be expressed in screen coordinates.
pub open spec fn can_center(window: Rectangle, monitors: Seq<Monitor>) -> bool {
    dominant(window, monitors) matches Some(i) ==> can_center_on(window, monitors[i])
}

/// Where `window` lies once it has been centered on its dominant monitor
/// among `monitors`, or where it was while no monitor has a video mode.
pub open spec fn centered_on_dominant(window: Rectangle, monitors: Seq<Monitor>) -> Rectangle {
    match dominant(window, monitors) {
        Some(i) => centered_on(window, monitors[i]),
        None => window,
    }
}

/// Centering a window on a monitor a second time leaves it where the first
/// time put it: the position depends on the monitor and on the size of the
/// window, and centering keeps the size.
pub proof fn lemma_centering_is_idempotent(window: Rectangle, monitor: Monitor)
    requires
        can_center_on(window, monitor),
    ensures
        can_center_on(centered_on(window, monitor), monitor),
        centered_on(centered_on(window, monitor), monitor) == centered_on(window, monitor),
        monitor@ matches Some(shown) ==> centered_position(
            shown,
            (centered_on(window, monitor).width, centered_on(window, monitor).height),
        ) == centered_position(shown, (window.width, window.height)),
{
}

/// Finds the monitor that shows most of the window.
///
/// Monitors without a video mode are passed over. Among monitors that show
/// equally much, the first one is found. None is found where no monitor has
/// a video mode.
pub fn find_dominant_monitor<'a>(window: &Window, monitors: &'a [Monitor]) -> (found: Option<
    &'a Monitor,
>)
    ensures
        found is None <==> !any_usable(monitors@),
        match found {
            Some(monitor) => dominant(window@, monitors@) matches Some(i) && *monitor
                == monitors@[i],
            None => dominant(window@, monitors@) is None,
        },
{
    match select_dominant(&window.rectangle(), monitors) {
        Some(i) => Some(&monitors[i]),
        None => None,
    }
}

impl Window {
    /// The part of the virtual screen the window occupies.
    pub fn rectangle(&self) -> (bounds: Rectangle)
        ensures
            bounds == self@,
    {
        Rectangle { x: self.x, y: self.y, width: self.width, height: self.height }
    }

    /// Tells whether the window can be centered on `monitor` without
    /// leaving the range of screen coordinates.
    pub fn can_center_on(&self, monitor: &Monitor) -> (fits: bool)
        ensures
            fits == can_center_on(self@, *monitor),
    {
        match monitor.rectangle() {
            Some(shown) => {
                let (x, y) = compute_centered_position(&shown, (self.width, self.height));
                -0x8000_0000 <= x && x <= 0x7fff_ffff && -0x8000_0000 <= y && y <= 0x7fff_ffff
            },
            None => true,
        }
    }

    /// Tells whether the window can be centered on its dominant monitor
    /// among `monitors` without leaving the range of screen coordinates.
    pub fn can_center(&self, monitors: &[Monitor]) -> (fits: bool)
        ensures
            fits == can_center(self@, monitors@),
    {
        match find_dominant_monitor(self, monitors) {
            Some(monitor) => self.can_center_on(monitor),
            None => true,
        }
    }
}

/// The centering operations of a window.
pub trait WindowExt: View<V = Rectangle> {
    /// Centers the window on its dominant monitor among `monitors`, the one
    /// that shows most of it, keeping its size.
    ///
    /// Returns `false`, and leaves the window where it is, where no monitor
    /// has a video mode.
    fn try_center(&mut self, monitors: &[Monitor]) -> (centered: bool)
        requires
            can_center(old(self)@, monitors@),
        ensures
            centered == any_usable(monitors@),
            final(self)@ == centered_on_dominant(old(self)@, monitors@),
    ;

    /// Centers the window on `monitor`, keeping its size.
    ///
    /// Returns `false`, and leaves the window where it is, where the
    /// monitor has no video mode.
    fn try_center_on_monitor(&mut self, monitor: &Monitor) -> (centered: bool)
        requires
            can_center_on(old(self)@, *monitor),
        ensures
            centered == monitor@ is Some,
            final(self)@ == centered_on(old(self)@, *monitor),
    ;
}

impl WindowExt for Window {
    fn try_center(&mut self, monitors: &[Monitor]) -> (centered: bool) {
        match find_dominant_monitor(self, monitors) {
            Some(monitor) => self.try_center_on_monitor(monitor),
            None => false,
        }
    }

    fn try_center_on_monitor(&mut self, monitor: &Monitor) -> (centered: bool) {
        match monitor.rectangle() {
            Some(shown) => {
                let (x, y) = compute_centered_position(&shown, (self.width, self.height));
                self.x = x as i32;
                self.y = y as i32;
                true
            },
            None => false,
        }
    }
}

} // verus!
