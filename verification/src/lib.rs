//! The geometry of placing a GLFW window on a desktop with several monitors.
//!
//! Given the rectangle a window occupies and the monitors that are
//! connected, the crate finds the dominant monitor, the one that shows most
//! of the window, and the position at which the window sits in the middle of
//! a monitor. It works on what the host reports of windows and monitors, and
//! leaves asking the host and moving the window to the caller.

pub mod centering;
pub mod monitor;
pub mod rectangle;
pub mod selection;
pub mod window;

pub use centering::compute_centered_position;
pub use monitor::{Monitor, VideoMode};
pub use rectangle::Rectangle;
pub use selection::select_dominant;
pub use window::{find_dominant_monitor, Window, WindowExt};
