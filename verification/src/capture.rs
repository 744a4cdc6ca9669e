//! What to capture once the display is chosen.
//!
//! On a display larger than 1920 by 1080 the application may run in a
//! window smaller than the display. Then only the window is captured; in
//! every other case the whole display is.

use crate::window_locator::WindowRect;
use vstd::prelude::*;

verus! {

/// The width above which a display may show the application in a window.
pub const FULL_WIDTH: u32 = 1920;

/// The height above which a display may show the application in a window.
pub const FULL_HEIGHT: u32 = 1080;

/// What is captured.
#[derive(Clone, Copy, Debug, PartialEq, Eq, Structural)]
pub enum Capture {
    /// The whole display.
    Whole,
    /// The area of the given size whose upper left corner is at `x`, `y`.
    Area { x: i32, y: i32, width: u32, height: u32 },
}

impl WindowRect {
    /// The right edge is not left of the left one, the bottom edge not above
    /// the top one, and width and height fit 32 signed bits.
    pub open spec fn well_formed(self) -> bool {
        &&& 0 <= self.right - self.left <= i32::MAX
        &&& 0 <= self.bottom - self.top <= i32::MAX
    }

    /// The distance between the left and the right edge.
    pub open spec fn extent_x(self) -> int {
        self.right - self.left
    }

    /// The distance between the top and the bottom edge.
    pub open spec fn extent_y(self) -> int {
        self.bottom - self.top
    }

    /// Whether the bounds have a width and a height.
    pub fn is_well_formed(&self) -> (r: bool)
        ensures
            r == self.well_formed(),
    {
        let x: i64 = self.right as i64 - self.left as i64;
        let y: i64 = self.bottom as i64 - self.top as i64;
        0 <= x && x <= 0x7fff_ffff && 0 <= y && y <= 0x7fff_ffff
    }

    /// The width of the bounds.
    pub fn width(&self) -> (r: u32)
        requires
            self.well_formed(),
        ensures
            r == self.extent_x(),
    {
        (self.right - self.left) as u32
    }

    /// The height of the bounds.
    pub fn height(&self) -> (r: u32)
        requires
            self.well_formed(),
        ensures
            r == self.extent_y(),
    {
        (self.bottom - self.top) as u32
    }
}

/// The application runs in a window: the display is larger than 1920 by
/// 1080 both ways, and the window is smaller than the display both ways.
pub open spec fn is_windowed(window: WindowRect, screen_width: u32, screen_height: u32) -> bool {
    &&& screen_width > FULL_WIDTH
    &&& screen_height > FULL_HEIGHT
    &&& window.extent_x() < screen_width
    &&& window.extent_y() < screen_height
}

/// What to capture, given the window's bounds and the display's size.
pub open spec fn planned_capture(
    window: Option<WindowRect>,
    screen_width: u32,
    screen_height: u32,
) -> Capture {
    match window {
        Some(bounds) => if is_windowed(bounds, screen_width, screen_height) {
            Capture::Area {
                x: bounds.left,
                y: bounds.top,
                width: bounds.extent_x() as u32,
                height: bounds.extent_y() as u32,
            }
        } else {
            Capture::Whole
        },
        None => Capture::Whole,
    }
}

/// Decides what to capture.
pub fn plan_capture(window: Option<WindowRect>, screen_width: u32, screen_height: u32) -> (r:
    Capture)
    requires
        window matches Some(bounds) ==> bounds.well_formed(),
    ensures
        r == planned_capture(window, screen_width, screen_height),
{
    match window {
        Some(bounds) => {
            let width: u32 = bounds.width();
            let height: u32 = bounds.height();
            if screen_width > FULL_WIDTH && screen_height > FULL_HEIGHT && width < screen_width
                && height < screen_height {
                Capture::Area { x: bounds.left, y: bounds.top, width, height }
            } else {
                Capture::Whole
            }
        },
        None => Capture::Whole,
    }
}

/// Without a window, and on a display that is no larger than 1920 by 1080,
/// the whole display is captured.
pub proof fn law_whole_display(window: Option<WindowRect>, screen_width: u32, screen_height: u32)
    requires
        window is None || screen_width <= FULL_WIDTH || screen_height <= FULL_HEIGHT,
    ensures
        planned_capture(window, screen_width, screen_height) == Capture::Whole,
{
}

} // verus!
