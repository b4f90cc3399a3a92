//! The window that the scene is shown in.

use vstd::prelude::*;

verus! {

/// How the window is opened.
#[derive(Clone, Debug, PartialEq, Eq)]
pub struct Window {
    /// The text in the title bar.
    pub title: String,
    /// The width of the drawing area in pixels.
    pub width: u32,
    /// The height of the drawing area in pixels.
    pub height: u32,
    /// Whether the window is placed in the middle of the screen.
    pub centered: bool,
    /// Whether presenting a frame waits for the display's refresh.
    pub vsync: bool,
}

impl Window {
    /// The window of the scene: 800 by 600 pixels, centred, titled "Title",
    /// and presenting in step with the display.
    pub fn new() -> (window: Window)
        ensures
            window.title@ == "Title"@,
            window.width == 800,
            window.height == 600,
            window.centered,
            window.vsync,
    {
        Window {
            title: String::from_str("Title"),
            width: 800,
            height: 600,
            centered: true,
            vsync: true,
        }
    }
}

} // verus!
