//! The window that the renderer draws into, as a plain description.

use vstd::prelude::*;

verus! {

/// A size in logical pixels, before the scale factor of the screen.
#[derive(Clone, Copy, Debug, PartialEq, Eq, Structural)]
pub struct LogicalSize {
    pub width: u32,
    pub height: u32,
}

/// What the window is built with.
#[derive(Clone, Copy, Debug, PartialEq, Eq)]
pub struct WindowAttributes {
    /// The smallest inner size that the window can be given.
    pub min_inner_size: LogicalSize,
    pub title: &'static str,
    pub maximized: bool,
    pub visible: bool,
    pub decorations: bool,
}

impl WindowAttributes {
    /// Whether these are the attributes of the renderer's window: titled
    /// "Pathland", at least 640 by 360, maximized, visible and decorated.
    pub open spec fn is_pathland_window(self) -> bool {
        &&& self.min_inner_size == LogicalSize { width: 640, height: 360 }
        &&& self.title@ == "Pathland"@
        &&& self.maximized
        &&& self.visible
        &&& self.decorations
    }

    /// Describes the renderer's window.
    pub fn build() -> (attributes: WindowAttributes)
        ensures
            attributes.is_pathland_window(),
    {
        WindowAttributes {
            min_inner_size: LogicalSize { width: 640, height: 360 },
            title: "Pathland",
            maximized: true,
            visible: true,
            decorations: true,
        }
    }
}

} // verus!
