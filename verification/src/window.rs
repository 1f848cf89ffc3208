//! The record that the manager keeps for each adopted client window.

use vstd::prelude::*;

verus! {

/// Identifier of a window on the display server. Zero names no window.
pub type Window = u32;

/// Height of the titlebar that a frame carries above its client.
pub const TITLEBAR_HEIGHT: u16 = 0;

/// Position and size of a window as the display server reports them.
#[derive(Debug, Clone, Copy, PartialEq, Eq, Structural)]
pub struct Geometry {
    pub x: i16,
    pub y: i16,
    pub width: u16,
    pub height: u16,
}

/// One adopted client window together with the frame that wraps it.
#[derive(Debug, Clone, Copy, PartialEq, Eq, Structural)]
pub struct RedWindow {
    pub window: Window,
    pub frame_window: Window,
    pub x: i16,
    pub y: i16,
    pub width: u16,
    pub height: u16,
}

/// Left edge of the close region of a titlebar that is `width` wide:
/// the width less the titlebar height, and never below zero.
pub open spec fn close_region_start(width: int) -> int {
    if width >= TITLEBAR_HEIGHT {
        width - TITLEBAR_HEIGHT
    } else {
        0
    }
}

impl RedWindow {
    /// The record for `window` wrapped in `frame_window`, at the geometry `geom`.
    pub open spec fn of(window: Window, frame_window: Window, geom: Geometry) -> RedWindow {
        RedWindow {
            window,
            frame_window,
            x: geom.x,
            y: geom.y,
            width: geom.width,
            height: geom.height,
        }
    }

    /// Whether `id` names this record, as its client or as its frame.
    pub open spec fn answers_to(&self, id: Window) -> bool {
        self.window == id || self.frame_window == id
    }

    /// Whether client and frame are two different windows, neither of them the null window.
    pub open spec fn well_formed(&self) -> bool {
        &&& self.window != 0
        &&& self.frame_window != 0
        &&& self.window != self.frame_window
    }

    pub fn new(window: Window, frame_window: Window, geom: &Geometry) -> (record: Self)
        ensures
            record == Self::of(window, frame_window, *geom),
    {
        RedWindow {
            window,
            frame_window,
            x: geom.x,
            y: geom.y,
            width: geom.width,
            height: geom.height,
        }
    }

    /// The x coordinate, relative to the frame, at which the close region begins.
    pub fn close_x_position(&self) -> (x: u16)
        ensures
            x == close_region_start(self.width as int),
    {
        if self.width >= TITLEBAR_HEIGHT {
            self.width - TITLEBAR_HEIGHT
        } else {
            0
        }
    }

    /// Whether `id` is this record's client or its frame.
    pub fn is_named(&self, id: Window) -> (named: bool)
        ensures
            named == self.answers_to(id),
    {
        self.window == id || self.frame_window == id
    }
}

} // verus!
