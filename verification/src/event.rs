//! The events that the manager receives, reduced to what it reads of them.

use vstd::prelude::*;

use crate::window::Window;

verus! {

/// Bit of a configure request's value mask that asks for a new x position.
pub const CONFIG_WINDOW_X: u16 = 1;

/// Bit of the value mask that asks for a new y position.
pub const CONFIG_WINDOW_Y: u16 = 2;

/// Bit of the value mask that asks for a new width.
pub const CONFIG_WINDOW_WIDTH: u16 = 4;

/// Bit of the value mask that asks for a new height.
pub const CONFIG_WINDOW_HEIGHT: u16 = 8;

/// Bit of the value mask that asks for a new border width.
pub const CONFIG_WINDOW_BORDER_WIDTH: u16 = 16;

/// Bit of the value mask that names a sibling to stack against.
pub const CONFIG_WINDOW_SIBLING: u16 = 32;

/// Bit of the value mask that asks for a place in the stacking order.
pub const CONFIG_WINDOW_STACK_MODE: u16 = 64;

/// A client's wish to change a window's geometry or stacking.
/// Only the fields whose bit is set in `value_mask` are meant.
#[derive(Debug, Clone, Copy, PartialEq, Eq, Structural)]
pub struct ConfigureRequestEvent {
    pub window: Window,
    pub parent: Window,
    pub sibling: Window,
    pub x: i16,
    pub y: i16,
    pub width: u16,
    pub height: u16,
    pub border_width: u16,
    pub stack_mode: u32,
    pub value_mask: u16,
}

/// A window was unmapped.
#[derive(Debug, Clone, Copy, PartialEq, Eq, Structural)]
pub struct UnmapNotifyEvent {
    pub window: Window,
}

/// A client asks for a window to become visible.
#[derive(Debug, Clone, Copy, PartialEq, Eq, Structural)]
pub struct MapRequestEvent {
    pub window: Window,
}

/// Part of a window has to be drawn again.
#[derive(Debug, Clone, Copy, PartialEq, Eq, Structural)]
pub struct ExposeEvent {
    pub window: Window,
}

/// The pointer entered a window.
#[derive(Debug, Clone, Copy, PartialEq, Eq, Structural)]
pub struct EnterNotifyEvent {
    /// The window that the event is reported to.
    pub event: Window,
}

/// The pointer moved.
#[derive(Debug, Clone, Copy, PartialEq, Eq, Structural)]
pub struct MotionNotifyEvent {
    /// Pointer position on the root window.
    pub root_x: i16,
    pub root_y: i16,
}

/// A pointer button went down or up.
#[derive(Debug, Clone, Copy, PartialEq, Eq, Structural)]
pub struct ButtonPressEvent {
    /// The button.
    pub detail: u8,
    /// The modifier keys and buttons held just before the event.
    pub state: u16,
    /// The window that the event is reported to.
    pub event: Window,
    /// Pointer position relative to `event`.
    pub event_x: i16,
    pub event_y: i16,
}

/// A button release has the fields of a button press.
pub type ButtonReleaseEvent = ButtonPressEvent;

/// What happened.
#[derive(Debug, Clone, Copy, PartialEq, Eq, Structural)]
pub enum EventKind {
    UnmapNotify(UnmapNotifyEvent),
    ConfigureRequest(ConfigureRequestEvent),
    MapRequest(MapRequestEvent),
    Expose(ExposeEvent),
    EnterNotify(EnterNotifyEvent),
    ButtonPress(ButtonPressEvent),
    ButtonRelease(ButtonReleaseEvent),
    MotionNotify(MotionNotifyEvent),
    /// A message from a client; the session uses it to end the manager.
    ClientMessage,
    /// Any event that the manager has no handler for.
    Other,
}

/// An event, with the sequence number of the last request that the
/// server had handled when it sent it, where the event carries one.
#[derive(Debug, Clone, Copy, PartialEq, Eq, Structural)]
pub struct Event {
    pub sequence: Option<u16>,
    pub kind: EventKind,
}

} // verus!
