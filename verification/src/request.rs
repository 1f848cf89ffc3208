//! The requests that the manager asks its caller to send to the display server.

use vstd::prelude::*;
use x11rb::protocol::xproto::{ConfigWindow, ConfigureWindowAux, StackMode};

use crate::event::{
    ConfigureRequestEvent, CONFIG_WINDOW_BORDER_WIDTH, CONFIG_WINDOW_HEIGHT, CONFIG_WINDOW_SIBLING,
    CONFIG_WINDOW_STACK_MODE, CONFIG_WINDOW_WIDTH, CONFIG_WINDOW_X, CONFIG_WINDOW_Y,
};
use crate::window::Window;

verus! {

/// Event mask bit: a pointer button went down.
pub const EVENT_MASK_BUTTON_PRESS: u32 = 0x4;

/// Event mask bit: a pointer button went up.
pub const EVENT_MASK_BUTTON_RELEASE: u32 = 0x8;

/// Event mask bit: the pointer entered the window.
pub const EVENT_MASK_ENTER_WINDOW: u32 = 0x10;

/// Event mask bit: the pointer moved.
pub const EVENT_MASK_POINTER_MOTION: u32 = 0x40;

/// Event mask bit: part of the window has to be drawn again.
pub const EVENT_MASK_EXPOSURE: u32 = 0x8000;

/// Event mask bit: the children of the window changed.
pub const EVENT_MASK_SUBSTRUCTURE_NOTIFY: u32 = 0x8_0000;

/// Event mask bit: requests on the children of the window come to the
/// selecting client in place of being carried out.
pub const EVENT_MASK_SUBSTRUCTURE_REDIRECT: u32 = 0x10_0000;

/// No event at all.
pub const EVENT_MASK_NO_EVENT: u32 = 0;

/// The events that the manager selects on each frame.
pub const FRAME_EVENT_MASK: u32 = EVENT_MASK_EXPOSURE | EVENT_MASK_SUBSTRUCTURE_NOTIFY
    | EVENT_MASK_BUTTON_PRESS | EVENT_MASK_BUTTON_RELEASE | EVENT_MASK_POINTER_MOTION
    | EVENT_MASK_ENTER_WINDOW;

/// The events that the manager selects on the root window.
pub const ROOT_EVENT_MASK: u32 = EVENT_MASK_SUBSTRUCTURE_REDIRECT;

/// The predefined atom of the string type.
pub const ATOM_STRING: u32 = 31;

/// The predefined atom of the property that holds a window's name.
pub const ATOM_WM_NAME: u32 = 39;

/// The timestamp that stands for the server's current time.
pub const CURRENT_TIME: u32 = 0;

/// The depth that stands for that of the parent.
pub const COPY_DEPTH_FROM_PARENT: u8 = 0;

/// The visual that stands for that of the parent.
pub const COPY_FROM_PARENT: u32 = 0;

/// Stacking mode: above the sibling, or on top where none is named.
pub const STACK_MODE_ABOVE: u32 = 0;

/// Border width of a frame.
pub const FRAME_BORDER_WIDTH: u16 = 1;

/// Where the text of a titlebar starts, relative to the frame.
pub const TITLE_X: i16 = 1;

/// Baseline of the text of a titlebar, relative to the frame.
pub const TITLE_Y: i16 = 10;

/// A point of a drawable.
#[derive(Debug, Clone, Copy, PartialEq, Eq, Structural)]
pub struct Point {
    pub x: i16,
    pub y: i16,
}

/// How a window takes part in input and output.
#[derive(Debug, Clone, Copy, PartialEq, Eq, Structural)]
pub enum WindowClass {
    CopyFromParent,
    InputOutput,
    InputOnly,
}

/// Whether a window enters or leaves the save-set.
#[derive(Debug, Clone, Copy, PartialEq, Eq, Structural)]
pub enum SetMode {
    Insert,
    Delete,
}

/// Where the input focus goes when the focus window disappears.
#[derive(Debug, Clone, Copy, PartialEq, Eq, Structural)]
pub enum InputFocus {
    NoFocus,
    PointerRoot,
    Parent,
    FollowKeyboard,
}

/// How the points of a line are to be read.
#[derive(Debug, Clone, Copy, PartialEq, Eq, Structural)]
pub enum CoordMode {
    /// Each point is relative to the origin of the drawable.
    Origin,
    /// Each point is relative to the one before it.
    Previous,
}

/// The changes that a configure-window request carries. `None` leaves
/// the attribute as it is.
#[derive(Debug, Clone, Copy, PartialEq, Eq, Structural)]
pub struct ConfigureValues {
    pub x: Option<i32>,
    pub y: Option<i32>,
    pub width: Option<u32>,
    pub height: Option<u32>,
    pub border_width: Option<u32>,
    pub sibling: Option<Window>,
    pub stack_mode: Option<u32>,
}

/// A request to the display server. The fields are those of the
/// protocol request of the same name.
#[derive(Debug, PartialEq, Eq)]
pub enum Request {
    CreateWindow {
        depth: u8,
        wid: Window,
        parent: Window,
        x: i16,
        y: i16,
        width: u16,
        height: u16,
        border_width: u16,
        class: WindowClass,
        visual: u32,
        event_mask: u32,
        background_pixel: u32,
    },
    /// Selects the events `event_mask` on `window`.
    ChangeWindowAttributes { window: Window, event_mask: u32 },
    GrabServer,
    UngrabServer,
    ChangeSaveSet { mode: SetMode, window: Window },
    ReparentWindow { window: Window, parent: Window, x: i16, y: i16 },
    MapWindow { window: Window },
    DestroyWindow { window: Window },
    ConfigureWindow { window: Window, values: ConfigureValues },
    SetInputFocus { revert_to: InputFocus, focus: Window, time: u32 },
    /// Sends a client message of format 32 to `destination`.
    SendClientMessage {
        propagate: bool,
        destination: Window,
        event_mask: u32,
        window: Window,
        message_type: u32,
        data: [u32; 5],
    },
    /// Draws the line from `from` to `to`.
    PolyLine { coordinate_mode: CoordMode, drawable: Window, gc: u32, from: Point, to: Point },
    /// Asks for the geometry of `drawable`. The reply goes to
    /// [`RedWm::manage_window`](crate::RedWm::manage_window).
    GetGeometry { drawable: Window },
    /// Asks for a property of `window`. The reply's value goes to
    /// [`RedWm::title_text`](crate::RedWm::title_text).
    GetProperty {
        delete: bool,
        window: Window,
        property: u32,
        property_type: u32,
        long_offset: u32,
        long_length: u32,
    },
    ImageText8 { drawable: Window, gc: u32, x: i16, y: i16, string: Vec<u8> },
}

impl ConfigureValues {
    /// No change at all.
    pub open spec fn unchanged() -> ConfigureValues {
        ConfigureValues {
            x: None,
            y: None,
            width: None,
            height: None,
            border_width: None,
            sibling: None,
            stack_mode: None,
        }
    }

    pub fn new() -> (values: Self)
        ensures
            values == Self::unchanged(),
    {
        ConfigureValues {
            x: None,
            y: None,
            width: None,
            height: None,
            border_width: None,
            sibling: None,
            stack_mode: None,
        }
    }
}

/// Whether `bit` is set in the value mask `mask`.
pub open spec fn asks_for(mask: u16, bit: u16) -> bool {
    mask & bit != 0
}

/// The changes that the configure request `event` asks for: each field
/// whose bit is set in the value mask, widened, and no other.
pub open spec fn requested_values(event: ConfigureRequestEvent) -> ConfigureValues {
    ConfigureValues {
        x: if asks_for(event.value_mask, CONFIG_WINDOW_X) {
            Some(event.x as i32)
        } else {
            None
        },
        y: if asks_for(event.value_mask, CONFIG_WINDOW_Y) {
            Some(event.y as i32)
        } else {
            None
        },
        width: if asks_for(event.value_mask, CONFIG_WINDOW_WIDTH) {
            Some(event.width as u32)
        } else {
            None
        },
        height: if asks_for(event.value_mask, CONFIG_WINDOW_HEIGHT) {
            Some(event.height as u32)
        } else {
            None
        },
        border_width: if asks_for(event.value_mask, CONFIG_WINDOW_BORDER_WIDTH) {
            Some(event.border_width as u32)
        } else {
            None
        },
        sibling: if asks_for(event.value_mask, CONFIG_WINDOW_SIBLING) {
            Some(event.sibling)
        } else {
            None
        },
        stack_mode: if asks_for(event.value_mask, CONFIG_WINDOW_STACK_MODE) {
            Some(event.stack_mode)
        } else {
            None
        },
    }
}

/// Calls `ConfigureWindowAux::from_configure_request` of x11rb on the
/// fields of `event`. The contract is assumed, not proved: the result
/// holds each field of the event whose bit is set in the value mask
/// (x is bit 0, then y, width, height, border width, sibling, stack
/// mode), widened to 32 bits, and nothing for the others.
#[verifier::external_body]
pub(crate) fn accept_configure_request(event: &ConfigureRequestEvent) -> (values: ConfigureValues)
    ensures
        values == requested_values(*event),
{
    let raw = x11rb::protocol::xproto::ConfigureRequestEvent {
        stack_mode: StackMode::from(event.stack_mode),
        parent: event.parent,
        window: event.window,
        sibling: event.sibling,
        x: event.x,
        y: event.y,
        width: event.width,
        height: event.height,
        border_width: event.border_width,
        value_mask: ConfigWindow::from(event.value_mask),
        ..Default::default()
    };
    let aux = ConfigureWindowAux::from_configure_request(&raw);
    ConfigureValues { x: aux.x, y: aux.y, width: aux.width, height: aux.height, border_width: aux.border_width, sibling: aux.sibling, stack_mode: aux.stack_mode.map(u32::from) }
}

} // verus!
