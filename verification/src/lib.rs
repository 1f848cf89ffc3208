//! A reparenting window manager's event core.
//!
//! The crate holds the decisions of the window manager and none of its
//! traffic with the display server: every entry point takes plain values
//! (events, replies, identifiers) and answers with the requests that the
//! caller has to send.

pub mod drag;
pub mod errors;
pub mod event;
pub mod manager;
pub mod model;
pub mod registry;
pub mod request;
pub mod startup;
pub mod suppressor;
pub mod traits;
pub mod window;

pub use drag::{DragController, DragSession, Reposition, DRAG_BUTTON};
pub use errors::{ConnectionError, FontGCError, ScanError, ScreenError};
pub use event::{
    ButtonPressEvent, ButtonReleaseEvent, ConfigureRequestEvent, EnterNotifyEvent, Event,
    EventKind, ExposeEvent, MapRequestEvent, MotionNotifyEvent, UnmapNotifyEvent,
};
pub use manager::RedWm;
pub use model::{Flow, ManagerState, MapState, ScanEntry, Screen, WindowAttributes};
pub use registry::WindowRegistry;
pub use request::{
    ConfigureValues, CoordMode, InputFocus, Point, Request, SetMode, WindowClass,
};
pub use startup::{check_access, ReplyError, StartupError};
pub use suppressor::SequenceSuppressor;
pub use traits::{HandleEvent, ManageWindows, X11Connection};
pub use window::{Geometry, RedWindow, Window, TITLEBAR_HEIGHT};
