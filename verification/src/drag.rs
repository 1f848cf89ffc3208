//! The drag controller: at most one window follows the pointer.

use vstd::prelude::*;

use crate::window::Window;

verus! {

/// The pointer button that starts and ends a drag.
pub const DRAG_BUTTON: u8 = 1;

/// A drag in progress: the frame that moves, and where its corner lies
/// relative to the pointer.
#[derive(Debug, Clone, Copy, PartialEq, Eq, Structural)]
pub struct DragSession {
    pub frame: Window,
    pub offset_x: i32,
    pub offset_y: i32,
}

/// Where a frame has to go.
#[derive(Debug, Clone, Copy, PartialEq, Eq, Structural)]
pub struct Reposition {
    pub frame: Window,
    pub x: i32,
    pub y: i32,
}

/// Whether a press of `button` under the modifier and button state
/// `state` starts a drag: the drag button, with nothing else held.
pub open spec fn qualifies(button: u8, state: u16) -> bool {
    button == DRAG_BUTTON && state == 0
}

/// Whether an offset component leaves room for any pointer coordinate to be added.
pub open spec fn offset_in_reach(offset: i32) -> bool {
    i32::MIN - i16::MIN <= offset <= i32::MAX - i16::MAX
}

/// The session that `begin` leaves, whatever was there before.
pub open spec fn begun(frame: Window, offset: (i32, i32)) -> Option<DragSession> {
    Some(DragSession { frame, offset_x: offset.0, offset_y: offset.1 })
}

/// Where the session `session` puts its frame once the pointer is at
/// (`root_x`, `root_y`): the offset added to the pointer's position.
pub open spec fn reposition(session: Option<DragSession>, root_x: i16, root_y: i16) -> Option<
    (Window, int, int),
> {
    match session {
        Some(s) => Some((s.frame, s.offset_x + root_x, s.offset_y + root_y)),
        None => None,
    }
}

/// The single slot that holds the drag in progress, if there is one.
pub struct DragController {
    session: Option<DragSession>,
}

impl View for DragController {
    type V = Option<DragSession>;

    closed spec fn view(&self) -> Option<DragSession> {
        self.session
    }
}

impl DragController {
    /// The invariant that every operation keeps: the offsets of a
    /// session leave room for the pointer's coordinates.
    pub open spec fn wf(&self) -> bool {
        match self@ {
            Some(s) => offset_in_reach(s.offset_x) && offset_in_reach(s.offset_y),
            None => true,
        }
    }

    pub fn new() -> (controller: Self)
        ensures
            controller@.is_none(),
            controller.wf(),
    {
        DragController { session: None }
    }

    /// The drag in progress, if there is one.
    pub fn session(&self) -> (session: Option<DragSession>)
        ensures
            session == self@,
    {
        self.session
    }

    /// Whether a press of `button` under `state` starts a drag.
    pub fn is_qualified(button: u8, state: u16) -> (go: bool)
        ensures
            go == qualifies(button, state),
    {
        button == DRAG_BUTTON && state == 0
    }

    /// Starts dragging `frame`; a session that was in progress is dropped.
    ///
    /// Each offset must leave room, within 32 bits, for any pointer
    /// coordinate to be added to it.
    pub fn begin(&mut self, frame: Window, pointer_offset: (i32, i32))
        requires
            offset_in_reach(pointer_offset.0),
            offset_in_reach(pointer_offset.1),
        ensures
            final(self)@ == begun(frame, pointer_offset),
            final(self).wf(),
    {
        self.session = Some(
            DragSession { frame, offset_x: pointer_offset.0, offset_y: pointer_offset.1 },
        );
    }

    /// Where the dragged frame goes now that the pointer is at
    /// (`root_x`, `root_y`) on the root window; `None` without a session.
    pub fn update(&self, root_x: i16, root_y: i16) -> (instruction: Option<Reposition>)
        requires
            self.wf(),
        ensures
            match instruction {
                Some(r) => reposition(self@, root_x, root_y) == Some(
                    (r.frame, r.x as int, r.y as int),
                ),
                None => reposition(self@, root_x, root_y).is_none(),
            },
    {
        match self.session {
            Some(s) => Some(
                Reposition {
                    frame: s.frame,
                    x: s.offset_x + root_x as i32,
                    y: s.offset_y + root_y as i32,
                },
            ),
            None => None,
        }
    }

    /// Ends the drag, if one was in progress.
    pub fn end(&mut self)
        ensures
            final(self)@.is_none(),
            final(self).wf(),
    {
        self.session = None;
    }
}

/// After `begin(frame, (dx, dy))`, an update for the pointer at
/// (`root_x`, `root_y`) moves `frame` to (`dx + root_x`, `dy + root_y`).
pub proof fn lemma_begin_then_update(frame: Window, dx: i32, dy: i32, root_x: i16, root_y: i16)
    ensures
        reposition(begun(frame, (dx, dy)), root_x, root_y) == Some(
            (frame, dx + root_x, dy + root_y),
        ),
{
}

/// After `end`, an update yields no instruction, wherever the pointer is.
pub proof fn lemma_end_then_update(root_x: i16, root_y: i16)
    ensures
        reposition(None, root_x, root_y).is_none(),
{
}

} // verus!
