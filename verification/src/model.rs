//! The manager as a state machine over mathematical values: what it
//! holds, and what each event makes of it. The executable manager is
//! specified against this model.

use vstd::arithmetic::div_mod::{lemma_mod_multiples_vanish, lemma_small_mod};
use vstd::prelude::*;

use crate::drag::{begun, offset_in_reach, qualifies, reposition, DragSession, DRAG_BUTTON};
use crate::event::{
    ButtonPressEvent, ButtonReleaseEvent, ConfigureRequestEvent, EnterNotifyEvent, Event,
    EventKind, ExposeEvent, MapRequestEvent, MotionNotifyEvent, UnmapNotifyEvent,
};
use crate::registry::{
    adoptable, apart, distinct_records, found, lemma_adopt_keeps_distinct,
    lemma_adopted_record_is_found, lemma_move_keeps_distinct, lemma_record_of, lemma_release_at,
    moved, record_of, registered, without_client,
};
use crate::request::{
    requested_values, ConfigureValues, CoordMode, InputFocus, Point, Request, SetMode, WindowClass,
    ATOM_STRING, ATOM_WM_NAME, COPY_DEPTH_FROM_PARENT, COPY_FROM_PARENT, CURRENT_TIME,
    EVENT_MASK_NO_EVENT, FRAME_BORDER_WIDTH, FRAME_EVENT_MASK, STACK_MODE_ABOVE, TITLE_X, TITLE_Y,
};
use crate::suppressor::{ascending, ignores, settled, with_entry};
use crate::window::{close_region_start, Geometry, RedWindow, Window, TITLEBAR_HEIGHT};

verus! {

/// What the manager reads of the screen that it manages.
#[derive(Debug, Clone, Copy, PartialEq, Eq, Structural)]
pub struct Screen {
    pub root: Window,
    pub white_pixel: u32,
    pub black_pixel: u32,
}

/// The 16-bit coordinate that the server reads where `value` is sent
/// in a signed field.
pub open spec fn as_coordinate(value: u16) -> i16 {
    if value <= i16::MAX {
        value as i16
    } else {
        (value - 0x1_0000) as i16
    }
}

/// The 16-bit coordinate that the server reads where the position
/// `value` is sent in 32 bits: the low 16 bits of `value`, signed. It
/// is `value` itself wherever that fits 16 bits.
pub open spec fn coordinate_of(value: int) -> i16 {
    let low = value % 0x1_0000;
    if low <= i16::MAX {
        low as i16
    } else {
        (low - 0x1_0000) as i16
    }
}

/// The sequence number that events carry for the request that the
/// connection counted as number `sequence`: its low 16 bits.
pub open spec fn wire_sequence(sequence: u64) -> u16 {
    (sequence % 0x1_0000) as u16
}

/// The requests that wrap the client `win` in the new frame
/// `frame`: the frame is created on the root with the client's
/// geometry and the titlebar's height on top; then, with the server
/// grabbed, the client enters the save-set, moves into the frame below
/// the titlebar, and both are mapped.
pub open spec fn frame_requests(screen: Screen, win: Window, geom: Geometry, frame: Window) -> Seq<
    Request,
> {
    seq![
        Request::CreateWindow {
            depth: COPY_DEPTH_FROM_PARENT,
            wid: frame,
            parent: screen.root,
            x: geom.x,
            y: geom.y,
            width: geom.width,
            height: (geom.height + TITLEBAR_HEIGHT) as u16,
            border_width: FRAME_BORDER_WIDTH,
            class: WindowClass::InputOutput,
            visual: COPY_FROM_PARENT,
            event_mask: FRAME_EVENT_MASK,
            background_pixel: screen.white_pixel,
        },
        Request::GrabServer,
        Request::ChangeSaveSet { mode: SetMode::Insert, window: win },
        Request::ReparentWindow { window: win, parent: frame, x: 0, y: TITLEBAR_HEIGHT as i16 },
        Request::MapWindow { window: win },
        Request::MapWindow { window: frame },
        Request::UngrabServer,
    ]
}

/// The requests that give the client of `record` back to the root
/// window: out of the save-set, onto the root at the record's
/// position, and the frame destroyed.
pub open spec fn release_requests(root: Window, record: RedWindow) -> Seq<Request> {
    seq![
        Request::ChangeSaveSet { mode: SetMode::Delete, window: record.window },
        Request::ReparentWindow { window: record.window, parent: root, x: record.x, y: record.y },
        Request::DestroyWindow { window: record.frame_window },
    ]
}

/// The requests that focus the client of `record` and raise its frame.
pub open spec fn focus_requests(record: RedWindow) -> Seq<Request> {
    seq![
        Request::SetInputFocus {
            revert_to: InputFocus::Parent,
            focus: record.window,
            time: CURRENT_TIME,
        },
        Request::ConfigureWindow {
            window: record.frame_window,
            values: ConfigureValues {
                stack_mode: Some(STACK_MODE_ABOVE),
                ..ConfigureValues::unchanged()
            },
        },
    ]
}

/// The message that asks the client of `record` to close its window:
/// of type `wm_protocols`, with `wm_delete_window` as its first word
/// and zeros after it.
pub open spec fn close_request(record: RedWindow, wm_protocols: u32, wm_delete_window: u32) -> Request {
    Request::SendClientMessage {
        propagate: false,
        destination: record.window,
        event_mask: EVENT_MASK_NO_EVENT,
        window: record.window,
        message_type: wm_protocols,
        data: [wm_delete_window, 0, 0, 0, 0],
    }
}

/// The requests that open the redraw of the titlebar of `record`: the
/// rule that sets the close region apart, and the question for the
/// client's name.
pub open spec fn titlebar_requests(record: RedWindow, gc: u32) -> Seq<Request> {
    seq![
        Request::PolyLine {
            coordinate_mode: CoordMode::Origin,
            drawable: record.frame_window,
            gc,
            from: Point {
                x: as_coordinate(close_region_start(record.width as int) as u16),
                y: as_coordinate(TITLEBAR_HEIGHT),
            },
            to: Point { x: as_coordinate(record.width), y: 0 },
        },
        Request::GetProperty {
            delete: false,
            window: record.window,
            property: ATOM_WM_NAME,
            property_type: ATOM_STRING,
            long_offset: 0,
            long_length: u32::MAX,
        },
    ]
}

/// The request that paints `name` into the titlebar of `record`.
pub open spec fn title_request(record: RedWindow, gc: u32, name: Vec<u8>) -> Request {
    Request::ImageText8 { drawable: record.frame_window, gc, x: TITLE_X, y: TITLE_Y, string: name }
}

/// The request that forwards the configure request `event` as the
/// client made it, but for the sibling and the stacking mode.
pub open spec fn forwarded_configure(event: ConfigureRequestEvent) -> Request {
    Request::ConfigureWindow {
        window: event.window,
        values: ConfigureValues { sibling: None, stack_mode: None, ..requested_values(event) },
    }
}

/// The request that moves `frame` to (`x`, `y`).
pub open spec fn move_request(frame: Window, x: int, y: int) -> Request {
    Request::ConfigureWindow {
        window: frame,
        values: ConfigureValues { x: Some(x as i32), y: Some(y as i32), ..ConfigureValues::unchanged() },
    }
}

/// Whether a release at `event_x`, relative to the frame of `record`,
/// falls into the close region.
pub open spec fn in_close_region(record: RedWindow, event_x: i16) -> bool {
    event_x >= close_region_start(record.width as int)
}

/// Whether a window is mapped, and whether it can be seen.
#[derive(Debug, Clone, Copy, PartialEq, Eq, Structural)]
pub enum MapState {
    Unmapped,
    /// Mapped, but under an ancestor that is not.
    Unviewable,
    Viewable,
}

/// What the scan reads of a window's attributes.
#[derive(Debug, Clone, Copy, PartialEq, Eq, Structural)]
pub struct WindowAttributes {
    /// The window asks not to be managed.
    pub override_redirect: bool,
    pub map_state: MapState,
}

/// A top-level window that was there before the manager, with what the
/// server answered about it. `None` stands for a question that failed.
#[derive(Debug, Clone, Copy, PartialEq, Eq, Structural)]
pub struct ScanEntry {
    pub window: Window,
    pub attributes: Option<WindowAttributes>,
    pub geometry: Option<Geometry>,
}

/// How the event loop goes on after an event.
#[derive(Debug, PartialEq, Eq)]
pub enum Flow {
    /// The loop ends.
    Exit,
    /// The requests are sent in order, and the loop goes on.
    Continue(Vec<Request>),
}

impl Flow {
    /// The requests to send, or `None` where the loop ends.
    pub open spec fn requests(self) -> Option<Seq<Request>> {
        match self {
            Flow::Exit => None,
            Flow::Continue(requests) => Some(requests@),
        }
    }
}

/// Whether the scan adopts the window of `entry`: both questions were
/// answered, and the window is viewable and does not ask to be left alone.
pub open spec fn eligible(entry: ScanEntry) -> bool {
    &&& entry.geometry.is_some()
    &&& entry.attributes matches Some(attributes)
    &&& !attributes.override_redirect
    &&& attributes.map_state == MapState::Viewable
}

/// The windows of `entries` that the scan adopts, each with its
/// geometry, in the order of `entries`.
pub open spec fn scanned(entries: Seq<ScanEntry>) -> Seq<(Window, Geometry)>
    decreases entries.len(),
{
    if entries.len() == 0 {
        Seq::empty()
    } else {
        let before = scanned(entries.drop_last());
        if eligible(entries.last()) {
            before.push((entries.last().window, entries.last().geometry.unwrap()))
        } else {
            before
        }
    }
}

/// The records to redraw for the exposed windows `order`, in that
/// order: one for each that is managed.
pub open spec fn redraws(windows: Seq<RedWindow>, order: Seq<Window>) -> Seq<RedWindow>
    decreases order.len(),
{
    if order.len() == 0 {
        Seq::empty()
    } else {
        let before = redraws(windows, order.drop_last());
        match found(windows, order.last()) {
            Some(record) => before.push(record),
            None => before,
        }
    }
}

/// What the manager holds.
pub struct ManagerState {
    pub screen: Screen,
    pub screen_num: usize,
    /// The graphics context that titlebars are drawn with.
    pub black_gc: u32,
    pub wm_protocols: u32,
    pub wm_delete_window: u32,
    /// The managed windows in the order of their adoption.
    pub windows: Seq<RedWindow>,
    /// The windows whose titlebar waits to be drawn again.
    pub pending: Set<Window>,
    /// The sequence numbers whose events are to be ignored, ascending.
    pub ignoring: Seq<u16>,
    /// The drag in progress.
    pub drag: Option<DragSession>,
}

impl ManagerState {
    /// The state of a manager that has seen nothing yet.
    pub open spec fn initial(
        screen: Screen,
        screen_num: usize,
        black_gc: u32,
        wm_protocols: u32,
        wm_delete_window: u32,
    ) -> ManagerState {
        ManagerState {
            screen,
            screen_num,
            black_gc,
            wm_protocols,
            wm_delete_window,
            windows: Seq::empty(),
            pending: Set::empty(),
            ignoring: Seq::empty(),
            drag: None,
        }
    }

    /// The invariant of the manager: no two records share an identifier
    /// and each has a client and a frame of its own; the outstanding
    /// sequence numbers ascend; finitely many exposures are pending;
    /// and the offsets of a drag leave room for the pointer's coordinates.
    pub open spec fn wf(self) -> bool {
        &&& distinct_records(self.windows)
        &&& ascending(self.ignoring)
        &&& self.pending.finite()
        &&& match self.drag {
            Some(s) => offset_in_reach(s.offset_x) && offset_in_reach(s.offset_y),
            None => true,
        }
    }

    /// Whether `id` names a managed window, as client or as frame.
    pub open spec fn manages(self, id: Window) -> bool {
        registered(self.windows, id)
    }

    /// The state after `win` was wrapped in `frame` by a reparent
    /// request that the connection counted as number `sequence`: the
    /// record is the newest, and the events of the reparent are to be ignored.
    pub open spec fn adopted(self, win: Window, geom: Geometry, frame: Window, sequence: u64) -> ManagerState {
        ManagerState {
            windows: self.windows.push(RedWindow::of(win, frame, geom)),
            ignoring: with_entry(self.ignoring, wire_sequence(sequence)),
            ..self
        }
    }

    /// A client's window was unmapped: its record leaves, and the
    /// client goes back to the root.
    pub open spec fn on_unmap_notify(self, event: UnmapNotifyEvent) -> (ManagerState, Seq<Request>) {
        match record_of(self.windows, event.window) {
            Some(record) => (
                ManagerState { windows: without_client(self.windows, event.window), ..self },
                release_requests(self.screen.root, record),
            ),
            None => (self, Seq::empty()),
        }
    }

    /// A client asks for a window to be mapped: unless it is managed
    /// already, its geometry is asked for, and the adoption follows the reply.
    pub open spec fn on_map_request(self, event: MapRequestEvent) -> (ManagerState, Seq<Request>) {
        if self.manages(event.window) {
            (self, Seq::empty())
        } else {
            (self, seq![Request::GetGeometry { drawable: event.window }])
        }
    }

    /// A client asks to configure a window that is not managed.
    pub open spec fn on_configure_request(self, event: ConfigureRequestEvent) -> (
        ManagerState,
        Seq<Request>,
    ) {
        (self, seq![forwarded_configure(event)])
    }

    /// Part of a window was exposed: its titlebar waits for the next refresh.
    pub open spec fn on_expose(self, event: ExposeEvent) -> (ManagerState, Seq<Request>) {
        (ManagerState { pending: self.pending.insert(event.window), ..self }, Seq::empty())
    }

    /// The pointer entered a window: where it is managed, its client
    /// gets the focus and its frame is raised.
    pub open spec fn on_enter(self, event: EnterNotifyEvent) -> (ManagerState, Seq<Request>) {
        match found(self.windows, event.event) {
            Some(record) => (self, focus_requests(record)),
            None => (self, Seq::empty()),
        }
    }

    /// A button went down: the drag button, with nothing else held and
    /// over a managed window, starts to drag that window's frame, with
    /// the pointer's position in the window negated as the offset.
    pub open spec fn on_button_press(self, event: ButtonPressEvent) -> (ManagerState, Seq<Request>) {
        if qualifies(event.detail, event.state) {
            match found(self.windows, event.event) {
                Some(record) => (
                    ManagerState {
                        drag: begun(
                            record.frame_window,
                            ((0 - event.event_x) as i32, (0 - event.event_y) as i32),
                        ),
                        ..self
                    },
                    Seq::empty(),
                ),
                None => (self, Seq::empty()),
            }
        } else {
            (self, Seq::empty())
        }
    }

    /// A button went up: the drag button ends the drag; and, whichever
    /// button it was, a release in the close region of a managed window
    /// asks its client to close.
    pub open spec fn on_button_release(self, event: ButtonReleaseEvent) -> (ManagerState, Seq<Request>) {
        let after = ManagerState {
            drag: if event.detail == DRAG_BUTTON {
                None
            } else {
                self.drag
            },
            ..self
        };
        match found(self.windows, event.event) {
            Some(record) => if in_close_region(record, event.event_x) {
                (after, seq![close_request(record, self.wm_protocols, self.wm_delete_window)])
            } else {
                (after, Seq::empty())
            },
            None => (after, Seq::empty()),
        }
    }

    /// The pointer moved: the dragged frame follows, and its record
    /// takes the new position as the server reads it. No other record
    /// and nothing else of the state changes.
    pub open spec fn on_motion_notify(self, event: MotionNotifyEvent) -> (ManagerState, Seq<Request>) {
        match reposition(self.drag, event.root_x, event.root_y) {
            Some((frame, x, y)) => (
                ManagerState {
                    windows: moved(self.windows, frame, coordinate_of(x), coordinate_of(y)),
                    ..self
                },
                seq![move_request(frame, x, y)],
            ),
            None => (self, Seq::empty()),
        }
    }

    /// What the handler of `kind` makes of the state.
    pub open spec fn dispatch(self, kind: EventKind) -> (ManagerState, Seq<Request>) {
        match kind {
            EventKind::UnmapNotify(event) => self.on_unmap_notify(event),
            EventKind::ConfigureRequest(event) => self.on_configure_request(event),
            EventKind::MapRequest(event) => self.on_map_request(event),
            EventKind::Expose(event) => self.on_expose(event),
            EventKind::EnterNotify(event) => self.on_enter(event),
            EventKind::ButtonPress(event) => self.on_button_press(event),
            EventKind::ButtonRelease(event) => self.on_button_release(event),
            EventKind::MotionNotify(event) => self.on_motion_notify(event),
            EventKind::ClientMessage => (self, Seq::empty()),
            EventKind::Other => (self, Seq::empty()),
        }
    }

    /// Whether `event` is discarded before any handler runs: it
    /// carries a sequence number that the suppressor ignores.
    pub open spec fn suppresses(self, event: Event) -> bool {
        match event.sequence {
            Some(seq) => ignores(self.ignoring, seq),
            None => false,
        }
    }

    /// The state once the suppressor has seen the sequence number of `event`.
    pub open spec fn settle(self, event: Event) -> ManagerState {
        match event.sequence {
            Some(seq) => ManagerState { ignoring: settled(self.ignoring, seq), ..self },
            None => self,
        }
    }

    /// Whether `event` would reach the handler for configure requests
    /// with a window that is managed. That path is not implemented:
    /// the manager must not be given such an event.
    pub open spec fn rejects(self, event: Event) -> bool {
        match event.kind {
            EventKind::ConfigureRequest(request) => !self.suppresses(event) && self.manages(
                request.window,
            ),
            _ => false,
        }
    }

    /// What `event` makes of the state: the suppressor sees its
    /// sequence number first, and only an event that it does not
    /// ignore reaches its handler.
    pub open spec fn handle(self, event: Event) -> (ManagerState, Seq<Request>) {
        if self.suppresses(event) {
            (self.settle(event), Seq::empty())
        } else {
            self.settle(event).dispatch(event.kind)
        }
    }

    /// One turn of the event loop for `event`: a client message ends
    /// the loop, with the state untouched; any other event is handled.
    pub open spec fn step(self, event: Event) -> (ManagerState, Option<Seq<Request>>) {
        if event.kind is ClientMessage {
            (self, None)
        } else {
            (self.handle(event).0, Some(self.handle(event).1))
        }
    }
}

/// A release over a managed window at or beyond the start of its close
/// region, which is its width less the titlebar height and never below
/// zero, sends one close message to its client; a release before it
/// sends nothing.
pub proof fn lemma_close_region_decides(
    state: ManagerState,
    event: ButtonReleaseEvent,
    record: RedWindow,
)
    requires
        found(state.windows, event.event) == Some(record),
    ensures
        event.event_x >= close_region_start(record.width as int) ==> state.on_button_release(
            event,
        ).1 == seq![close_request(record, state.wm_protocols, state.wm_delete_window)],
        event.event_x < close_region_start(record.width as int) ==> state.on_button_release(
            event,
        ).1 == Seq::<Request>::empty(),
        close_region_start(record.width as int) == if record.width - TITLEBAR_HEIGHT > 0 {
            record.width - TITLEBAR_HEIGHT
        } else {
            0
        },
{
}

/// Taking the newest record's client out of the records gives back
/// what was there before its adoption.
pub proof fn lemma_release_newest(records: Seq<RedWindow>, win: Window, geom: Geometry, frame: Window)
    requires
        distinct_records(records),
        adoptable(records, win, frame),
    ensures
        record_of(records.push(RedWindow::of(win, frame, geom)), win) == Some(
            RedWindow::of(win, frame, geom),
        ),
        without_client(records.push(RedWindow::of(win, frame, geom)), win) == records,
{
    let record = RedWindow::of(win, frame, geom);
    let grown = records.push(record);
    assert(grown[grown.len() - 1] == record);
    assert(grown.contains(record));
    lemma_adopt_keeps_distinct(records, win, frame, geom);
    lemma_record_of(grown, win, record);
    lemma_release_at(grown, win, grown.len() - 1);
    assert(grown.remove(grown.len() - 1) =~= records);
}

/// An adoption adds one record, and the frame that was asked for has
/// the client's geometry with the titlebar's height on top. An unmap
/// notify for the client that follows at once, and that the suppressor
/// lets through, takes that record out again and gives the client back
/// to the root at the record's position.
pub proof fn lemma_adopt_then_unmap(
    state: ManagerState,
    win: Window,
    geom: Geometry,
    frame: Window,
    sequence: u64,
    unmap: Event,
)
    requires
        state.wf(),
        adoptable(state.windows, win, frame),
        unmap.kind == EventKind::UnmapNotify(UnmapNotifyEvent { window: win }),
        !state.adopted(win, geom, frame, sequence).suppresses(unmap),
    ensures
        state.adopted(win, geom, frame, sequence).windows == state.windows.push(
            RedWindow::of(win, frame, geom),
        ),
        frame_requests(state.screen, win, geom, frame)[0] == (Request::CreateWindow {
            depth: COPY_DEPTH_FROM_PARENT,
            wid: frame,
            parent: state.screen.root,
            x: geom.x,
            y: geom.y,
            width: geom.width,
            height: (geom.height + TITLEBAR_HEIGHT) as u16,
            border_width: FRAME_BORDER_WIDTH,
            class: WindowClass::InputOutput,
            visual: COPY_FROM_PARENT,
            event_mask: FRAME_EVENT_MASK,
            background_pixel: state.screen.white_pixel,
        }),
        state.adopted(win, geom, frame, sequence).handle(unmap).0.windows == state.windows,
        state.adopted(win, geom, frame, sequence).handle(unmap).1 == release_requests(
            state.screen.root,
            RedWindow::of(win, frame, geom),
        ),
        release_requests(state.screen.root, RedWindow::of(win, frame, geom))[1] == (
        Request::ReparentWindow { window: win, parent: state.screen.root, x: geom.x, y: geom.y }),
{
    lemma_release_newest(state.windows, win, geom, frame);
    let adopted = state.adopted(win, geom, frame, sequence);
    let settled = adopted.settle(unmap);
    assert(settled.windows == adopted.windows);
    assert(settled.screen == state.screen);
    assert(adopted.handle(unmap) == settled.on_unmap_notify(UnmapNotifyEvent { window: win }));
}

/// A position that fits 16 bits is read by the server as it is.
pub proof fn lemma_coordinate_in_range(value: int)
    requires
        i16::MIN <= value <= i16::MAX,
    ensures
        coordinate_of(value) == value,
{
    if value >= 0 {
        lemma_small_mod(value as nat, 0x1_0000);
    } else {
        lemma_mod_multiples_vanish(1, value, 0x1_0000);
        lemma_small_mod((0x1_0000 + value) as nat, 0x1_0000);
    }
}

/// A motion during a drag writes the new position of the dragged frame
/// into its record: the offset added to the pointer's position, as the
/// server reads it, which is the sum itself wherever that fits 16
/// bits. The record keeps its identifiers and its size, every other
/// record stays as it is, and so does the rest of the state.
pub proof fn lemma_drag_moves_record(state: ManagerState, event: MotionNotifyEvent, at: int)
    requires
        state.wf(),
        0 <= at < state.windows.len(),
        state.drag matches Some(session) && session.frame == state.windows[at].frame_window,
    ensures
        state.on_motion_notify(event).0 == (ManagerState {
            windows: state.on_motion_notify(event).0.windows,
            ..state
        }),
        state.on_motion_notify(event).0.wf(),
        state.on_motion_notify(event).0.windows.len() == state.windows.len(),
        state.on_motion_notify(event).0.windows[at] == (RedWindow {
            x: coordinate_of(state.drag.unwrap().offset_x + event.root_x),
            y: coordinate_of(state.drag.unwrap().offset_y + event.root_y),
            ..state.windows[at]
        }),
        i16::MIN <= state.drag.unwrap().offset_x + event.root_x <= i16::MAX
            ==> state.on_motion_notify(event).0.windows[at].x == state.drag.unwrap().offset_x
            + event.root_x,
        i16::MIN <= state.drag.unwrap().offset_y + event.root_y <= i16::MAX
            ==> state.on_motion_notify(event).0.windows[at].y == state.drag.unwrap().offset_y
            + event.root_y,
        forall|k: int|
            0 <= k < state.windows.len() && k != at ==> state.on_motion_notify(event).0.windows[k]
                == state.windows[k],
{
    let session = state.drag.unwrap();
    let x = session.offset_x + event.root_x;
    let y = session.offset_y + event.root_y;
    lemma_move_keeps_distinct(state.windows, session.frame, coordinate_of(x), coordinate_of(y));
    if i16::MIN <= x <= i16::MAX {
        lemma_coordinate_in_range(x);
    }
    if i16::MIN <= y <= i16::MAX {
        lemma_coordinate_in_range(y);
    }
    assert forall|k: int| 0 <= k < state.windows.len() && k != at implies state.on_motion_notify(
        event,
    ).0.windows[k] == state.windows[k] by {
        if k < at {
            assert(apart(state.windows[k], state.windows[at]));
        } else {
            assert(apart(state.windows[at], state.windows[k]));
        }
    }
}

/// After a motion during a drag, an unmap notify for the client of the
/// dragged frame gives the client back to the root at the position
/// that the motion wrote into the record.
pub proof fn lemma_unmap_follows_drag(state: ManagerState, event: MotionNotifyEvent, at: int)
    requires
        state.wf(),
        0 <= at < state.windows.len(),
        state.drag matches Some(session) && session.frame == state.windows[at].frame_window,
    ensures
        state.on_motion_notify(event).0.on_unmap_notify(
            UnmapNotifyEvent { window: state.windows[at].window },
        ).1 == release_requests(
            state.screen.root,
            RedWindow {
                x: coordinate_of(state.drag.unwrap().offset_x + event.root_x),
                y: coordinate_of(state.drag.unwrap().offset_y + event.root_y),
                ..state.windows[at]
            },
        ),
{
    lemma_drag_moves_record(state, event, at);
    let after = state.on_motion_notify(event).0;
    assert(after.windows.contains(after.windows[at]));
    lemma_record_of(after.windows, state.windows[at].window, after.windows[at]);
}

/// A map request for a window that is not managed asks for its
/// geometry; whatever the frame, its adoption then adds one record,
/// with the client's geometry, and a lookup of the client finds it.
pub proof fn lemma_map_request_then_adoption(
    state: ManagerState,
    win: Window,
    geom: Geometry,
    frame: Window,
    sequence: u64,
)
    requires
        !state.manages(win),
    ensures
        state.on_map_request(MapRequestEvent { window: win }) == (
            state,
            seq![Request::GetGeometry { drawable: win }],
        ),
        state.adopted(win, geom, frame, sequence).windows == state.windows.push(
            RedWindow {
                window: win,
                frame_window: frame,
                x: geom.x,
                y: geom.y,
                width: geom.width,
                height: geom.height,
            },
        ),
        found(state.adopted(win, geom, frame, sequence).windows, win) == Some(
            RedWindow::of(win, frame, geom),
        ),
{
    lemma_adopted_record_is_found(state.windows, win, frame, geom);
}

/// The requests of an adoption, one by one: the frame is created on
/// the root at the client's position, as wide as the client and
/// higher by the titlebar; the server is grabbed; the client enters
/// the save-set, moves into the frame below the titlebar, and is
/// mapped; the frame is mapped; the server is let go.
pub proof fn lemma_frame_requests_in_order(screen: Screen, win: Window, geom: Geometry, frame: Window)
    ensures
        frame_requests(screen, win, geom, frame).len() == 7,
        frame_requests(screen, win, geom, frame)[0] == (Request::CreateWindow {
            depth: COPY_DEPTH_FROM_PARENT,
            wid: frame,
            parent: screen.root,
            x: geom.x,
            y: geom.y,
            width: geom.width,
            height: (geom.height + TITLEBAR_HEIGHT) as u16,
            border_width: FRAME_BORDER_WIDTH,
            class: WindowClass::InputOutput,
            visual: COPY_FROM_PARENT,
            event_mask: FRAME_EVENT_MASK,
            background_pixel: screen.white_pixel,
        }),
        geom.height + TITLEBAR_HEIGHT <= u16::MAX ==> (geom.height + TITLEBAR_HEIGHT) as u16
            == geom.height + TITLEBAR_HEIGHT,
        frame_requests(screen, win, geom, frame)[1] == Request::GrabServer,
        frame_requests(screen, win, geom, frame)[2] == (Request::ChangeSaveSet {
            mode: SetMode::Insert,
            window: win,
        }),
        frame_requests(screen, win, geom, frame)[3] == (Request::ReparentWindow {
            window: win,
            parent: frame,
            x: 0,
            y: TITLEBAR_HEIGHT as i16,
        }),
        frame_requests(screen, win, geom, frame)[4] == (Request::MapWindow { window: win }),
        frame_requests(screen, win, geom, frame)[5] == (Request::MapWindow { window: frame }),
        frame_requests(screen, win, geom, frame)[6] == Request::UngrabServer,
{
}

} // verus!
