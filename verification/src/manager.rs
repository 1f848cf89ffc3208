//! The manager: the registry, the suppressor, the drag controller and
//! the pending exposures under one roof.
//!
//! The manager never talks to the display server. Each entry point
//! answers with the requests to send, and the two requests that have a
//! reply name the entry point that takes it.

use std::collections::HashSet;
use vstd::arithmetic::div_mod::lemma_mod_multiples_vanish;
use vstd::prelude::*;
use vstd::std_specs::iter::IteratorSpec;

use crate::drag::{DragController, DragSession, DRAG_BUTTON};
use crate::event::{
    ButtonPressEvent, ButtonReleaseEvent, ConfigureRequestEvent, EnterNotifyEvent, Event,
    EventKind, ExposeEvent, MapRequestEvent, MotionNotifyEvent, UnmapNotifyEvent,
};
use crate::model::{
    as_coordinate, close_request, coordinate_of, focus_requests, frame_requests, move_request,
    redraws, release_requests, scanned, title_request, titlebar_requests, Flow, ManagerState,
    MapState, ScanEntry, Screen,
};
use crate::registry::{adoptable, WindowRegistry};
use crate::traits::{HandleEvent, ManageWindows, X11Connection};
use crate::request::{
    accept_configure_request, ConfigureValues, CoordMode, InputFocus, Point, Request, SetMode,
    WindowClass, ATOM_STRING, ATOM_WM_NAME, COPY_DEPTH_FROM_PARENT, COPY_FROM_PARENT,
    CURRENT_TIME, EVENT_MASK_NO_EVENT, FRAME_BORDER_WIDTH, FRAME_EVENT_MASK, STACK_MODE_ABOVE,
    TITLE_X, TITLE_Y,
};
use crate::suppressor::SequenceSuppressor;
use crate::window::{Geometry, RedWindow, Window, TITLEBAR_HEIGHT};

verus! {

broadcast use vstd::std_specs::hash::group_hash_axioms;

/// The coordinate that the server reads where `value` is sent in a signed field.
fn to_coordinate(value: u16) -> (coordinate: i16)
    ensures
        coordinate == as_coordinate(value),
{
    if value <= 0x7fff {
        value as i16
    } else {
        (value as i32 - 0x1_0000) as i16
    }
}

/// The coordinate that the server reads where the position `value` is sent in 32 bits.
fn to_position(value: i32) -> (coordinate: i16)
    ensures
        coordinate == coordinate_of(value as int),
{
    let shifted: u32 = (value as i64 + 0x8000_0000) as u32;
    let low: u32 = shifted % 0x1_0000;
    proof {
        lemma_mod_multiples_vanish(0x8000, value as int, 0x1_0000);
    }
    if low <= 0x7fff {
        low as i16
    } else {
        (low as i32 - 0x1_0000) as i16
    }
}

/// The window manager's state.
pub struct RedWm {
    screen: Screen,
    screen_num: usize,
    pending_exposure: HashSet<Window>,
    sequences_to_ignore: SequenceSuppressor,
    windows: WindowRegistry,
    black_gc: u32,
    drag_window: DragController,
    wm_protocols: u32,
    wm_delete_window: u32,
}

impl View for RedWm {
    type V = ManagerState;

    closed spec fn view(&self) -> ManagerState {
        ManagerState {
            screen: self.screen,
            screen_num: self.screen_num,
            black_gc: self.black_gc,
            wm_protocols: self.wm_protocols,
            wm_delete_window: self.wm_delete_window,
            windows: self.windows@,
            pending: self.pending_exposure@,
            ignoring: self.sequences_to_ignore@,
            drag: self.drag_window@,
        }
    }
}

impl RedWm {
    /// The invariant that every operation keeps.
    pub open spec fn wf(&self) -> bool {
        self@.wf()
    }

    /// A manager for the screen `screen`, number `screen_num` of the
    /// display, that draws with the graphics context `black_gc` and
    /// speaks of closing with the atoms `wm_protocols` and
    /// `wm_delete_window`. It manages nothing yet.
    pub fn new(
        screen: Screen,
        screen_num: usize,
        black_gc: u32,
        wm_protocols: u32,
        wm_delete_window: u32,
    ) -> (wm: Self)
        ensures
            wm@ == ManagerState::initial(
                screen,
                screen_num,
                black_gc,
                wm_protocols,
                wm_delete_window,
            ),
            wm.wf(),
    {
        RedWm {
            screen,
            screen_num,
            pending_exposure: HashSet::new(),
            sequences_to_ignore: SequenceSuppressor::new(),
            windows: WindowRegistry::new(),
            black_gc,
            drag_window: DragController::new(),
            wm_protocols,
            wm_delete_window,
        }
    }

    /// The number of that screen on its display.
    pub fn screen_num(&self) -> (n: usize)
        ensures
            n == self@.screen_num,
    {
        self.screen_num
    }

    /// Whether `event` must not be handed to `handle_event`: it is a
    /// configure request for a managed window that the suppressor lets through.
    pub fn rejects(&self, event: &Event) -> (rejected: bool)
        ensures
            rejected == self@.rejects(*event),
    {
        match event.kind {
            EventKind::ConfigureRequest(request) => {
                let suppressed = match event.sequence {
                    Some(seq) => self.sequences_to_ignore.would_ignore(seq),
                    None => false,
                };
                !suppressed && self.windows.lookup(request.window).is_some()
            },
            _ => false,
        }
    }

    /// One turn of the event loop: a client message ends the loop;
    /// any other event is handled.
    pub fn step(&mut self, event: Event) -> (flow: Flow)
        requires
            old(self).wf(),
            !old(self)@.rejects(event),
        ensures
            final(self)@ == old(self)@.step(event).0,
            flow.requests() == old(self)@.step(event).1,
            final(self).wf(),
    {
        match event.kind {
            EventKind::ClientMessage => Flow::Exit,
            _ => Flow::Continue(self.handle_event(event)),
        }
    }

    /// The requests that wrap `win` in the new frame `frame_win`. Once
    /// they are sent, `manage_window` takes note of the adoption.
    pub fn adoption_requests(&self, win: Window, geom: &Geometry, frame_win: Window) -> (requests:
        Vec<Request>)
        ensures
            requests@ == frame_requests(self@.screen, win, *geom, frame_win),
    {
        let mut requests: Vec<Request> = Vec::new();
        requests.push(
            Request::CreateWindow {
                depth: COPY_DEPTH_FROM_PARENT,
                wid: frame_win,
                parent: self.screen.root,
                x: geom.x,
                y: geom.y,
                width: geom.width,
                height: geom.height + TITLEBAR_HEIGHT,
                border_width: FRAME_BORDER_WIDTH,
                class: WindowClass::InputOutput,
                visual: COPY_FROM_PARENT,
                event_mask: FRAME_EVENT_MASK,
                background_pixel: self.screen.white_pixel,
            },
        );
        requests.push(Request::GrabServer);
        requests.push(Request::ChangeSaveSet { mode: SetMode::Insert, window: win });
        requests.push(
            Request::ReparentWindow {
                window: win,
                parent: frame_win,
                x: 0,
                y: TITLEBAR_HEIGHT as i16,
            },
        );
        requests.push(Request::MapWindow { window: win });
        requests.push(Request::MapWindow { window: frame_win });
        requests.push(Request::UngrabServer);
        proof {
            assert(requests@ =~= frame_requests(self@.screen, win, *geom, frame_win));
        }
        requests
    }

    /// Whether `win` may be handed to `manage_window` with the frame `frame_win`.
    pub fn can_manage(&self, win: Window, frame_win: Window) -> (ok: bool)
        ensures
            ok == adoptable(self@.windows, win, frame_win),
    {
        win != 0 && frame_win != 0 && win != frame_win && self.windows.lookup(win).is_none()
            && self.windows.lookup(frame_win).is_none()
    }

    /// The request that paints the client's name `name` into the titlebar of `state`.
    pub fn title_text(&self, state: &RedWindow, name: Vec<u8>) -> (request: Request)
        ensures
            request == title_request(*state, self@.black_gc, name),
    {
        Request::ImageText8 {
            drawable: state.frame_window,
            gc: self.black_gc,
            x: TITLE_X,
            y: TITLE_Y,
            string: name,
        }
    }

    /// Number of managed windows.
    pub fn window_count(&self) -> (n: usize)
        ensures
            n == self@.windows.len(),
    {
        self.windows.len()
    }

    /// The drag in progress, if there is one.
    pub fn drag_session(&self) -> (session: Option<DragSession>)
        ensures
            session == self@.drag,
    {
        self.drag_window.session()
    }

    /// Whether the titlebar of `window` waits to be drawn again.
    pub fn is_pending(&self, window: Window) -> (pending: bool)
        ensures
            pending == self@.pending.contains(window),
    {
        self.pending_exposure.contains(&window)
    }

    /// Number of sequence numbers whose events are to be ignored.
    pub fn ignored_count(&self) -> (n: usize)
        ensures
            n == self@.ignoring.len(),
    {
        self.sequences_to_ignore.len()
    }
}

impl X11Connection for RedWm {
    fn handle_event(&mut self, event: Event) -> (requests: Vec<Request>) {
        let mut should_ignore = false;
        if let Some(seqno) = event.sequence {
            should_ignore = self.sequences_to_ignore.should_ignore(seqno);
        }
        if should_ignore {
            return Vec::new();
        }
        match event.kind {
            EventKind::UnmapNotify(unmap) => self.handle_unmap_notify(unmap),
            EventKind::ConfigureRequest(request) => self.handle_configure_request(request),
            EventKind::MapRequest(request) => self.handle_map_request(request),
            EventKind::Expose(expose) => {
                self.handle_expose(expose);
                Vec::new()
            },
            EventKind::EnterNotify(enter) => self.handle_enter(enter),
            EventKind::ButtonPress(press) => {
                self.handle_button_press(press);
                Vec::new()
            },
            EventKind::ButtonRelease(release) => self.handle_button_release(release),
            EventKind::MotionNotify(motion) => self.handle_motion_notify(motion),
            EventKind::ClientMessage => Vec::new(),
            EventKind::Other => Vec::new(),
        }
    }

    fn scan(entries: &Vec<ScanEntry>) -> (adoptions: Vec<(Window, Geometry)>) {
        let mut adoptions: Vec<(Window, Geometry)> = Vec::new();
        let mut i: usize = 0;
        while i < entries.len()
            invariant
                i <= entries@.len(),
                adoptions@ == scanned(entries@.take(i as int)),
            decreases entries@.len() - i,
        {
            let entry = entries[i];
            proof {
                assert(entries@.take(i + 1).drop_last() =~= entries@.take(i as int));
                assert(entries@.take(i + 1).last() == entry);
            }
            match (entry.attributes, entry.geometry) {
                (Some(attributes), Some(geometry)) => {
                    if !attributes.override_redirect && attributes.map_state
                        == MapState::Viewable {
                        adoptions.push((entry.window, geometry));
                    }
                },
                _ => {},
            }
            i += 1;
        }
        proof {
            assert(entries@.take(entries@.len() as int) =~= entries@);
        }
        adoptions
    }

    fn get_screen(&self) -> (screen: &Screen) {
        &self.screen
    }

    fn refresh(&mut self) -> (records: Vec<RedWindow>) {
        let mut records: Vec<RedWindow> = Vec::new();
        let ghost order = vstd::std_specs::hash::spec_hash_keys_iter(
            &self.pending_exposure,
        ).remaining().unref();
        for id in it: self.pending_exposure.iter()
            invariant
                order == it.seq().unref(),
                records@ == redraws(self.windows@, order.take(it.index())),
        {
            proof {
                let now = order.take(it.index() + 1);
                assert(now.drop_last() =~= order.take(it.index()));
                assert(now.last() == *id);
            }
            match self.windows.lookup(*id) {
                Some(record) => {
                    records.push(*record);
                },
                None => {},
            }
        }
        proof {
            assert(order.take(order.len() as int) =~= order);
            assert(order.no_duplicates());
            assert(order.to_set() == self.pending_exposure@);
        }
        self.pending_exposure.clear();
        records
    }

    fn manage_window(
        &mut self,
        win: Window,
        geom: &Geometry,
        frame_win: Window,
        reparent_sequence: u64,
    ) {
        self.windows.adopt(win, frame_win, geom);
        self.sequences_to_ignore.mark_ignorable((reparent_sequence % 0x1_0000) as u16);
    }
}

impl ManageWindows for RedWm {
    fn find_window_by_id(&self, win: Window) -> (state: Option<&RedWindow>) {
        self.windows.lookup(win)
    }

    fn find_window_by_id_mut(&mut self, win: Window) -> (state: Option<&mut RedWindow>) {
        self.windows.lookup_mut(win)
    }

    fn redraw_titlebar(&self, state: &RedWindow) -> (requests: Vec<Request>) {
        let close_x = state.close_x_position();
        let mut requests: Vec<Request> = Vec::new();
        requests.push(
            Request::PolyLine {
                coordinate_mode: CoordMode::Origin,
                drawable: state.frame_window,
                gc: self.black_gc,
                from: Point { x: to_coordinate(close_x), y: to_coordinate(TITLEBAR_HEIGHT) },
                to: Point { x: to_coordinate(state.width), y: 0 },
            },
        );
        requests.push(
            Request::GetProperty {
                delete: false,
                window: state.window,
                property: ATOM_WM_NAME,
                property_type: ATOM_STRING,
                long_offset: 0,
                long_length: u32::MAX,
            },
        );
        proof {
            assert(requests@ =~= titlebar_requests(*state, self@.black_gc));
        }
        requests
    }
}

impl HandleEvent for RedWm {
    fn handle_unmap_notify(&mut self, event: UnmapNotifyEvent) -> (requests: Vec<Request>) {
        let mut requests: Vec<Request> = Vec::new();
        match self.windows.release(event.window) {
            Some(state) => {
                requests.push(Request::ChangeSaveSet { mode: SetMode::Delete, window: state.window });
                requests.push(
                    Request::ReparentWindow {
                        window: state.window,
                        parent: self.screen.root,
                        x: state.x,
                        y: state.y,
                    },
                );
                requests.push(Request::DestroyWindow { window: state.frame_window });
                proof {
                    assert(requests@ =~= release_requests(self.screen.root, state));
                }
            },
            None => {},
        }
        requests
    }

    fn handle_map_request(&self, event: MapRequestEvent) -> (requests: Vec<Request>) {
        let mut requests: Vec<Request> = Vec::new();
        if self.windows.lookup(event.window).is_none() {
            requests.push(Request::GetGeometry { drawable: event.window });
        }
        requests
    }

    fn handle_configure_request(&self, event: ConfigureRequestEvent) -> (requests: Vec<Request>) {
        let accepted = accept_configure_request(&event);
        let values = ConfigureValues {
            x: accepted.x,
            y: accepted.y,
            width: accepted.width,
            height: accepted.height,
            border_width: accepted.border_width,
            sibling: None,
            stack_mode: None,
        };
        let mut requests: Vec<Request> = Vec::new();
        requests.push(Request::ConfigureWindow { window: event.window, values });
        requests
    }

    fn handle_expose(&mut self, event: ExposeEvent) {
        self.pending_exposure.insert(event.window);
    }

    fn handle_enter(&self, event: EnterNotifyEvent) -> (requests: Vec<Request>) {
        let mut requests: Vec<Request> = Vec::new();
        if let Some(state) = self.windows.lookup(event.event) {
            requests.push(
                Request::SetInputFocus {
                    revert_to: InputFocus::Parent,
                    focus: state.window,
                    time: CURRENT_TIME,
                },
            );
            requests.push(
                Request::ConfigureWindow {
                    window: state.frame_window,
                    values: ConfigureValues {
                        x: None,
                        y: None,
                        width: None,
                        height: None,
                        border_width: None,
                        sibling: None,
                        stack_mode: Some(STACK_MODE_ABOVE),
                    },
                },
            );
            proof {
                assert(requests@ =~= focus_requests(*state));
            }
        }
        requests
    }

    fn handle_button_press(&mut self, event: ButtonPressEvent) {
        if !DragController::is_qualified(event.detail, event.state) {
            return ;
        }
        if let Some(state) = self.windows.lookup(event.event) {
            let frame = state.frame_window;
            let offset = (-(event.event_x as i32), -(event.event_y as i32));
            self.drag_window.begin(frame, offset);
        }
    }

    fn handle_button_release(&mut self, event: ButtonReleaseEvent) -> (requests: Vec<Request>) {
        if event.detail == DRAG_BUTTON {
            self.drag_window.end();
        }
        let mut requests: Vec<Request> = Vec::new();
        if let Some(state) = self.windows.lookup(event.event) {
            if event.event_x as i32 >= state.close_x_position() as i32 {
                requests.push(
                    Request::SendClientMessage {
                        propagate: false,
                        destination: state.window,
                        event_mask: EVENT_MASK_NO_EVENT,
                        window: state.window,
                        message_type: self.wm_protocols,
                        data: [self.wm_delete_window, 0, 0, 0, 0],
                    },
                );
                proof {
                    assert(requests@ =~= seq![
                        close_request(*state, self.wm_protocols, self.wm_delete_window),
                    ]);
                }
            }
        }
        requests
    }

    fn handle_motion_notify(&mut self, event: MotionNotifyEvent) -> (requests: Vec<Request>) {
        let mut requests: Vec<Request> = Vec::new();
        if let Some(target) = self.drag_window.update(event.root_x, event.root_y) {
            self.windows.move_frame(target.frame, to_position(target.x), to_position(target.y));
            requests.push(
                Request::ConfigureWindow {
                    window: target.frame,
                    values: ConfigureValues {
                        x: Some(target.x),
                        y: Some(target.y),
                        width: None,
                        height: None,
                        border_width: None,
                        sibling: None,
                        stack_mode: None,
                    },
                },
            );
            proof {
                assert(requests@ =~= seq![move_request(target.frame, target.x as int, target.y as int)]);
            }
        }
        requests
    }
}

} // verus!
