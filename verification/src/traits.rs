//! The manager's capabilities: what it does for its connection, how it
//! finds and draws its windows, and how it handles each kind of event.
//! Every method is stated against the model.

use vstd::prelude::*;

use crate::event::{
    ButtonPressEvent, ButtonReleaseEvent, ConfigureRequestEvent, EnterNotifyEvent, Event,
    ExposeEvent, MapRequestEvent, MotionNotifyEvent, UnmapNotifyEvent,
};
use crate::model::{redraws, scanned, titlebar_requests, ManagerState, ScanEntry, Screen};
use crate::registry::{adoptable, found, position_of};
use crate::request::Request;
use crate::window::{Geometry, RedWindow, Window};

verus! {

/// What a manager does for its connection.
pub trait X11Connection: View<V = ManagerState> {
    /// Handles `event`, unless the suppressor says to ignore it, and
    /// answers with the requests to send.
    ///
    /// A configure request for a managed window that the suppressor
    /// lets through must not be handed in.
    fn handle_event(&mut self, event: Event) -> (requests: Vec<Request>)
        requires
            old(self)@.wf(),
            !old(self)@.rejects(event),
        ensures
            final(self)@ == old(self)@.handle(event).0,
            requests@ == old(self)@.handle(event).1,
            final(self)@.wf(),
    ;

    /// Picks, among the windows that were there before the manager,
    /// those to adopt: each is then to be handed to `manage_window`.
    fn scan(entries: &Vec<ScanEntry>) -> (adoptions: Vec<(Window, Geometry)>)
        ensures
            adoptions@ == scanned(entries@),
    ;

    /// The screen that the manager manages.
    fn get_screen(&self) -> (screen: &Screen)
        ensures
            *screen == self@.screen,
    ;

    /// Takes the pending exposures and answers with the records whose
    /// titlebar is to be redrawn: for each exposed window that is
    /// managed, its record, once; in no order that a caller may count on.
    fn refresh(&mut self) -> (records: Vec<RedWindow>)
        ensures
            final(self)@ == (ManagerState { pending: Set::empty(), ..old(self)@ }),
            exists|order: Seq<Window>|
                order.no_duplicates() && order.to_set() == old(self)@.pending && records@
                    == #[trigger] redraws(old(self)@.windows, order),
    ;

    /// Takes note that `win`, of geometry `geom`, now lives in the
    /// frame `frame_win`, and that the reparent request that put it
    /// there was number `reparent_sequence` on the connection.
    ///
    /// The caller has to know that neither `win` nor `frame_win` names a
    /// managed window yet, and that they are two windows, neither the
    /// null window.
    fn manage_window(
        &mut self,
        win: Window,
        geom: &Geometry,
        frame_win: Window,
        reparent_sequence: u64,
    )
        requires
            old(self)@.wf(),
            adoptable(old(self)@.windows, win, frame_win),
        ensures
            final(self)@ == old(self)@.adopted(win, *geom, frame_win, reparent_sequence),
            final(self)@.wf(),
    ;
}

/// Access to the managed windows.
pub trait ManageWindows: X11Connection {
    /// The record that `win` names, as client or as frame.
    fn find_window_by_id(&self, win: Window) -> (state: Option<&RedWindow>)
        ensures
            state.is_some() == self@.manages(win),
            match state {
                Some(record) => Some(*record) == found(self@.windows, win),
                None => found(self@.windows, win).is_none(),
            },
    ;

    /// The record that `win` names, for the caller to change. What the
    /// caller writes takes the record's place.
    fn find_window_by_id_mut(&mut self, win: Window) -> (state: Option<&mut RedWindow>)
        ensures
            state.is_some() == old(self)@.manages(win),
            match state {
                Some(record) => Some(*record) == found(old(self)@.windows, win) && final(self)@ == (
                ManagerState {
                    windows: old(self)@.windows.update(
                        position_of(old(self)@.windows, win),
                        *final(record),
                    ),
                    ..old(self)@
                }),
                None => final(self)@ == old(self)@,
            },
    ;

    /// The requests that open the redraw of the titlebar of `state`:
    /// the rule, and the question for the client's name.
    fn redraw_titlebar(&self, state: &RedWindow) -> (requests: Vec<Request>)
        ensures
            requests@ == titlebar_requests(*state, self@.black_gc),
    ;
}

/// One handler for each kind of event.
pub trait HandleEvent: ManageWindows {
    fn handle_unmap_notify(&mut self, event: UnmapNotifyEvent) -> (requests: Vec<Request>)
        requires
            old(self)@.wf(),
        ensures
            final(self)@ == old(self)@.on_unmap_notify(event).0,
            requests@ == old(self)@.on_unmap_notify(event).1,
            final(self)@.wf(),
    ;

    fn handle_map_request(&self, event: MapRequestEvent) -> (requests: Vec<Request>)
        ensures
            requests@ == self@.on_map_request(event).1,
    ;

    /// The window must not be managed: to configure a managed window
    /// is not implemented.
    fn handle_configure_request(&self, event: ConfigureRequestEvent) -> (requests: Vec<Request>)
        requires
            !self@.manages(event.window),
        ensures
            requests@ == self@.on_configure_request(event).1,
    ;

    fn handle_expose(&mut self, event: ExposeEvent)
        requires
            old(self)@.wf(),
        ensures
            final(self)@ == old(self)@.on_expose(event).0,
            final(self)@.wf(),
    ;

    fn handle_enter(&self, event: EnterNotifyEvent) -> (requests: Vec<Request>)
        ensures
            requests@ == self@.on_enter(event).1,
    ;

    fn handle_button_press(&mut self, event: ButtonPressEvent)
        requires
            old(self)@.wf(),
        ensures
            final(self)@ == old(self)@.on_button_press(event).0,
            final(self)@.wf(),
    ;

    fn handle_button_release(&mut self, event: ButtonReleaseEvent) -> (requests: Vec<Request>)
        requires
            old(self)@.wf(),
        ensures
            final(self)@ == old(self)@.on_button_release(event).0,
            requests@ == old(self)@.on_button_release(event).1,
            final(self)@.wf(),
    ;

    /// The dragged frame follows the pointer, and its record takes the
    /// new position.
    fn handle_motion_notify(&mut self, event: MotionNotifyEvent) -> (requests: Vec<Request>)
        requires
            old(self)@.wf(),
        ensures
            final(self)@ == old(self)@.on_motion_notify(event).0,
            requests@ == old(self)@.on_motion_notify(event).1,
            final(self)@.wf(),
    ;
}

} // verus!
