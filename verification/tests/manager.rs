use redwm::request::{
    ATOM_STRING, ATOM_WM_NAME, COPY_DEPTH_FROM_PARENT, COPY_FROM_PARENT, CURRENT_TIME,
    EVENT_MASK_NO_EVENT, FRAME_BORDER_WIDTH, FRAME_EVENT_MASK, STACK_MODE_ABOVE,
};
use redwm::{
    ButtonPressEvent, ConfigureRequestEvent, ConfigureValues, CoordMode, DragSession,
    EnterNotifyEvent, Event, EventKind, ExposeEvent, Flow, Geometry, HandleEvent, InputFocus,
    ManageWindows, MapRequestEvent, MapState, MotionNotifyEvent, Point, RedWindow, RedWm, Request,
    ScanEntry, Screen, SetMode, UnmapNotifyEvent, WindowAttributes, WindowClass, X11Connection,
    TITLEBAR_HEIGHT,
};
use x11rb::protocol::xproto;

const ROOT: u32 = 1;
const GC: u32 = 900;
const WM_PROTOCOLS: u32 = 300;
const WM_DELETE_WINDOW: u32 = 301;

fn manager() -> RedWm {
    RedWm::new(Screen { root: ROOT, white_pixel: 0xffffff, black_pixel: 0 }, 0, GC, WM_PROTOCOLS, WM_DELETE_WINDOW)
}

fn geometry(x: i16, y: i16, width: u16, height: u16) -> Geometry {
    Geometry { x, y, width, height }
}

fn event(sequence: u16, kind: EventKind) -> Event {
    Event { sequence: Some(sequence), kind }
}

fn unmap(window: u32) -> EventKind {
    EventKind::UnmapNotify(UnmapNotifyEvent { window })
}

fn button(detail: u8, state: u16, window: u32, x: i16, y: i16) -> ButtonPressEvent {
    ButtonPressEvent { detail, state, event: window, event_x: x, event_y: y }
}

fn no_change() -> ConfigureValues {
    ConfigureValues { x: None, y: None, width: None, height: None, border_width: None, sibling: None, stack_mode: None }
}

fn close_message(client: u32) -> Request {
    Request::SendClientMessage {
        propagate: false,
        destination: client,
        event_mask: EVENT_MASK_NO_EVENT,
        window: client,
        message_type: WM_PROTOCOLS,
        data: [WM_DELETE_WINDOW, 0, 0, 0, 0],
    }
}

#[test]
fn new_manager_is_empty() {
    let wm = manager();
    assert_eq!(wm.window_count(), 0);
    assert_eq!(wm.ignored_count(), 0);
    assert_eq!(wm.drag_session(), None);
    assert!(!wm.is_pending(7));
    assert_eq!(wm.screen_num(), 0);
    assert_eq!(*wm.get_screen(), Screen { root: ROOT, white_pixel: 0xffffff, black_pixel: 0 });
}

#[test]
fn constants_are_those_of_the_protocol() {
    let mask = xproto::EventMask::EXPOSURE
        | xproto::EventMask::SUBSTRUCTURE_NOTIFY
        | xproto::EventMask::BUTTON_PRESS
        | xproto::EventMask::BUTTON_RELEASE
        | xproto::EventMask::POINTER_MOTION
        | xproto::EventMask::ENTER_WINDOW;
    assert_eq!(FRAME_EVENT_MASK, u32::from(mask));
    assert_eq!(EVENT_MASK_NO_EVENT, u32::from(xproto::EventMask::NO_EVENT));
    assert_eq!(ATOM_STRING, u32::from(xproto::AtomEnum::STRING));
    assert_eq!(ATOM_WM_NAME, u32::from(xproto::AtomEnum::WM_NAME));
    assert_eq!(STACK_MODE_ABOVE, u32::from(xproto::StackMode::ABOVE));
    assert_eq!(CURRENT_TIME, x11rb::CURRENT_TIME);
    assert_eq!(COPY_DEPTH_FROM_PARENT, x11rb::COPY_DEPTH_FROM_PARENT);
    assert_eq!(COPY_FROM_PARENT, x11rb::COPY_FROM_PARENT);
    assert_eq!(redwm::event::CONFIG_WINDOW_X, u16::from(xproto::ConfigWindow::X));
    assert_eq!(redwm::event::CONFIG_WINDOW_Y, u16::from(xproto::ConfigWindow::Y));
    assert_eq!(redwm::event::CONFIG_WINDOW_WIDTH, u16::from(xproto::ConfigWindow::WIDTH));
    assert_eq!(redwm::event::CONFIG_WINDOW_HEIGHT, u16::from(xproto::ConfigWindow::HEIGHT));
    assert_eq!(
        redwm::event::CONFIG_WINDOW_BORDER_WIDTH,
        u16::from(xproto::ConfigWindow::BORDER_WIDTH)
    );
    assert_eq!(redwm::event::CONFIG_WINDOW_SIBLING, u16::from(xproto::ConfigWindow::SIBLING));
    assert_eq!(
        redwm::event::CONFIG_WINDOW_STACK_MODE,
        u16::from(xproto::ConfigWindow::STACK_MODE)
    );
}

#[test]
fn scan_adopts_the_one_eligible_window_of_three() {
    let viewable = WindowAttributes { override_redirect: false, map_state: MapState::Viewable };
    let entries = vec![
        ScanEntry {
            window: 10,
            attributes: Some(WindowAttributes { override_redirect: true, map_state: MapState::Viewable }),
            geometry: Some(geometry(0, 0, 10, 10)),
        },
        ScanEntry { window: 11, attributes: Some(viewable), geometry: Some(geometry(5, 6, 70, 80)) },
        ScanEntry {
            window: 12,
            attributes: Some(WindowAttributes { override_redirect: false, map_state: MapState::Unmapped }),
            geometry: Some(geometry(0, 0, 10, 10)),
        },
    ];
    let adoptions = RedWm::scan(&entries);
    assert_eq!(adoptions, vec![(11, geometry(5, 6, 70, 80))]);

    let mut wm = manager();
    let mut frame = 500;
    for (win, geom) in adoptions {
        assert!(wm.can_manage(win, frame));
        wm.manage_window(win, &geom, frame, 1);
        frame += 1;
    }
    assert_eq!(wm.window_count(), 1);
    assert_eq!(
        wm.find_window_by_id(11).copied(),
        Some(RedWindow { window: 11, frame_window: 500, x: 5, y: 6, width: 70, height: 80 })
    );
}

#[test]
fn scan_skips_windows_whose_questions_failed() {
    let viewable = WindowAttributes { override_redirect: false, map_state: MapState::Viewable };
    let entries = vec![
        ScanEntry { window: 10, attributes: None, geometry: Some(geometry(0, 0, 10, 10)) },
        ScanEntry { window: 11, attributes: Some(viewable), geometry: None },
        ScanEntry { window: 12, attributes: None, geometry: None },
        ScanEntry { window: 13, attributes: Some(viewable), geometry: Some(geometry(1, 1, 2, 2)) },
        ScanEntry { window: 14, attributes: Some(viewable), geometry: Some(geometry(3, 3, 4, 4)) },
    ];
    assert_eq!(
        RedWm::scan(&entries),
        vec![(13, geometry(1, 1, 2, 2)), (14, geometry(3, 3, 4, 4))]
    );
    assert_eq!(RedWm::scan(&Vec::new()), Vec::new());
}

#[test]
fn scan_leaves_unviewable_windows_alone() {
    let entries = vec![ScanEntry {
        window: 10,
        attributes: Some(WindowAttributes { override_redirect: false, map_state: MapState::Unviewable }),
        geometry: Some(geometry(0, 0, 10, 10)),
    }];
    assert_eq!(RedWm::scan(&entries), Vec::new());
}

#[test]
fn map_request_for_an_unmanaged_window_asks_for_its_geometry() {
    let mut wm = manager();
    let requests = wm.handle_event(event(5, EventKind::MapRequest(MapRequestEvent { window: 7 })));
    assert_eq!(requests, vec![Request::GetGeometry { drawable: 7 }]);
    assert_eq!(wm.window_count(), 0);
}

#[test]
fn map_request_for_a_managed_window_does_nothing() {
    let mut wm = manager();
    wm.manage_window(7, &geometry(0, 0, 10, 10), 100, 1);
    assert_eq!(
        wm.handle_event(event(5, EventKind::MapRequest(MapRequestEvent { window: 7 }))),
        Vec::new()
    );
    assert_eq!(
        wm.handle_event(event(6, EventKind::MapRequest(MapRequestEvent { window: 100 }))),
        Vec::new()
    );
    assert_eq!(wm.window_count(), 1);
}

#[test]
fn adoption_requests_wrap_the_client_in_its_frame() {
    let wm = manager();
    let requests = wm.adoption_requests(7, &geometry(10, 20, 300, 200), 100);
    assert_eq!(
        requests,
        vec![
            Request::CreateWindow {
                depth: 0,
                wid: 100,
                parent: ROOT,
                x: 10,
                y: 20,
                width: 300,
                height: 200 + TITLEBAR_HEIGHT,
                border_width: FRAME_BORDER_WIDTH,
                class: WindowClass::InputOutput,
                visual: 0,
                event_mask: FRAME_EVENT_MASK,
                background_pixel: 0xffffff,
            },
            Request::GrabServer,
            Request::ChangeSaveSet { mode: SetMode::Insert, window: 7 },
            Request::ReparentWindow { window: 7, parent: 100, x: 0, y: TITLEBAR_HEIGHT as i16 },
            Request::MapWindow { window: 7 },
            Request::MapWindow { window: 100 },
            Request::UngrabServer,
        ]
    );
    assert_eq!(FRAME_BORDER_WIDTH, 1);
}

#[test]
fn map_then_unmap_adds_and_removes_the_record() {
    let mut wm = manager();
    let geom = geometry(10, 20, 300, 200);
    assert_eq!(
        wm.handle_event(event(5, EventKind::MapRequest(MapRequestEvent { window: 7 }))),
        vec![Request::GetGeometry { drawable: 7 }]
    );
    assert!(wm.can_manage(7, 100));
    let requests = wm.adoption_requests(7, &geom, 100);
    match &requests[0] {
        Request::CreateWindow { x, y, width, height, wid, .. } => {
            assert_eq!((*wid, *x, *y, *width, *height), (100, 10, 20, 300, 200 + TITLEBAR_HEIGHT));
        }
        other => panic!("{:?}", other),
    }
    wm.manage_window(7, &geom, 100, 9);
    assert_eq!(wm.window_count(), 1);
    assert_eq!(
        wm.find_window_by_id(7).copied(),
        Some(RedWindow { window: 7, frame_window: 100, x: 10, y: 20, width: 300, height: 200 })
    );
    assert_eq!(wm.ignored_count(), 1);

    let requests = wm.handle_event(event(10, unmap(7)));
    assert_eq!(
        requests,
        vec![
            Request::ChangeSaveSet { mode: SetMode::Delete, window: 7 },
            Request::ReparentWindow { window: 7, parent: ROOT, x: 10, y: 20 },
            Request::DestroyWindow { window: 100 },
        ]
    );
    assert_eq!(wm.window_count(), 0);
    assert_eq!(wm.find_window_by_id(7), None);
    assert_eq!(wm.find_window_by_id(100), None);
}

#[test]
fn events_of_the_reparent_are_ignored_once() {
    let mut wm = manager();
    wm.manage_window(7, &geometry(10, 20, 300, 200), 100, 9);
    assert_eq!(wm.handle_event(event(9, unmap(7))), Vec::new());
    assert_eq!(wm.window_count(), 1);
    assert_eq!(wm.ignored_count(), 0);
    assert_eq!(wm.handle_event(event(9, unmap(7))).len(), 3);
    assert_eq!(wm.window_count(), 0);
}

#[test]
fn reparent_sequence_is_cut_to_sixteen_bits() {
    let mut wm = manager();
    wm.manage_window(7, &geometry(0, 0, 10, 10), 100, 0x1_0000 * 3 + 5);
    assert_eq!(wm.handle_event(event(5, unmap(7))), Vec::new());
    assert_eq!(wm.window_count(), 1);
}

#[test]
fn event_without_a_sequence_number_is_never_ignored() {
    let mut wm = manager();
    wm.manage_window(7, &geometry(0, 0, 10, 10), 100, 9);
    let requests = wm.handle_event(Event { sequence: None, kind: unmap(7) });
    assert_eq!(requests.len(), 3);
    assert_eq!(wm.ignored_count(), 1);
}

#[test]
fn unhandled_event_still_settles_the_suppressor() {
    let mut wm = manager();
    wm.manage_window(7, &geometry(0, 0, 10, 10), 100, 9);
    assert_eq!(wm.handle_event(event(20, EventKind::Other)), Vec::new());
    assert_eq!(wm.ignored_count(), 0);
}

#[test]
fn unmap_of_a_frame_or_a_stranger_does_nothing() {
    let mut wm = manager();
    wm.manage_window(7, &geometry(0, 0, 10, 10), 100, 1);
    assert_eq!(wm.handle_unmap_notify(UnmapNotifyEvent { window: 100 }), Vec::new());
    assert_eq!(wm.handle_unmap_notify(UnmapNotifyEvent { window: 8 }), Vec::new());
    assert_eq!(wm.window_count(), 1);
}

#[test]
fn configure_request_is_forwarded_without_sibling_and_stack_mode() {
    let mut wm = manager();
    let request = ConfigureRequestEvent {
        window: 7,
        parent: ROOT,
        sibling: 44,
        x: -5,
        y: 6,
        width: 70,
        height: 80,
        border_width: 2,
        stack_mode: 1,
        value_mask: 0x7f,
    };
    assert!(!wm.rejects(&event(3, EventKind::ConfigureRequest(request))));
    assert_eq!(
        wm.handle_event(event(3, EventKind::ConfigureRequest(request))),
        vec![Request::ConfigureWindow {
            window: 7,
            values: ConfigureValues {
                x: Some(-5),
                y: Some(6),
                width: Some(70),
                height: Some(80),
                border_width: Some(2),
                sibling: None,
                stack_mode: None,
            },
        }]
    );
}

#[test]
fn configure_request_forwards_only_what_the_mask_names() {
    let wm = manager();
    let mut request = ConfigureRequestEvent {
        window: 7,
        parent: ROOT,
        sibling: 44,
        x: -5,
        y: 6,
        width: 70,
        height: 80,
        border_width: 2,
        stack_mode: 1,
        value_mask: 0,
    };
    assert_eq!(
        wm.handle_configure_request(request),
        vec![Request::ConfigureWindow { window: 7, values: no_change() }]
    );
    request.value_mask = 0x1 | 0x8;
    assert_eq!(
        wm.handle_configure_request(request),
        vec![Request::ConfigureWindow {
            window: 7,
            values: ConfigureValues { x: Some(-5), height: Some(80), ..no_change() },
        }]
    );
    request.value_mask = 0x2 | 0x4 | 0x10 | 0x20 | 0x40 | 0x8000;
    assert_eq!(
        wm.handle_configure_request(request),
        vec![Request::ConfigureWindow {
            window: 7,
            values: ConfigureValues {
                y: Some(6),
                width: Some(70),
                border_width: Some(2),
                ..no_change()
            },
        }]
    );
}

#[test]
fn configure_request_for_a_managed_window_is_rejected() {
    let mut wm = manager();
    wm.manage_window(7, &geometry(0, 0, 10, 10), 100, 9);
    let request = ConfigureRequestEvent {
        window: 7,
        parent: 100,
        sibling: 0,
        x: 0,
        y: 0,
        width: 20,
        height: 20,
        border_width: 0,
        stack_mode: 0,
        value_mask: 0xc,
    };
    assert!(wm.rejects(&event(10, EventKind::ConfigureRequest(request))));
    assert!(wm.rejects(&Event { sequence: None, kind: EventKind::ConfigureRequest(request) }));
    assert!(!wm.rejects(&event(9, EventKind::ConfigureRequest(request))));
    assert!(!wm.rejects(&event(10, unmap(7))));
    let stranger = ConfigureRequestEvent { window: 8, ..request };
    assert!(!wm.rejects(&event(10, EventKind::ConfigureRequest(stranger))));
}

#[test]
fn expose_waits_for_the_refresh() {
    let mut wm = manager();
    wm.manage_window(7, &geometry(1, 2, 30, 40), 100, 1);
    wm.manage_window(8, &geometry(3, 4, 50, 60), 101, 2);
    for window in [100, 100, 55, 101, 100] {
        let requests = wm.handle_event(event(20, EventKind::Expose(ExposeEvent { window })));
        assert_eq!(requests, Vec::new());
    }
    assert!(wm.is_pending(100));
    assert!(wm.is_pending(55));
    assert!(!wm.is_pending(7));

    let mut records = wm.refresh();
    records.sort_by_key(|record| record.window);
    assert_eq!(
        records,
        vec![
            RedWindow { window: 7, frame_window: 100, x: 1, y: 2, width: 30, height: 40 },
            RedWindow { window: 8, frame_window: 101, x: 3, y: 4, width: 50, height: 60 },
        ]
    );
    assert!(!wm.is_pending(100));
    assert!(!wm.is_pending(55));
    assert_eq!(wm.refresh(), Vec::new());
    assert_eq!(wm.window_count(), 2);
}

#[test]
fn redraw_draws_the_rule_and_asks_for_the_name() {
    let wm = manager();
    let record = RedWindow { window: 7, frame_window: 100, x: 1, y: 2, width: 300, height: 40 };
    assert_eq!(
        wm.redraw_titlebar(&record),
        vec![
            Request::PolyLine {
                coordinate_mode: CoordMode::Origin,
                drawable: 100,
                gc: GC,
                from: Point { x: (300 - TITLEBAR_HEIGHT) as i16, y: TITLEBAR_HEIGHT as i16 },
                to: Point { x: 300, y: 0 },
            },
            Request::GetProperty {
                delete: false,
                window: 7,
                property: 39,
                property_type: 31,
                long_offset: 0,
                long_length: u32::MAX,
            },
        ]
    );
}

#[test]
fn redraw_of_a_very_wide_window_wraps_its_coordinates() {
    let wm = manager();
    let record = RedWindow { window: 7, frame_window: 100, x: 0, y: 0, width: 40000, height: 40 };
    match &wm.redraw_titlebar(&record)[0] {
        Request::PolyLine { to, .. } => assert_eq!(*to, Point { x: 40000u16 as i16, y: 0 }),
        other => panic!("{:?}", other),
    }
}

#[test]
fn title_text_paints_the_name_into_the_frame() {
    let wm = manager();
    let record = RedWindow { window: 7, frame_window: 100, x: 1, y: 2, width: 300, height: 40 };
    assert_eq!(
        wm.title_text(&record, b"xterm".to_vec()),
        Request::ImageText8 { drawable: 100, gc: GC, x: 1, y: 10, string: b"xterm".to_vec() }
    );
}

#[test]
fn enter_focuses_the_client_and_raises_the_frame() {
    let mut wm = manager();
    wm.manage_window(7, &geometry(1, 2, 30, 40), 100, 1);
    let expected = vec![
        Request::SetInputFocus { revert_to: InputFocus::Parent, focus: 7, time: 0 },
        Request::ConfigureWindow {
            window: 100,
            values: ConfigureValues { stack_mode: Some(0), ..no_change() },
        },
    ];
    assert_eq!(wm.handle_enter(EnterNotifyEvent { event: 100 }), expected);
    assert_eq!(wm.handle_enter(EnterNotifyEvent { event: 7 }), expected);
    assert_eq!(wm.handle_enter(EnterNotifyEvent { event: 8 }), Vec::new());
}

#[test]
fn drag_follows_the_pointer_until_release() {
    let mut wm = manager();
    wm.manage_window(7, &geometry(1, 2, 300, 40), 100, 1);
    let press = EventKind::ButtonPress(button(1, 0, 7, 12, 5));
    assert_eq!(wm.handle_event(event(20, press)), Vec::new());
    assert_eq!(wm.drag_session(), Some(DragSession { frame: 100, offset_x: -12, offset_y: -5 }));

    let motion = EventKind::MotionNotify(MotionNotifyEvent { root_x: 200, root_y: 90 });
    assert_eq!(
        wm.handle_event(event(21, motion)),
        vec![Request::ConfigureWindow {
            window: 100,
            values: ConfigureValues { x: Some(188), y: Some(85), ..no_change() },
        }]
    );

    let release = EventKind::ButtonRelease(button(1, 0x100, 7, 12, 5));
    assert_eq!(wm.handle_event(event(22, release)), Vec::new());
    assert_eq!(wm.drag_session(), None);
    assert_eq!(wm.handle_event(event(23, motion)), Vec::new());
}

#[test]
fn press_with_modifier_or_other_button_starts_no_drag() {
    let mut wm = manager();
    wm.manage_window(7, &geometry(1, 2, 300, 40), 100, 1);
    wm.handle_button_press(button(1, 4, 7, 12, 5));
    assert_eq!(wm.drag_session(), None);
    wm.handle_button_press(button(3, 0, 7, 12, 5));
    assert_eq!(wm.drag_session(), None);
    wm.handle_button_press(button(1, 0, 8, 12, 5));
    assert_eq!(wm.drag_session(), None);
}

#[test]
fn press_at_the_least_coordinate_negates_without_wrapping() {
    let mut wm = manager();
    wm.manage_window(7, &geometry(1, 2, 300, 40), 100, 1);
    wm.handle_button_press(button(1, 0, 100, i16::MIN, i16::MAX));
    assert_eq!(
        wm.drag_session(),
        Some(DragSession { frame: 100, offset_x: 32768, offset_y: -32767 })
    );
}

#[test]
fn release_of_another_button_keeps_the_drag() {
    let mut wm = manager();
    wm.manage_window(7, &geometry(1, 2, 300, 40), 100, 1);
    wm.handle_button_press(button(1, 0, 7, 12, 5));
    assert_eq!(wm.handle_button_release(button(3, 0, 7, 12, 5)), Vec::new());
    assert!(wm.drag_session().is_some());
}

#[test]
fn release_in_the_close_region_sends_one_close_message() {
    let mut wm = manager();
    wm.manage_window(7, &geometry(1, 2, 300, 40), 100, 1);
    let threshold = (300 - TITLEBAR_HEIGHT) as i16;
    for x in [threshold, threshold + 1, i16::MAX] {
        assert_eq!(wm.handle_button_release(button(1, 0, 100, x, 3)), vec![close_message(7)]);
    }
    assert_eq!(wm.handle_button_release(button(3, 0, 7, threshold, 3)), vec![close_message(7)]);
}

#[test]
fn release_before_the_close_region_sends_nothing() {
    let mut wm = manager();
    wm.manage_window(7, &geometry(1, 2, 300, 40), 100, 1);
    let threshold = (300 - TITLEBAR_HEIGHT) as i16;
    for x in [threshold - 1, 0, -1, i16::MIN] {
        assert_eq!(wm.handle_button_release(button(1, 0, 100, x, 3)), Vec::new());
    }
    assert_eq!(wm.handle_button_release(button(1, 0, 8, threshold, 3)), Vec::new());
}

#[test]
fn close_region_of_a_very_wide_window_is_out_of_the_pointer_reach() {
    let mut wm = manager();
    wm.manage_window(7, &geometry(1, 2, 40000, 40), 100, 1);
    assert_eq!(wm.handle_button_release(button(1, 0, 100, i16::MAX, 3)), Vec::new());
}

#[test]
fn motion_without_a_drag_sends_nothing() {
    let mut wm = manager();
    wm.manage_window(7, &geometry(1, 2, 300, 40), 100, 1);
    assert_eq!(
        wm.handle_motion_notify(MotionNotifyEvent { root_x: 1, root_y: 2 }),
        Vec::new()
    );
    assert_eq!(wm.find_window_by_id(7).map(|r| (r.x, r.y)), Some((1, 2)));
}

#[test]
fn client_message_ends_the_loop() {
    let mut wm = manager();
    wm.manage_window(7, &geometry(1, 2, 300, 40), 100, 9);
    assert_eq!(wm.step(event(20, EventKind::ClientMessage)), Flow::Exit);
    assert_eq!(wm.ignored_count(), 1);
    assert_eq!(wm.step(event(20, EventKind::Other)), Flow::Continue(Vec::new()));
    assert_eq!(wm.ignored_count(), 0);
    assert_eq!(wm.handle_event(event(21, EventKind::ClientMessage)), Vec::new());
}

#[test]
fn step_hands_on_what_the_handler_answers() {
    let mut wm = manager();
    assert_eq!(
        wm.step(event(5, EventKind::MapRequest(MapRequestEvent { window: 7 }))),
        Flow::Continue(vec![Request::GetGeometry { drawable: 7 }])
    );
}

#[test]
fn can_manage_tells_what_manage_window_asks_for() {
    let mut wm = manager();
    assert!(wm.can_manage(7, 100));
    assert!(!wm.can_manage(0, 100));
    assert!(!wm.can_manage(7, 0));
    assert!(!wm.can_manage(7, 7));
    wm.manage_window(7, &geometry(1, 2, 300, 40), 100, 9);
    assert!(!wm.can_manage(7, 101));
    assert!(!wm.can_manage(100, 101));
    assert!(!wm.can_manage(8, 100));
    assert!(!wm.can_manage(8, 7));
    assert!(wm.can_manage(8, 101));
}

#[test]
fn find_window_by_id_mut_reaches_the_stored_record() {
    let mut wm = manager();
    wm.manage_window(7, &geometry(1, 2, 300, 40), 100, 9);
    if let Some(record) = wm.find_window_by_id_mut(100) {
        record.x = 77;
    }
    assert_eq!(wm.find_window_by_id(7).map(|r| r.x), Some(77));
    assert!(wm.find_window_by_id_mut(8).is_none());
}

#[test]
fn client_message_ends_the_loop_even_with_a_suppressed_sequence() {
    let mut wm = manager();
    wm.manage_window(7, &geometry(1, 2, 300, 40), 100, 9);
    assert_eq!(wm.step(event(9, EventKind::ClientMessage)), Flow::Exit);
    assert_eq!(wm.step(Event { sequence: None, kind: EventKind::ClientMessage }), Flow::Exit);
    assert_eq!(wm.ignored_count(), 1);
    assert_eq!(wm.window_count(), 1);
}

#[test]
fn both_identifiers_of_each_record_find_it() {
    let mut wm = manager();
    wm.manage_window(7, &geometry(1, 2, 300, 40), 100, 1);
    wm.manage_window(8, &geometry(3, 4, 500, 60), 101, 2);
    wm.manage_window(9, &geometry(5, 6, 700, 80), 102, 3);
    wm.handle_unmap_notify(UnmapNotifyEvent { window: 8 });
    for (client, frame) in [(7, 100), (9, 102)] {
        let by_client = wm.find_window_by_id(client).copied();
        let by_frame = wm.find_window_by_id(frame).copied();
        assert_eq!(by_client, by_frame);
        assert_eq!(by_client.map(|r| (r.window, r.frame_window)), Some((client, frame)));
    }
    assert_eq!(wm.find_window_by_id(8), None);
    assert_eq!(wm.find_window_by_id(101), None);
}

#[test]
fn drag_moves_the_record_and_unmap_returns_the_client_there() {
    let mut wm = manager();
    wm.manage_window(7, &geometry(10, 20, 300, 40), 100, 1);
    wm.manage_window(8, &geometry(30, 40, 500, 60), 101, 2);
    wm.handle_button_press(button(1, 0, 100, 12, 5));
    let requests = wm.handle_motion_notify(MotionNotifyEvent { root_x: 200, root_y: 90 });
    assert_eq!(
        requests,
        vec![Request::ConfigureWindow {
            window: 100,
            values: ConfigureValues { x: Some(188), y: Some(85), ..no_change() },
        }]
    );
    assert_eq!(
        wm.find_window_by_id(7).copied(),
        Some(RedWindow { window: 7, frame_window: 100, x: 188, y: 85, width: 300, height: 40 })
    );
    assert_eq!(
        wm.find_window_by_id(8).copied(),
        Some(RedWindow { window: 8, frame_window: 101, x: 30, y: 40, width: 500, height: 60 })
    );
    wm.handle_motion_notify(MotionNotifyEvent { root_x: -3, root_y: 4 });
    assert_eq!(wm.find_window_by_id(100).map(|r| (r.x, r.y)), Some((-15, -1)));
    wm.handle_button_release(button(1, 0x100, 100, 12, 5));

    assert_eq!(
        wm.handle_event(event(30, unmap(7))),
        vec![
            Request::ChangeSaveSet { mode: SetMode::Delete, window: 7 },
            Request::ReparentWindow { window: 7, parent: ROOT, x: -15, y: -1 },
            Request::DestroyWindow { window: 100 },
        ]
    );
    assert_eq!(wm.window_count(), 1);
}

#[test]
fn position_beyond_sixteen_bits_is_stored_as_the_server_reads_it() {
    let mut wm = manager();
    wm.manage_window(7, &geometry(10, 20, 300, 40), 100, 1);
    wm.handle_button_press(button(1, 0, 100, i16::MIN, i16::MAX));
    let requests = wm.handle_motion_notify(MotionNotifyEvent { root_x: i16::MAX, root_y: i16::MIN });
    assert_eq!(
        requests,
        vec![Request::ConfigureWindow {
            window: 100,
            values: ConfigureValues { x: Some(65535), y: Some(-65535), ..no_change() },
        }]
    );
    assert_eq!(wm.find_window_by_id(7).map(|r| (r.x, r.y)), Some((65535i32 as i16, -65535i32 as i16)));
    assert_eq!(wm.find_window_by_id(7).map(|r| (r.x, r.y)), Some((-1, 1)));
    wm.handle_motion_notify(MotionNotifyEvent { root_x: -1, root_y: 0 });
    assert_eq!(wm.find_window_by_id(7).map(|r| (r.x, r.y)), Some((i16::MAX, -i16::MAX)));
}

#[test]
fn motion_after_the_dragged_window_left_moves_nothing() {
    let mut wm = manager();
    wm.manage_window(7, &geometry(10, 20, 300, 40), 100, 1);
    wm.manage_window(8, &geometry(30, 40, 500, 60), 101, 2);
    wm.handle_button_press(button(1, 0, 7, 12, 5));
    wm.handle_unmap_notify(UnmapNotifyEvent { window: 7 });
    let requests = wm.handle_motion_notify(MotionNotifyEvent { root_x: 200, root_y: 90 });
    assert_eq!(requests.len(), 1);
    assert_eq!(wm.window_count(), 1);
    assert_eq!(wm.find_window_by_id(8).map(|r| (r.x, r.y)), Some((30, 40)));
}
