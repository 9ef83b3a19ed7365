use winit_wayland::channel::{Update, UpdateQueue};
use winit_wayland::cursor::{CursorAction, CursorIcon, PointerLock};
use winit_wayland::event::{Event, LogicalSize, StartCause, WindowEvent};
use winit_wayland::event_loop::{start_cause, wait_timeout, ControlFlow, Dispatcher, Timeout};
use winit_wayland::window::{
    DecorationMode, FrameEvent, FrameOp, Fullscreen, WindowAttributes, WindowError, WindowHandle, WindowRequest,
    WindowStore,
};

fn attrs(size: Option<LogicalSize>) -> WindowAttributes {
    WindowAttributes {
        inner_size: size,
        min_inner_size: None,
        max_inner_size: None,
        resizable: true,
        fullscreen: None,
        title: String::from("main"),
        maximized: false,
        decorations: true,
        app_id: None,
    }
}

fn resized(events: &[Event], id: u64) -> Vec<(u64, u64)> {
    events
        .iter()
        .filter_map(|e| match e {
            Event::WindowEvent { window_id, event: WindowEvent::Resized { width, height } } if *window_id == id => {
                Some((*width, *height))
            }
            _ => None,
        })
        .collect()
}

#[test]
fn create_configure_and_repeat_configure() {
    let mut store = WindowStore::new();
    let (id, _) = store.create(attrs(Some(LogicalSize { width: 800, height: 600 }))).unwrap();
    assert_eq!(store.inner_size(id), Some((800, 600)));
    let mut out = Vec::new();
    let cfg = FrameEvent::Configure { new_size: Some(LogicalSize { width: 1024, height: 768 }), fullscreen: false };
    store.handle_frame_event(id, cfg, &mut out);
    assert!(out.is_empty());
    let (events, _, _) = store.process();
    assert_eq!(resized(&events, id), vec![(1024, 768)]);
    store.handle_frame_event(id, cfg, &mut out);
    let (events, redraws, actions) = store.process();
    assert!(resized(&events, id).is_empty());
    assert!(redraws.is_empty());
    assert!(actions.is_empty());
}

#[test]
fn default_size_when_none_given() {
    let mut store = WindowStore::new();
    let (id, _) = store.create(attrs(None)).unwrap();
    assert_eq!(store.inner_size(id), Some((800, 600)));
}

#[test]
fn requested_size_wins_over_configure() {
    let mut core = Dispatcher::new(true, false);
    let (id, _) = core.create_window(attrs(Some(LogicalSize { width: 800, height: 600 }))).unwrap();
    core.frame_event(id, FrameEvent::Configure { new_size: Some(LogicalSize { width: 1024, height: 768 }), fullscreen: false });
    let handle = WindowHandle { id };
    core.apply_updates(vec![handle.set_inner_size(LogicalSize { width: 640, height: 480 })]);
    let (events, actions) = core.finish_iteration();
    assert_eq!(resized(&events, id), vec![(640, 480)]);
    let ops: Vec<String> = actions.iter().map(|a| format!("{:?}", a.op)).collect();
    assert_eq!(ops, vec![format!("{:?}", FrameOp::Resize(LogicalSize { width: 640, height: 480 })), String::from("Refresh")]);
    assert_eq!(
        events,
        vec![
            Event::WindowEvent { window_id: id, event: WindowEvent::Resized { width: 640, height: 480 } },
            Event::MainEventsCleared,
            Event::WindowEvent { window_id: id, event: WindowEvent::RedrawRequested },
            Event::RedrawEventsCleared,
        ]
    );
}

#[test]
fn resized_reports_physical_size_after_scale_change() {
    let mut core = Dispatcher::new(true, false);
    let (id, _) = core.create_window(attrs(Some(LogicalSize { width: 100, height: 50 }))).unwrap();
    core.scale_changed(id, 3);
    assert_eq!(
        core.pending,
        vec![Event::WindowEvent {
            window_id: id,
            event: WindowEvent::ScaleFactorChanged { scale_factor: 3, width: 300, height: 150 },
        }]
    );
    let (events, _) = core.finish_iteration();
    assert_eq!(resized(&events, id), vec![(300, 150)]);
    assert_eq!(WindowHandle { id }.inner_size(&core.windows), Some((300, 150)));
    assert_eq!(WindowHandle { id }.scale_factor(&core.windows), Some(3));
}

#[test]
fn redraw_request_refreshes_without_resize() {
    let mut store = WindowStore::new();
    let (id, _) = store.create(attrs(None)).unwrap();
    store.apply_update(id, WindowRequest::RequestRedraw);
    let (events, redraws, actions) = store.process();
    assert!(events.is_empty());
    assert_eq!(redraws, vec![Event::WindowEvent { window_id: id, event: WindowEvent::RedrawRequested }]);
    assert_eq!(actions.len(), 1);
    assert!(matches!(actions[0].op, FrameOp::Refresh));
    let (_, redraws, _) = store.process();
    assert!(redraws.is_empty());
}

#[test]
fn destroy_is_reported_once_and_ids_are_not_reused() {
    let mut store = WindowStore::new();
    let (a, _) = store.create(attrs(None)).unwrap();
    store.apply_update(a, WindowRequest::Destroy);
    let (events, _, actions) = store.process();
    assert_eq!(events, vec![Event::WindowEvent { window_id: a, event: WindowEvent::Destroyed }]);
    assert!(matches!(actions[0].op, FrameOp::Destroy));
    assert_eq!(store.inner_size(a), None);
    let (events, _, _) = store.process();
    assert!(events.is_empty());
    let (b, _) = store.create(attrs(None)).unwrap();
    assert_ne!(a, b);
}

#[test]
fn close_is_forwarded() {
    let mut store = WindowStore::new();
    let (id, _) = store.create(attrs(None)).unwrap();
    let mut out = Vec::new();
    store.handle_frame_event(id, FrameEvent::Close, &mut out);
    assert_eq!(out, vec![Event::WindowEvent { window_id: id, event: WindowEvent::CloseRequested }]);
}

#[test]
fn borderless_fullscreen_requests() {
    let h = WindowHandle { id: 0 };
    assert!(matches!(
        h.set_fullscreen(Some(Fullscreen::Borderless(4))),
        Update { window: 0, request: WindowRequest::SetFullscreen(Some(4)) }
    ));
    assert!(matches!(h.set_fullscreen(None), Update { window: 0, request: WindowRequest::SetFullscreen(None) }));
}

#[test]
fn default_window_on_fresh_core() {
    let mut core = Dispatcher::new(false, false);
    let (handle, _) = WindowHandle::new(&mut core, attrs(None)).unwrap();
    assert_eq!(handle.inner_size(&core.windows), Some((800, 600)));
}

#[test]
fn ids_exhausted() {
    let mut store = WindowStore::new();
    store.next_id = u64::MAX;
    assert!(matches!(store.create(attrs(None)), Err(WindowError::IdsExhausted)));
}

#[test]
fn creation_actions() {
    let mut store = WindowStore::new();
    let mut a = attrs(None);
    a.app_id = Some(String::from("org.example"));
    a.maximized = true;
    a.decorations = false;
    let (id, actions) = store.create(a).unwrap();
    let ops: Vec<String> = actions.iter().map(|x| format!("{:?}", x.op)).collect();
    assert!(actions.iter().all(|x| x.window == id));
    assert_eq!(
        ops,
        vec![
            format!("{:?}", FrameOp::SetAppId(String::from("org.example"))),
            format!("{:?}", FrameOp::SetMaximized(true)),
            format!("{:?}", FrameOp::SetResizable(true)),
            format!("{:?}", FrameOp::SetDecorations(DecorationMode::Borderless)),
            format!("{:?}", FrameOp::SetTitle(String::from("main"))),
            format!("{:?}", FrameOp::SetMinSize(None)),
            format!("{:?}", FrameOp::SetMaxSize(None)),
        ]
    );
}

#[test]
fn partial_updates_touch_one_field() {
    let mut store = WindowStore::new();
    let (id, _) = store.create(attrs(None)).unwrap();
    let op = store.apply_update(id, WindowRequest::SetTitle(String::from("renamed")));
    assert!(matches!(op, Some(ref a) if matches!(a.op, FrameOp::SetTitle(ref t) if t == "renamed")));
    store.apply_update(id, WindowRequest::SetResizable(false));
    let w = &store.windows[0];
    assert_eq!(w.title, "renamed");
    assert!(!w.resizable);
    assert_eq!(w.decorations, DecorationMode::FollowServer);
    assert!(store.apply_update(id + 1, WindowRequest::SetResizable(true)).is_none());
}

#[test]
fn position_queries_are_not_supported() {
    let h = WindowHandle { id: 3 };
    assert!(matches!(h.outer_position(), Err(WindowError::NotSupported)));
    assert!(matches!(h.inner_position(), Err(WindowError::NotSupported)));
    assert!(matches!(h.outer_size(), Err(WindowError::NotSupported)));
    assert!(matches!(h.set_cursor_position(1, 2), Err(WindowError::NotSupported)));
}

#[test]
fn grab_then_release_leaves_no_lock() {
    let mut core = Dispatcher::new(true, false);
    let (id, _) = core.create_window(attrs(None)).unwrap();
    let p0 = core.register_pointer().unwrap();
    let p1 = core.register_pointer().unwrap();
    let h = WindowHandle { id };
    let (_, calls) = core.apply_updates(vec![h.set_cursor_grab(true)]);
    assert_eq!(
        calls,
        vec![
            CursorAction::Lock(PointerLock { pointer: p0, window: id }),
            CursorAction::Lock(PointerLock { pointer: p1, window: id }),
        ]
    );
    assert_eq!(core.cursor.active_locks(), 2);
    let (_, calls) = core.apply_updates(vec![h.set_cursor_grab(false)]);
    assert_eq!(
        calls,
        vec![
            CursorAction::Unlock(PointerLock { pointer: p0, window: id }),
            CursorAction::Unlock(PointerLock { pointer: p1, window: id }),
        ]
    );
    assert_eq!(core.cursor.active_locks(), 0);
}

#[test]
fn queue_hands_back_requests_once_closed() {
    let mut q = UpdateQueue::new();
    assert!(q.send(Update { window: 1, request: WindowRequest::RequestRedraw }).is_ok());
    assert!(q.has_pending());
    let left = q.close();
    assert_eq!(left.len(), 1);
    match q.send(Update { window: 2, request: WindowRequest::SetTitle(String::from("late")) }) {
        Err(closed) => {
            assert_eq!(closed.0.window, 2);
            assert!(matches!(closed.0.request, WindowRequest::SetTitle(ref t) if t == "late"));
        }
        Ok(()) => panic!("a closed queue accepted a request"),
    }
}

#[test]
fn queue_drains_in_order() {
    let mut q = UpdateQueue::new();
    q.send(Update { window: 1, request: WindowRequest::SetResizable(true) }).unwrap();
    q.send(Update { window: 2, request: WindowRequest::SetResizable(false) }).unwrap();
    let items = q.drain();
    assert_eq!(items.iter().map(|u| u.window).collect::<Vec<_>>(), vec![1, 2]);
    assert!(!q.has_pending());
}

#[test]
fn wait_until_with_no_activity_resumes_at_deadline() {
    let now = 1_000u64;
    let cf = ControlFlow::WaitUntil(now + 50);
    assert_eq!(wait_timeout(cf, false, now, None), Some(Timeout::Millis(50)));
    assert_eq!(
        start_cause(cf, now, now + 50),
        Some(StartCause::ResumeTimeReached { start: now, requested_resume: now + 50 })
    );
    assert_eq!(
        start_cause(cf, now, now + 20),
        Some(StartCause::WaitCancelled { start: now, requested_resume: Some(now + 50) })
    );
}

#[test]
fn wait_policies() {
    assert_eq!(wait_timeout(ControlFlow::Poll, false, 5, None), Some(Timeout::Millis(0)));
    assert_eq!(wait_timeout(ControlFlow::Wait, false, 5, None), Some(Timeout::Forever));
    assert_eq!(wait_timeout(ControlFlow::Wait, true, 5, None), Some(Timeout::Millis(0)));
    assert_eq!(wait_timeout(ControlFlow::WaitUntil(3), false, 5, None), Some(Timeout::Millis(0)));
    assert_eq!(wait_timeout(ControlFlow::WaitUntil(100), true, 5, None), Some(Timeout::Millis(0)));
    assert_eq!(wait_timeout(ControlFlow::Wait, false, 5, Some(45)), Some(Timeout::Millis(40)));
    assert_eq!(wait_timeout(ControlFlow::WaitUntil(20), false, 5, Some(45)), Some(Timeout::Millis(15)));
    assert_eq!(wait_timeout(ControlFlow::Exit, false, 5, None), None);
    assert_eq!(start_cause(ControlFlow::Poll, 1, 2), Some(StartCause::Poll));
    assert_eq!(start_cause(ControlFlow::Wait, 1, 2), Some(StartCause::WaitCancelled { start: 1, requested_resume: None }));
}

#[test]
fn iteration_order_and_shutdown() {
    let mut core = Dispatcher::new(false, false);
    let (id, _) = core.create_window(attrs(None)).unwrap();
    core.frame_event(id, FrameEvent::Close);
    let first = core.begin_iteration(0, 0);
    assert_eq!(
        first,
        vec![
            Event::NewEvents(StartCause::Init),
            Event::WindowEvent { window_id: id, event: WindowEvent::CloseRequested },
        ]
    );
    core.relative_motion(1, -1);
    core.set_control_flow(ControlFlow::Wait);
    let second = core.begin_iteration(10, 12);
    assert_eq!(
        second,
        vec![
            Event::NewEvents(StartCause::WaitCancelled { start: 10, requested_resume: None }),
            Event::MouseMotion { dx: 1, dy: -1 },
        ]
    );
    let (closing, _) = core.finish_iteration();
    assert_eq!(closing, vec![Event::MainEventsCleared, Event::RedrawEventsCleared]);
    core.set_control_flow(ControlFlow::Exit);
    core.set_control_flow(ControlFlow::Poll);
    assert_eq!(core.control_flow, ControlFlow::Exit);
    assert_eq!(core.next_timeout(20), None);
    assert_eq!(core.shutdown(), vec![Event::LoopDestroyed]);
    assert!(core.shutdown().is_empty());
}

#[test]
fn instant_wakeup_prevents_blocking() {
    let mut core = Dispatcher::new(false, false);
    core.set_control_flow(ControlFlow::Wait);
    core.note_dispatched(3, false);
    assert_eq!(core.next_timeout(0), Some(Timeout::Millis(0)));
    core.note_dispatched(0, false);
    assert_eq!(core.next_timeout(0), Some(Timeout::Forever));
    core.note_dispatched(0, true);
    assert_eq!(core.next_timeout(0), Some(Timeout::Millis(0)));
}

#[test]
fn cursor_requests_reach_the_manager() {
    let mut core = Dispatcher::new(true, false);
    let (id, _) = core.create_window(attrs(None)).unwrap();
    let p = core.register_pointer().unwrap();
    let h = WindowHandle { id };
    let (_, calls) = core.apply_updates(vec![h.set_cursor_icon(CursorIcon::Hand), h.set_cursor_icon(CursorIcon::Hand)]);
    assert_eq!(calls, vec![CursorAction::SetIcon { pointer: p, icon: CursorIcon::Hand }]);
    let (_, calls) = core.apply_updates(vec![h.set_cursor_visible(false)]);
    assert_eq!(calls, vec![CursorAction::Hide { pointer: p }]);
    let calls = core.pointer_event(p, winit_wayland::pointer::PointerEvent::Enter { surface: id, x: 0, y: 0 });
    assert_eq!(calls, vec![CursorAction::Hide { pointer: p }]);
    let (_, calls) = core.apply_updates(vec![h.set_cursor_visible(true)]);
    assert_eq!(calls, vec![CursorAction::SetIcon { pointer: p, icon: CursorIcon::Hand }]);
    let (_, calls) = core.apply_updates(vec![WindowHandle { id: id + 1 }.set_cursor_icon(CursorIcon::Wait)]);
    assert!(calls.is_empty());
}

#[test]
fn entering_a_window_shows_its_cursor() {
    let mut core = Dispatcher::new(true, false);
    let (a, _) = core.create_window(attrs(None)).unwrap();
    let (b, _) = core.create_window(attrs(None)).unwrap();
    let p = core.register_pointer().unwrap();
    core.apply_updates(vec![
        WindowHandle { id: a }.set_cursor_icon(CursorIcon::Hand),
        WindowHandle { id: b }.set_cursor_icon(CursorIcon::Text),
    ]);
    let calls = core.pointer_event(p, winit_wayland::pointer::PointerEvent::Enter { surface: a, x: 0, y: 0 });
    assert_eq!(calls, vec![CursorAction::SetIcon { pointer: p, icon: CursorIcon::Hand }]);
    core.pointer_event(p, winit_wayland::pointer::PointerEvent::Leave { surface: a });
    let calls = core.pointer_event(p, winit_wayland::pointer::PointerEvent::Enter { surface: b, x: 0, y: 0 });
    assert_eq!(calls, vec![CursorAction::SetIcon { pointer: p, icon: CursorIcon::Text }]);
    assert_eq!(core.cursor.current_cursor(), CursorIcon::Text);
    assert!(core.pointer_event(p + 1, winit_wayland::pointer::PointerEvent::Frame).is_empty());
}
