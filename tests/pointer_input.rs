use winit_wayland::event::{
    ElementState, Event, MouseButton, MouseScrollDelta, PhysicalPosition, TouchPhase, WindowEvent,
};
use winit_wayland::event_loop::Dispatcher;
use winit_wayland::pointer::{Axis, Pointer, PointerEvent};
use winit_wayland::window::{WindowAttributes, WindowRequest, WindowStore};

fn attrs() -> WindowAttributes {
    WindowAttributes {
        inner_size: None,
        min_inner_size: None,
        max_inner_size: None,
        resizable: true,
        fullscreen: None,
        title: String::from("test"),
        maximized: false,
        decorations: true,
        app_id: None,
    }
}

fn store_with_window() -> (WindowStore, u64) {
    let mut store = WindowStore::new();
    let (id, _) = store.create(attrs()).unwrap();
    (store, id)
}

fn count(events: &[Event], e: WindowEvent) -> usize {
    events
        .iter()
        .filter(|x| matches!(x, Event::WindowEvent { event, .. } if *event == e))
        .count()
}

#[test]
fn enter_emits_entered_then_moved() {
    let (store, id) = store_with_window();
    let mut p = Pointer::new();
    let mut out = Vec::new();
    let reload = p.handle(PointerEvent::Enter { surface: id, x: 10 * 256, y: 20 * 256 }, &store, &mut out);
    assert!(reload);
    assert_eq!(p.focus, Some(id));
    assert_eq!(
        out,
        vec![
            Event::WindowEvent { window_id: id, event: WindowEvent::CursorEntered },
            Event::WindowEvent {
                window_id: id,
                event: WindowEvent::CursorMoved(PhysicalPosition { x: 2560, y: 5120 }),
            },
        ]
    );
}

#[test]
fn motion_is_scaled_by_the_focused_window() {
    let mut core = Dispatcher::new(true, false);
    let (id, _) = core.create_window(attrs()).unwrap();
    core.scale_changed(id, 2);
    core.pending.clear();
    let h = core.register_pointer().unwrap();
    core.pointer_event(h, PointerEvent::Enter { surface: id, x: 0, y: 0 });
    core.pending.clear();
    core.pointer_event(h, PointerEvent::Motion { x: 3 * 256, y: -256 });
    assert_eq!(
        core.pending,
        vec![Event::WindowEvent {
            window_id: id,
            event: WindowEvent::CursorMoved(PhysicalPosition { x: 6 * 256, y: -512 }),
        }]
    );
}

#[test]
fn enter_on_unknown_surface_is_ignored() {
    let (store, id) = store_with_window();
    let mut p = Pointer::new();
    let mut out = Vec::new();
    let reload = p.handle(PointerEvent::Enter { surface: id + 7, x: 0, y: 0 }, &store, &mut out);
    assert!(!reload);
    assert!(out.is_empty());
    assert_eq!(p.focus, None);
}

#[test]
fn leave_only_for_the_focused_surface() {
    let mut store = WindowStore::new();
    let (a, _) = store.create(attrs()).unwrap();
    let (b, _) = store.create(attrs()).unwrap();
    let mut p = Pointer::new();
    let mut out = Vec::new();
    p.handle(PointerEvent::Leave { surface: a }, &store, &mut out);
    assert!(out.is_empty());
    p.handle(PointerEvent::Enter { surface: a, x: 0, y: 0 }, &store, &mut out);
    out.clear();
    p.handle(PointerEvent::Leave { surface: b }, &store, &mut out);
    assert!(out.is_empty());
    assert_eq!(p.focus, Some(a));
    p.handle(PointerEvent::Leave { surface: a }, &store, &mut out);
    assert_eq!(out, vec![Event::WindowEvent { window_id: a, event: WindowEvent::CursorLeft }]);
    assert_eq!(p.focus, None);
}

#[test]
fn crossing_counts_stay_within_one() {
    let mut store = WindowStore::new();
    let (a, _) = store.create(attrs()).unwrap();
    let (b, _) = store.create(attrs()).unwrap();
    let seq = [
        PointerEvent::Enter { surface: a, x: 0, y: 0 },
        PointerEvent::Leave { surface: b },
        PointerEvent::Leave { surface: a },
        PointerEvent::Leave { surface: a },
        PointerEvent::Enter { surface: b, x: 0, y: 0 },
        PointerEvent::Leave { surface: b },
        PointerEvent::Enter { surface: a, x: 0, y: 0 },
    ];
    let mut p = Pointer::new();
    let mut out = Vec::new();
    for ev in seq.iter() {
        p.handle(*ev, &store, &mut out);
        let entered = count(&out, WindowEvent::CursorEntered) as i64;
        let left = count(&out, WindowEvent::CursorLeft) as i64;
        assert!((entered - left).abs() <= 1);
    }
    assert_eq!(count(&out, WindowEvent::CursorEntered), 3);
    assert_eq!(count(&out, WindowEvent::CursorLeft), 2);
}

#[test]
fn buttons_map_through_the_code_table() {
    let (store, id) = store_with_window();
    let mut p = Pointer::new();
    let mut out = Vec::new();
    p.handle(PointerEvent::Button { button: 0x110, state: ElementState::Pressed }, &store, &mut out);
    assert!(out.is_empty());
    p.handle(PointerEvent::Enter { surface: id, x: 0, y: 0 }, &store, &mut out);
    out.clear();
    let codes = [0x110u32, 0x111, 0x112, 0x113];
    for c in codes.iter() {
        p.handle(PointerEvent::Button { button: *c, state: ElementState::Released }, &store, &mut out);
    }
    let buttons: Vec<MouseButton> = out
        .iter()
        .map(|e| match e {
            Event::WindowEvent { event: WindowEvent::MouseInput { button, state }, .. } => {
                assert_eq!(*state, ElementState::Released);
                *button
            }
            _ => panic!("unexpected event"),
        })
        .collect();
    assert_eq!(buttons, vec![MouseButton::Left, MouseButton::Right, MouseButton::Middle, MouseButton::Other(0x113)]);
}

#[test]
fn one_wheel_event_per_frame() {
    let (store, id) = store_with_window();
    let mut p = Pointer::new();
    let mut out = Vec::new();
    p.handle(PointerEvent::Enter { surface: id, x: 0, y: 0 }, &store, &mut out);
    out.clear();
    p.handle(PointerEvent::Axis { axis: Axis::VerticalScroll, value: 512 }, &store, &mut out);
    p.handle(PointerEvent::Axis { axis: Axis::VerticalScroll, value: 256 }, &store, &mut out);
    p.handle(PointerEvent::Axis { axis: Axis::HorizontalScroll, value: 100 }, &store, &mut out);
    assert!(out.is_empty());
    p.handle(PointerEvent::Frame, &store, &mut out);
    assert_eq!(
        out,
        vec![Event::WindowEvent {
            window_id: id,
            event: WindowEvent::MouseWheel { delta: MouseScrollDelta::PixelDelta(100, -768), phase: TouchPhase::Moved },
        }]
    );
    assert!(p.axis_buffer.is_none());
    assert!(p.axis_discrete_buffer.is_none());
    out.clear();
    p.handle(PointerEvent::Frame, &store, &mut out);
    assert!(out.is_empty());
}

#[test]
fn discrete_scroll_and_phases() {
    let (store, id) = store_with_window();
    let mut p = Pointer::new();
    let mut out = Vec::new();
    p.handle(PointerEvent::Enter { surface: id, x: 0, y: 0 }, &store, &mut out);
    out.clear();
    p.handle(PointerEvent::AxisDiscrete { axis: Axis::VerticalScroll, discrete: 1 }, &store, &mut out);
    p.handle(PointerEvent::AxisSource, &store, &mut out);
    p.handle(PointerEvent::Frame, &store, &mut out);
    p.handle(PointerEvent::AxisStop, &store, &mut out);
    p.handle(PointerEvent::AxisDiscrete { axis: Axis::HorizontalScroll, discrete: -2 }, &store, &mut out);
    p.handle(PointerEvent::Frame, &store, &mut out);
    assert_eq!(
        out,
        vec![
            Event::WindowEvent {
                window_id: id,
                event: WindowEvent::MouseWheel { delta: MouseScrollDelta::LineDelta(0, -1), phase: TouchPhase::Started },
            },
            Event::WindowEvent {
                window_id: id,
                event: WindowEvent::MouseWheel { delta: MouseScrollDelta::LineDelta(-2, 0), phase: TouchPhase::Started },
            },
        ]
    );
}

#[test]
fn continuous_scroll_wins_over_discrete() {
    let (store, id) = store_with_window();
    let mut p = Pointer::new();
    let mut out = Vec::new();
    p.handle(PointerEvent::Enter { surface: id, x: 0, y: 0 }, &store, &mut out);
    out.clear();
    p.handle(PointerEvent::AxisDiscrete { axis: Axis::VerticalScroll, discrete: 1 }, &store, &mut out);
    p.handle(PointerEvent::Axis { axis: Axis::VerticalScroll, value: 2560 }, &store, &mut out);
    p.handle(PointerEvent::Frame, &store, &mut out);
    assert_eq!(out.len(), 1);
    assert!(matches!(
        out[0],
        Event::WindowEvent { event: WindowEvent::MouseWheel { delta: MouseScrollDelta::PixelDelta(0, -2560), .. }, .. }
    ));
}

#[test]
fn scroll_without_focus_is_dropped_and_drained() {
    let (store, id) = store_with_window();
    let mut p = Pointer::new();
    let mut out = Vec::new();
    p.handle(PointerEvent::Axis { axis: Axis::VerticalScroll, value: 256 }, &store, &mut out);
    p.handle(PointerEvent::Frame, &store, &mut out);
    assert!(out.is_empty());
    assert!(p.axis_buffer.is_none());
    p.handle(PointerEvent::Enter { surface: id, x: 0, y: 0 }, &store, &mut out);
    out.clear();
    p.handle(PointerEvent::Frame, &store, &mut out);
    assert!(out.is_empty());
}

#[test]
fn scroll_accumulation_saturates() {
    let (store, id) = store_with_window();
    let mut p = Pointer::new();
    let mut out = Vec::new();
    p.handle(PointerEvent::Enter { surface: id, x: 0, y: 0 }, &store, &mut out);
    p.axis_buffer = Some((i64::MAX - 5, 0));
    p.handle(PointerEvent::Axis { axis: Axis::HorizontalScroll, value: 100 }, &store, &mut out);
    assert_eq!(p.axis_buffer, Some((i64::MAX, 0)));
}

#[test]
fn focus_on_a_destroyed_window_is_ignored() {
    let (mut store, id) = store_with_window();
    let mut p = Pointer::new();
    let mut out = Vec::new();
    p.handle(PointerEvent::Enter { surface: id, x: 0, y: 0 }, &store, &mut out);
    store.apply_update(id, WindowRequest::Destroy);
    store.process();
    out.clear();
    p.handle(PointerEvent::Button { button: 0x110, state: ElementState::Pressed }, &store, &mut out);
    p.handle(PointerEvent::Motion { x: 0, y: 0 }, &store, &mut out);
    p.handle(PointerEvent::AxisDiscrete { axis: Axis::VerticalScroll, discrete: 1 }, &store, &mut out);
    p.handle(PointerEvent::Frame, &store, &mut out);
    p.handle(PointerEvent::Leave { surface: id }, &store, &mut out);
    assert!(out.is_empty());
    assert_eq!(p.focus, Some(id));
    assert!(p.axis_discrete_buffer.is_none());
}
