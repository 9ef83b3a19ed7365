use winit_wayland::cursor::{cursor_name, CursorAction, CursorIcon, CursorManager, PointerLock};
use winit_wayland::event::{ElementState, Event, KeyboardInput, ModifiersState, PhysicalPosition, TouchPhase, WindowEvent};
use winit_wayland::keyboard::{HeldKey, Keyboard, KeyboardEvent, REPEAT_DELAY_MS, REPEAT_INTERVAL_MS};
use winit_wayland::monitor::{available_monitors, primary_monitor, refresh_rate_hz, Mode, MonitorHandle, OutputInfo};
use winit_wayland::touch::{Touch, TouchEvent};
use winit_wayland::window::{WindowAttributes, WindowStore};
use winit_wayland::DeviceId;

fn store_with_window() -> (WindowStore, u64) {
    let mut store = WindowStore::new();
    let (id, _) = store
        .create(WindowAttributes {
            inner_size: None,
            min_inner_size: None,
            max_inner_size: None,
            resizable: true,
            fullscreen: None,
            title: String::new(),
            maximized: false,
            decorations: true,
            app_id: None,
        })
        .unwrap();
    (store, id)
}

#[test]
fn same_icon_twice_is_sent_once() {
    let mut m = CursorManager::new(true);
    m.register_pointer(7);
    let first = m.set_cursor_icon(CursorIcon::Text);
    let second = m.set_cursor_icon(CursorIcon::Text);
    assert_eq!(first, vec![CursorAction::SetIcon { pointer: 7, icon: CursorIcon::Text }]);
    assert!(second.is_empty());
    assert!(m.set_cursor_icon(CursorIcon::Default).len() == 1);
}

#[test]
fn hidden_cursor_remembers_icon() {
    let mut m = CursorManager::new(true);
    m.register_pointer(1);
    m.register_pointer(2);
    assert_eq!(m.set_cursor_visible(false), vec![CursorAction::Hide { pointer: 1 }, CursorAction::Hide { pointer: 2 }]);
    assert!(m.set_cursor_icon(CursorIcon::Wait).is_empty());
    assert_eq!(m.current_cursor(), CursorIcon::Wait);
    assert_eq!(m.reload_cursor_style(), vec![CursorAction::Hide { pointer: 1 }, CursorAction::Hide { pointer: 2 }]);
    assert_eq!(
        m.set_cursor_visible(true),
        vec![
            CursorAction::SetIcon { pointer: 1, icon: CursorIcon::Wait },
            CursorAction::SetIcon { pointer: 2, icon: CursorIcon::Wait },
        ]
    );
    assert_eq!(m.update_scale_factor().len(), 2);
}

#[test]
fn grab_replaces_locks() {
    let mut m = CursorManager::new(true);
    m.register_pointer(4);
    m.grab(Some(10));
    let calls = m.grab(Some(11));
    assert_eq!(
        calls,
        vec![
            CursorAction::Unlock(PointerLock { pointer: 4, window: 10 }),
            CursorAction::Lock(PointerLock { pointer: 4, window: 11 }),
        ]
    );
    m.grab(None);
    assert_eq!(m.active_locks(), 0);
}

#[test]
fn grab_without_constraints_creates_no_lock() {
    let mut m = CursorManager::new(false);
    m.register_pointer(4);
    assert!(m.grab(Some(1)).is_empty());
    assert_eq!(m.active_locks(), 0);
}

#[test]
fn theme_names() {
    assert_eq!(cursor_name(CursorIcon::Default), "left_ptr");
    assert_eq!(cursor_name(CursorIcon::Alias), "link");
    assert_eq!(cursor_name(CursorIcon::NotAllowed), "crossed_circle");
    assert_eq!(cursor_name(CursorIcon::ColResize), "h_double_arrow");
    assert_eq!(cursor_name(CursorIcon::Wait), "watch");
}

#[test]
fn touch_lifecycle() {
    let (store, id) = store_with_window();
    let mut t = Touch::new();
    let mut out = Vec::new();
    t.handle(TouchEvent::Down { window: id, id: 1, x: 256, y: 512 }, &store, &mut out);
    t.handle(TouchEvent::Down { window: id, id: 2, x: 0, y: 0 }, &store, &mut out);
    t.handle(TouchEvent::Motion { id: 1, x: 768, y: 768 }, &store, &mut out);
    t.handle(TouchEvent::Motion { id: 9, x: 0, y: 0 }, &store, &mut out);
    t.handle(TouchEvent::Frame, &store, &mut out);
    t.handle(TouchEvent::Up { id: 2 }, &store, &mut out);
    t.handle(TouchEvent::Up { id: 2 }, &store, &mut out);
    let phases: Vec<(TouchPhase, i32)> = out
        .iter()
        .map(|e| match e {
            Event::WindowEvent { event: WindowEvent::Touch { phase, id, .. }, .. } => (*phase, *id),
            _ => panic!("unexpected event"),
        })
        .collect();
    assert_eq!(phases, vec![(TouchPhase::Started, 1), (TouchPhase::Started, 2), (TouchPhase::Moved, 1), (TouchPhase::Ended, 2)]);
    assert_eq!(t.len(), 1);
}

#[test]
fn duplicate_down_keeps_ids_unique() {
    let (store, id) = store_with_window();
    let mut t = Touch::new();
    let mut out = Vec::new();
    t.handle(TouchEvent::Down { window: id, id: 5, x: 0, y: 0 }, &store, &mut out);
    t.handle(TouchEvent::Down { window: id, id: 5, x: 256, y: 256 }, &store, &mut out);
    assert_eq!(t.len(), 1);
    out.clear();
    t.handle(TouchEvent::Up { id: 5 }, &store, &mut out);
    assert_eq!(
        out,
        vec![Event::WindowEvent {
            window_id: id,
            event: WindowEvent::Touch { phase: TouchPhase::Ended, location: PhysicalPosition { x: 256, y: 256 }, id: 5 },
        }]
    );
    assert_eq!(t.len(), 0);
}

#[test]
fn cancel_drains_in_registration_order() {
    let (store, id) = store_with_window();
    let mut t = Touch::new();
    let mut out = Vec::new();
    t.handle(TouchEvent::Down { window: id, id: 3, x: 256, y: 0 }, &store, &mut out);
    t.handle(TouchEvent::Down { window: id, id: 1, x: 512, y: 0 }, &store, &mut out);
    t.handle(TouchEvent::Motion { id: 3, x: 1024, y: 0 }, &store, &mut out);
    out.clear();
    t.handle(TouchEvent::Cancel, &store, &mut out);
    assert_eq!(
        out,
        vec![
            Event::WindowEvent {
                window_id: id,
                event: WindowEvent::Touch { phase: TouchPhase::Cancelled, location: PhysicalPosition { x: 1024, y: 0 }, id: 3 },
            },
            Event::WindowEvent {
                window_id: id,
                event: WindowEvent::Touch { phase: TouchPhase::Cancelled, location: PhysicalPosition { x: 512, y: 0 }, id: 1 },
            },
        ]
    );
    assert_eq!(t.len(), 0);
}

fn key(state: ElementState, rawkey: u32, text: &str) -> KeyboardEvent {
    KeyboardEvent::Key { rawkey, keysym: Some(rawkey + 8), state, text: text.chars().collect() }
}

#[test]
fn keyboard_focus_and_modifiers() {
    let mut k = Keyboard::new(false);
    let mut out = Vec::new();
    let shift = ModifiersState { shift: true, ctrl: false, alt: false, logo: false };
    k.handle(KeyboardEvent::Modifiers { modifiers: shift }, false, 0, &mut out);
    assert!(out.is_empty());
    assert_eq!(k.modifiers(), shift);
    k.handle(KeyboardEvent::Enter { surface: 0 }, false, 0, &mut out);
    k.handle(KeyboardEvent::Modifiers { modifiers: ModifiersState::empty() }, false, 0, &mut out);
    k.handle(KeyboardEvent::Leave { surface: 0 }, false, 0, &mut out);
    let evs: Vec<WindowEvent> = out
        .iter()
        .map(|e| match e {
            Event::WindowEvent { event, .. } => *event,
            _ => panic!("unexpected event"),
        })
        .collect();
    assert_eq!(
        evs,
        vec![
            WindowEvent::Focused(true),
            WindowEvent::ModifiersChanged(shift),
            WindowEvent::ModifiersChanged(ModifiersState::empty()),
            WindowEvent::Focused(false),
        ]
    );
}

#[test]
fn keyboard_leave_can_reset_modifiers() {
    let mut k = Keyboard::new(true);
    let mut out = Vec::new();
    let ctrl = ModifiersState { shift: false, ctrl: true, alt: false, logo: false };
    k.handle(KeyboardEvent::Enter { surface: 0 }, false, 0, &mut out);
    k.handle(KeyboardEvent::Modifiers { modifiers: ctrl }, false, 0, &mut out);
    out.clear();
    k.handle(KeyboardEvent::Leave { surface: 0 }, false, 0, &mut out);
    assert_eq!(
        out,
        vec![
            Event::WindowEvent { window_id: 0, event: WindowEvent::ModifiersChanged(ModifiersState::empty()) },
            Event::WindowEvent { window_id: 0, event: WindowEvent::Focused(false) },
        ]
    );
}

#[test]
fn key_press_emits_input_then_characters() {
    let mut k = Keyboard::new(false);
    let mut out = Vec::new();
    k.handle(key(ElementState::Pressed, 30, "ab"), true, 0, &mut out);
    assert!(out.is_empty());
    assert_eq!(k.next_repeat(), None);
    k.handle(KeyboardEvent::Enter { surface: 0 }, false, 0, &mut out);
    out.clear();
    k.handle(key(ElementState::Pressed, 30, "ab"), true, 0, &mut out);
    let input = KeyboardInput {
        scancode: 30,
        state: ElementState::Pressed,
        virtual_keycode: Some(38),
        modifiers: ModifiersState::empty(),
    };
    assert_eq!(
        out,
        vec![
            Event::WindowEvent { window_id: 0, event: WindowEvent::KeyboardInput { input, is_synthetic: true } },
            Event::WindowEvent { window_id: 0, event: WindowEvent::ReceivedCharacter('a') },
            Event::WindowEvent { window_id: 0, event: WindowEvent::ReceivedCharacter('b') },
        ]
    );
    assert_eq!(k.next_repeat(), Some(REPEAT_DELAY_MS));
    k.handle(key(ElementState::Pressed, 42, ""), false, 10, &mut out);
    assert_eq!(k.next_repeat(), Some(REPEAT_DELAY_MS));
    k.handle(KeyboardEvent::Enter { surface: 1 }, false, 20, &mut out);
    assert_eq!(k.next_repeat(), None);
}

#[test]
fn key_repeat_schedule() {
    let mut k = Keyboard::new(false);
    let mut out = Vec::new();
    k.handle(KeyboardEvent::Enter { surface: 0 }, false, 0, &mut out);
    k.handle(key(ElementState::Pressed, 30, "a"), false, 1000, &mut out);
    assert_eq!(k.next_repeat(), Some(1000 + REPEAT_DELAY_MS));
    out.clear();
    k.repeat_tick(1000 + REPEAT_DELAY_MS - 1, &mut out);
    assert!(out.is_empty());
    k.repeat_tick(1000 + REPEAT_DELAY_MS, &mut out);
    assert_eq!(out.len(), 2);
    assert_eq!(k.next_repeat(), Some(1000 + REPEAT_DELAY_MS + REPEAT_INTERVAL_MS));
    k.handle(key(ElementState::Released, 31, ""), false, 1400, &mut out);
    assert!(k.next_repeat().is_some());
    k.handle(key(ElementState::Released, 30, ""), false, 1400, &mut out);
    assert_eq!(k.next_repeat(), None);
    k.handle(key(ElementState::Pressed, 30, "a"), false, 2000, &mut out);
    k.handle(KeyboardEvent::Leave { surface: 0 }, false, 2001, &mut out);
    assert_eq!(k.next_repeat(), None);
    out.clear();
    k.repeat_tick(5000, &mut out);
    assert!(out.is_empty());
}

fn output(id: u32) -> MonitorHandle {
    MonitorHandle {
        info: Some(OutputInfo {
            id,
            model: String::from("Panel"),
            make: String::from("Acme"),
            x: 10,
            y: 20,
            scale_factor: 2,
            modes: vec![
                Mode { width: 1280, height: 720, refresh_rate: 59_940, is_current: false },
                Mode { width: 1920, height: 1080, refresh_rate: 60_000, is_current: true },
            ],
        }),
    }
}

#[test]
fn monitor_properties() {
    let m = output(42);
    assert_eq!(m.name(), Some(String::from("Panel (Acme)")));
    assert_eq!(m.native_identifier(), 42);
    assert_eq!(m.size(), (1920, 1080));
    assert_eq!(m.position(), (10, 20));
    assert_eq!(m.scale_factor(), 2);
    let modes = m.video_modes();
    assert_eq!(modes.len(), 2);
    assert_eq!(modes[0].size(), (1280, 720));
    assert_eq!(modes[0].refresh_rate(), 60);
    assert_eq!(modes[0].bit_depth(), 32);
    assert_eq!(modes[1].monitor().native_identifier(), 42);
}

#[test]
fn gone_monitor_defaults() {
    let m = MonitorHandle { info: None };
    assert_eq!(m.name(), None);
    assert_eq!(m.native_identifier(), 0);
    assert_eq!(m.size(), (0, 0));
    assert_eq!(m.position(), (0, 0));
    assert_eq!(m.scale_factor(), 1);
    assert!(m.video_modes().is_empty());
}

#[test]
fn refresh_rounding() {
    assert_eq!(refresh_rate_hz(59_499), 59);
    assert_eq!(refresh_rate_hz(59_500), 60);
    assert_eq!(refresh_rate_hz(0), 0);
    assert_eq!(refresh_rate_hz(-2_000), 0);
    assert_eq!(refresh_rate_hz(i32::MAX), u16::MAX);
}

#[test]
fn primary_is_first_output() {
    let outputs = vec![output(3), output(4)];
    assert_eq!(primary_monitor(&outputs).native_identifier(), 3);
    let all = available_monitors(&outputs);
    assert_eq!(all.iter().map(|m| m.native_identifier()).collect::<Vec<_>>(), vec![3, 4]);
}

#[test]
fn device_id_is_unit() {
    assert_eq!(DeviceId::dummy(), DeviceId);
}

#[test]
fn held_keys_are_replayed_as_synthetic_presses() {
    let mut k = Keyboard::new(false);
    let mut out = Vec::new();
    let held = vec![HeldKey { rawkey: 42, keysym: 0xffe1 }, HeldKey { rawkey: 30, keysym: 0x61 }];
    k.replay_held_keys(&held, &mut out);
    assert!(out.is_empty());
    k.handle(KeyboardEvent::Enter { surface: 9 }, false, 0, &mut out);
    out.clear();
    k.replay_held_keys(&held, &mut out);
    let inputs: Vec<(u32, Option<u32>, bool)> = out
        .iter()
        .map(|e| match e {
            Event::WindowEvent { window_id: 9, event: WindowEvent::KeyboardInput { input, is_synthetic } } => {
                assert_eq!(input.state, ElementState::Pressed);
                (input.scancode, input.virtual_keycode, *is_synthetic)
            }
            _ => panic!("unexpected event"),
        })
        .collect();
    assert_eq!(inputs, vec![(42, Some(0xffe1), true), (30, Some(0x61), true)]);
    assert_eq!(k.next_repeat(), None);
}
