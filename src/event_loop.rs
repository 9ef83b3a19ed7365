//! The dispatch core: owns every session and the window table, orders the
//! events of one loop iteration, and decides how long the loop may block.
//! Protocol traffic, the clock and the blocking wait itself stay with the
//! caller, which feeds notifications in and performs the returned actions.
use vstd::prelude::*;
use crate::channel::Update;
use crate::cursor::{
    CursorAction, CursorManager, CursorModel, set_icon_next, set_icon_calls, grab_next, grab_calls,
    set_icon_actions, hide_actions, reload_actions,
};
use crate::event::{Event, StartCause, WindowId, WindowEvent, ElementState, wev};
use crate::keyboard::{
    Keyboard, KeyboardEvent, KeyboardModel, RepeatModel, HeldKey, held_key_events, REPEAT_INTERVAL_MS, sat_add_u64, key_events,
    keyboard_next, keyboard_output,
};
use crate::pointer::{Pointer, PointerEvent, pointer_next, pointer_output, pointer_reloads_cursor};
use crate::touch::{Touch, TouchEvent, touch_next, touch_output};
use crate::window::{
    WindowStore, WindowState, WindowRequest, WindowAttributes, WindowError, FrameAction, FrameEvent, Fullscreen,
    initial_state, initial_actions, apply_frame_event, frame_event_output, physical_width, physical_height, lookup, update_window, apply_request, request_op, frame_action, all_window_events, all_redraws,
    all_actions, survivors, lemma_index_of,
};

verus! {

/// How the loop proceeds once an iteration is over. Times are milliseconds
/// on the loop's monotonic clock.
#[derive(Debug, Copy, Clone, PartialEq, Eq, Structural)]
pub enum ControlFlow {
    /// Go round again without blocking.
    Poll,
    /// Block until something happens.
    Wait,
    /// Block until something happens or the deadline passes.
    WaitUntil(u64),
    /// Stop; no further iteration runs.
    Exit,
}

/// How long the blocking wait may last.
#[derive(Debug, Copy, Clone, PartialEq, Eq, Structural)]
pub enum Timeout {
    Millis(u64),
    Forever,
}

/// `a - b`, or 0 when `b > a`.
pub open spec fn sat_sub(a: u64, b: u64) -> u64 {
    if a >= b { (a - b) as u64 } else { 0 }
}

/// The control flow after the application asked for `requested`: once
/// Exit, it stays Exit.
pub open spec fn control_flow_after(current: ControlFlow, requested: ControlFlow) -> ControlFlow {
    if current == ControlFlow::Exit { ControlFlow::Exit } else { requested }
}

/// How long the loop blocks under a control flow: Poll never blocks, Wait
/// blocks without limit, WaitUntil until the deadline; an instant wake-up
/// turns any wait into none. No wait at all under Exit.
pub open spec fn base_timeout(cf: ControlFlow, instant_wakeup: bool, now: u64) -> Option<Timeout> {
    match cf {
        ControlFlow::Exit => None,
        ControlFlow::Poll => Some(Timeout::Millis(0)),
        ControlFlow::Wait => if instant_wakeup { Some(Timeout::Millis(0)) } else { Some(Timeout::Forever) },
        ControlFlow::WaitUntil(deadline) => if instant_wakeup {
            Some(Timeout::Millis(0))
        } else {
            Some(Timeout::Millis(sat_sub(deadline, now)))
        },
    }
}

/// The wait, shortened so that a pending key repeat at `repeat_at` is not missed.
pub open spec fn wait_timeout_of(cf: ControlFlow, instant_wakeup: bool, now: u64, repeat_at: Option<u64>) -> Option<Timeout> {
    match (base_timeout(cf, instant_wakeup, now), repeat_at) {
        (Some(Timeout::Forever), Some(r)) => Some(Timeout::Millis(sat_sub(r, now))),
        (Some(Timeout::Millis(m)), Some(r)) => Some(Timeout::Millis(
            if m <= sat_sub(r, now) { m } else { sat_sub(r, now) },
        )),
        (t, _) => t,
    }
}

/// Why the loop woke up, given the control flow it waited under, when the
/// wait started and the time now.
pub open spec fn start_cause_of(cf: ControlFlow, start: u64, now: u64) -> Option<StartCause> {
    match cf {
        ControlFlow::Poll => Some(StartCause::Poll),
        ControlFlow::Wait => Some(StartCause::WaitCancelled { start, requested_resume: None }),
        ControlFlow::WaitUntil(deadline) => if now < deadline {
            Some(StartCause::WaitCancelled { start, requested_resume: Some(deadline) })
        } else {
            Some(StartCause::ResumeTimeReached { start, requested_resume: deadline })
        },
        ControlFlow::Exit => None,
    }
}

fn saturating_sub_u64(a: u64, b: u64) -> (r: u64)
    ensures
        r == sat_sub(a, b),
{
    if a >= b { a - b } else { 0 }
}

/// How long the loop may block; `None` under Exit.
pub fn wait_timeout(cf: ControlFlow, instant_wakeup: bool, now: u64, repeat_at: Option<u64>) -> (r: Option<Timeout>)
    ensures
        r == wait_timeout_of(cf, instant_wakeup, now, repeat_at),
{
    let base = match cf {
        ControlFlow::Exit => None,
        ControlFlow::Poll => Some(Timeout::Millis(0)),
        ControlFlow::Wait => if instant_wakeup { Some(Timeout::Millis(0)) } else { Some(Timeout::Forever) },
        ControlFlow::WaitUntil(deadline) => if instant_wakeup {
            Some(Timeout::Millis(0))
        } else {
            Some(Timeout::Millis(saturating_sub_u64(deadline, now)))
        },
    };
    match (base, repeat_at) {
        (Some(Timeout::Forever), Some(r)) => Some(Timeout::Millis(saturating_sub_u64(r, now))),
        (Some(Timeout::Millis(m)), Some(r)) => {
            let until_repeat = saturating_sub_u64(r, now);
            Some(Timeout::Millis(if m <= until_repeat { m } else { until_repeat }))
        },
        (t, _) => t,
    }
}

/// Why the loop woke up; `None` under Exit, where it does not wait.
pub fn start_cause(cf: ControlFlow, start: u64, now: u64) -> (r: Option<StartCause>)
    ensures
        r == start_cause_of(cf, start, now),
{
    match cf {
        ControlFlow::Poll => Some(StartCause::Poll),
        ControlFlow::Wait => Some(StartCause::WaitCancelled { start, requested_resume: None }),
        ControlFlow::WaitUntil(deadline) => if now < deadline {
            Some(StartCause::WaitCancelled { start, requested_resume: Some(deadline) })
        } else {
            Some(StartCause::ResumeTimeReached { start, requested_resume: deadline })
        },
        ControlFlow::Exit => None,
    }
}

/// Cursor manager state after a pointer notification: entering a window
/// makes that window's cursor the current one.
pub open spec fn entered_cursor(m: CursorModel, ev: PointerEvent, ws: Seq<WindowState>) -> CursorModel {
    match ev {
        PointerEvent::Enter { surface, .. } => match lookup(ws, surface) {
            Some(w) => CursorModel { current: w.cursor_icon, visible: w.cursor_visible, ..m },
            None => m,
        },
        _ => m,
    }
}

/// Cursor manager state after a request for a live window.
pub open spec fn cursor_next(m: CursorModel, id: WindowId, req: WindowRequest) -> CursorModel {
    match req {
        WindowRequest::SetCursorIcon(c) => set_icon_next(m, c),
        WindowRequest::SetCursorVisible(v) => CursorModel { visible: v, ..m },
        WindowRequest::SetCursorGrab(g) => grab_next(m, if g { Some(id) } else { None }),
        _ => m,
    }
}

/// Cursor calls made for a request for a live window.
pub open spec fn cursor_calls(m: CursorModel, id: WindowId, req: WindowRequest) -> Seq<CursorAction> {
    match req {
        WindowRequest::SetCursorIcon(c) => set_icon_calls(m, c),
        WindowRequest::SetCursorVisible(v) => if v {
            set_icon_actions(m.pointers, m.current)
        } else {
            hide_actions(m.pointers)
        },
        WindowRequest::SetCursorGrab(g) => grab_calls(m, if g { Some(id) } else { None }),
        _ => Seq::empty(),
    }
}

/// The frame operation a request performs at once, if any, addressed to its window.
pub open spec fn op_actions(id: WindowId, req: WindowRequest) -> Seq<FrameAction> {
    match request_op(req) {
        Some(op) => seq![frame_action(id, op)],
        None => Seq::empty(),
    }
}

/// Window table, cursor state, frame operations and cursor calls after
/// applying `ups` in order; requests for windows that are not live are dropped.
pub open spec fn apply_all(ws: Seq<WindowState>, m: CursorModel, ups: Seq<Update>)
    -> (Seq<WindowState>, CursorModel, Seq<FrameAction>, Seq<CursorAction>)
    decreases ups.len(),
{
    if ups.len() == 0 {
        (ws, m, Seq::empty(), Seq::empty())
    } else {
        let (ws1, m1, fa, ca) = apply_all(ws, m, ups.drop_last());
        let u = ups.last();
        match lookup(ws1, u.window) {
            Some(w) => (
                update_window(ws1, u.window, apply_request(w, u.request)),
                cursor_next(m1, u.window, u.request),
                fa + op_actions(u.window, u.request),
                ca + cursor_calls(m1, u.window, u.request),
            ),
            None => (ws1, m1, fa, ca),
        }
    }
}

/// When the held key repeats next, if one is held.
pub open spec fn repeat_time(k: KeyboardModel) -> Option<u64> {
    match k.repeat {
        Some(r) => Some(r.next_at),
        None => None,
    }
}

/// The events that close an iteration, given the per-iteration pass over
/// the window table `ws`.
pub open spec fn closing_events(ws: Seq<WindowState>) -> Seq<Event> {
    all_window_events(ws) + seq![Event::MainEventsCleared] + all_redraws(ws) + seq![Event::RedrawEventsCleared]
}

/// The dispatch core.
pub struct Dispatcher {
    pub windows: WindowStore,
    pub cursor: CursorManager,
    pub keyboard: Keyboard,
    pub touch: Touch,
    /// One session per pointer device, indexed by the device's handle.
    pub pointers: Vec<Pointer>,
    pub control_flow: ControlFlow,
    /// Set when the last dispatch handled messages: the next wait must not block.
    pub instant_wakeup: bool,
    /// Events produced since the last iteration began.
    pub pending: Vec<Event>,
    pub started: bool,
    pub destroyed: bool,
}

impl Dispatcher {
    pub open spec fn wf(&self) -> bool {
        &&& self.windows.wf()
        &&& self.touch.wf()
        &&& self.keyboard.wf()
    }

    /// A core with no window and no device; `has_constraints` tells whether
    /// the compositor offers pointer confinement, `reset_modifiers_on_leave`
    /// whether keyboard focus loss first reports the modifiers released.
    pub fn new(has_constraints: bool, reset_modifiers_on_leave: bool) -> (r: Dispatcher)
        ensures
            r.wf(),
            r.windows.windows@.len() == 0,
            r.windows.next_id == 0,
            r.pointers@.len() == 0,
            r.pending@.len() == 0,
            r.control_flow == ControlFlow::Poll,
            !r.instant_wakeup,
            !r.started,
            !r.destroyed,
            r.cursor@ == (CursorModel {
                pointers: Seq::empty(),
                locks: Seq::empty(),
                has_constraints,
                visible: true,
                current: crate::cursor::CursorIcon::Default,
            }),
            r.keyboard@.reset_modifiers_on_leave == reset_modifiers_on_leave,
            r.keyboard@.repeat.is_none(),
            r.touch@.len() == 0,
    {
        Dispatcher {
            windows: WindowStore::new(),
            cursor: CursorManager::new(has_constraints),
            keyboard: Keyboard::new(reset_modifiers_on_leave),
            touch: Touch::new(),
            pointers: Vec::new(),
            control_flow: ControlFlow::Poll,
            instant_wakeup: false,
            pending: Vec::new(),
            started: false,
            destroyed: false,
        }
    }

    /// Records the control flow the application asked for; Exit is final.
    pub fn set_control_flow(&mut self, requested: ControlFlow)
        ensures
            *final(self) == (Dispatcher { control_flow: control_flow_after(old(self).control_flow, requested), ..*old(self) }),
    {
        if self.control_flow != ControlFlow::Exit {
            self.control_flow = requested;
        }
    }

    /// Adds a pointer device and returns its handle, or `None` when no handle is left.
    pub fn register_pointer(&mut self) -> (r: Option<u32>)
        requires
            old(self).wf(),
        ensures
            final(self).wf(),
            old(self).pointers@.len() < u32::MAX ==> {
                &&& r == Some(old(self).pointers@.len() as u32)
                &&& final(self).pointers@.len() == old(self).pointers@.len() + 1
                &&& final(self).pointers@.drop_last() == old(self).pointers@
                &&& final(self).pointers@.last().focus.is_none()
                &&& *final(self) == (Dispatcher { pointers: final(self).pointers, cursor: final(self).cursor, ..*old(self) })
                &&& final(self).cursor@ == (CursorModel {
                    pointers: old(self).cursor@.pointers.push(old(self).pointers@.len() as u32),
                    ..old(self).cursor@
                })
            },
            old(self).pointers@.len() >= u32::MAX ==> r.is_none() && *final(self) == *old(self),
    {
        let n = self.pointers.len();
        if n >= 0xffff_ffff {
            return None;
        }
        self.pointers.push(Pointer::new());
        self.cursor.register_pointer(n as u32);
        Some(n as u32)
    }

    /// Feeds a notification of pointer `handle`; the events are queued for
    /// the current iteration. When the pointer enters a window, that
    /// window's cursor (icon and visibility) becomes the current one and the
    /// cursor calls that show it are returned. Unknown handles are ignored.
    pub fn pointer_event(&mut self, handle: u32, event: PointerEvent) -> (r: Vec<CursorAction>)
        requires
            old(self).wf(),
        ensures
            final(self).wf(),
            *final(self) == (Dispatcher {
                pointers: final(self).pointers,
                pending: final(self).pending,
                cursor: final(self).cursor,
                ..*old(self)
            }),
            (handle as int) < old(self).pointers@.len() ==> {
                let p = old(self).pointers@[handle as int];
                let ws = old(self).windows.windows@;
                &&& final(self).pointers@ == old(self).pointers@.update(handle as int, pointer_next(p, event, ws))
                &&& final(self).pending@ == old(self).pending@ + pointer_output(p, event, ws)
                &&& final(self).cursor@ == entered_cursor(old(self).cursor@, event, ws)
                &&& r@ == (if pointer_reloads_cursor(event, ws) {
                    reload_actions(entered_cursor(old(self).cursor@, event, ws))
                } else {
                    Seq::empty()
                })
            },
            (handle as int) >= old(self).pointers@.len() ==> {
                &&& final(self).pointers@ == old(self).pointers@
                &&& final(self).pending@ == old(self).pending@
                &&& final(self).cursor@ == old(self).cursor@
                &&& r@.len() == 0
            },
    {
        let i = handle as usize;
        if i >= self.pointers.len() {
            return Vec::new();
        }
        let reload = self.pointers[i].handle(event, &self.windows, &mut self.pending);
        if reload {
            if let PointerEvent::Enter { surface, .. } = event {
                if let Some(k) = self.windows.find(surface) {
                    proof {
                        lemma_index_of(self.windows.windows@, surface, k as int);
                    }
                    let icon = self.windows.windows[k].cursor_icon;
                    let visible = self.windows.windows[k].cursor_visible;
                    self.cursor.adopt(icon, visible);
                }
            }
            self.cursor.reload_cursor_style()
        } else {
            Vec::new()
        }
    }

    /// Feeds a keyboard notification received at `now`.
    pub fn keyboard_event(&mut self, event: KeyboardEvent, is_synthetic: bool, now: u64)
        requires
            old(self).wf(),
        ensures
            final(self).wf(),
            final(self).keyboard@ == keyboard_next(old(self).keyboard@, event, now),
            final(self).pending@ == old(self).pending@ + keyboard_output(old(self).keyboard@, event, is_synthetic),
            *final(self) == (Dispatcher { keyboard: final(self).keyboard, pending: final(self).pending, ..*old(self) }),
    {
        self.keyboard.handle(event, is_synthetic, now, &mut self.pending);
    }

    /// Reports the keys held when keyboard focus arrived as synthetic presses.
    pub fn replay_held_keys(&mut self, held: &Vec<HeldKey>)
        requires
            old(self).wf(),
        ensures
            final(self).wf(),
            *final(self) == (Dispatcher { keyboard: final(self).keyboard, pending: final(self).pending, ..*old(self) }),
            final(self).keyboard@ == old(self).keyboard@,
            final(self).pending@ == old(self).pending@ + match old(self).keyboard@.focus {
                Some(f) => held_key_events(f, held@, old(self).keyboard@.modifiers),
                None => Seq::empty(),
            },
    {
        self.keyboard.replay_held_keys(held, &mut self.pending);
    }

    /// Emits the held key again if its repeat time has come.
    pub fn repeat_tick(&mut self, now: u64)
        requires
            old(self).wf(),
        ensures
            final(self).wf(),
            *final(self) == (Dispatcher { keyboard: final(self).keyboard, pending: final(self).pending, ..*old(self) }),
            match old(self).keyboard@.repeat {
                Some(k) => if now >= k.next_at {
                    &&& final(self).keyboard@ == (KeyboardModel {
                        repeat: Some(RepeatModel { next_at: sat_add_u64(now, REPEAT_INTERVAL_MS), ..k }),
                        ..old(self).keyboard@
                    })
                    &&& final(self).pending@ == old(self).pending@ + key_events(k.surface, k.rawkey, k.keysym,
                        ElementState::Pressed, k.text, old(self).keyboard@.modifiers, false)
                } else {
                    final(self).keyboard@ == old(self).keyboard@ && final(self).pending@ == old(self).pending@
                },
                None => final(self).keyboard@ == old(self).keyboard@ && final(self).pending@ == old(self).pending@,
            },
    {
        self.keyboard.repeat_tick(now, &mut self.pending);
    }

    /// Feeds a touch notification.
    pub fn touch_event(&mut self, event: TouchEvent)
        requires
            old(self).wf(),
        ensures
            final(self).wf(),
            final(self).touch@ == touch_next(old(self).touch@, event),
            final(self).pending@ == old(self).pending@ + touch_output(old(self).touch@, event, old(self).windows.windows@),
            *final(self) == (Dispatcher { touch: final(self).touch, pending: final(self).pending, ..*old(self) }),
    {
        self.touch.handle(event, &self.windows, &mut self.pending);
    }

    /// Feeds relative pointer motion.
    pub fn relative_motion(&mut self, dx: i32, dy: i32)
        ensures
            *final(self) == (Dispatcher { pending: final(self).pending, ..*old(self) }),
            final(self).pending@ == old(self).pending@.push(Event::MouseMotion { dx, dy }),
    {
        self.pending.push(Event::MouseMotion { dx, dy });
    }

    /// Feeds a notification from the frame of window `id`.
    pub fn frame_event(&mut self, id: WindowId, event: FrameEvent)
        requires
            old(self).wf(),
        ensures
            final(self).wf(),
            *final(self) == (Dispatcher { windows: final(self).windows, pending: final(self).pending, ..*old(self) }),
            final(self).windows.next_id == old(self).windows.next_id,
            match old(self).windows.get(id) {
                Some(w) => {
                    &&& final(self).windows.windows@ == update_window(old(self).windows.windows@, id, apply_frame_event(w, event))
                    &&& final(self).pending@ == old(self).pending@ + frame_event_output(id, event)
                },
                None => final(self).windows == old(self).windows && final(self).pending@ == old(self).pending@,
            },
    {
        self.windows.handle_frame_event(id, event, &mut self.pending);
    }

    /// Records a new scale factor for window `id`; returns the cursor calls
    /// that redraw the cursor at the new scale.
    pub fn scale_changed(&mut self, id: WindowId, scale_factor: u32) -> (r: Vec<CursorAction>)
        requires
            old(self).wf(),
        ensures
            final(self).wf(),
            *final(self) == (Dispatcher { windows: final(self).windows, pending: final(self).pending, ..*old(self) }),
            final(self).windows.next_id == old(self).windows.next_id,
            match old(self).windows.get(id) {
                Some(w) => {
                    &&& final(self).windows.windows@ == update_window(old(self).windows.windows@, id,
                        WindowState { scale_factor, ..w })
                    &&& final(self).pending@ == old(self).pending@.push(wev(id, WindowEvent::ScaleFactorChanged {
                        scale_factor,
                        width: physical_width(w.size, scale_factor),
                        height: physical_height(w.size, scale_factor),
                    }))
                },
                None => final(self).windows == old(self).windows && final(self).pending@ == old(self).pending@,
            },
            r@ == reload_actions(old(self).cursor@),
    {
        self.windows.set_scale_factor(id, scale_factor, &mut self.pending);
        self.cursor.update_scale_factor()
    }

    /// Creates a window; fails only once every window id has been handed
    /// out. See `WindowStore::create`.
    pub fn create_window(&mut self, attrs: WindowAttributes) -> (r: Result<(WindowId, Vec<FrameAction>), WindowError>)
        requires
            old(self).wf(),
            !(attrs.fullscreen matches Some(Fullscreen::Exclusive(_))),
        ensures
            final(self).wf(),
            *final(self) == (Dispatcher { windows: final(self).windows, ..*old(self) }),
            match r {
                Ok((id, actions)) => {
                    &&& old(self).windows.next_id < u64::MAX
                    &&& id == old(self).windows.next_id
                    &&& final(self).windows.next_id == id + 1
                    &&& final(self).windows.windows@ == old(self).windows.windows@.push(initial_state(attrs, id))
                    &&& actions@ == initial_actions(attrs, id)
                },
                Err(e) => {
                    &&& e == WindowError::IdsExhausted
                    &&& old(self).windows.next_id == u64::MAX
                    &&& final(self).windows == old(self).windows
                },
            },
    {
        self.windows.create(attrs)
    }

    /// Applies drained window requests in order: each changes its window's
    /// record, and cursor requests also go to the cursor manager (a grab
    /// locks the pointers to the requesting window, a release unlocks them).
    /// Returns the frame operations and cursor calls to perform, in order.
    pub fn apply_updates(&mut self, updates: Vec<Update>) -> (r: (Vec<FrameAction>, Vec<CursorAction>))
        requires
            old(self).wf(),
        ensures
            final(self).wf(),
            final(self).windows.next_id == old(self).windows.next_id,
            *final(self) == (Dispatcher { windows: final(self).windows, cursor: final(self).cursor, ..*old(self) }),
            ({
                let (ws, m, fa, ca) = apply_all(old(self).windows.windows@, old(self).cursor@, updates@);
                &&& final(self).windows.windows@ == ws
                &&& final(self).cursor@ == m
                &&& r.0@ == fa
                &&& r.1@ == ca
            }),
    {
        let ghost orig = updates@;
        let ghost ws0 = self.windows.windows@;
        let ghost m0 = self.cursor@;
        let mut rest = updates;
        let mut frame_ops: Vec<FrameAction> = Vec::new();
        let mut calls: Vec<CursorAction> = Vec::new();
        let mut i: usize = 0;
        let n = rest.len();
        while rest.len() > 0
            invariant
                self.wf(),
                *self == (Dispatcher { windows: self.windows, cursor: self.cursor, ..*old(self) }),
                self.windows.next_id == old(self).windows.next_id,
                n == orig.len(),
                i <= orig.len(),
                rest@ == orig.skip(i as int),
                rest@.len() == orig.len() - i,
                ({
                    let (ws, m, fa, ca) = apply_all(ws0, m0, orig.take(i as int));
                    &&& self.windows.windows@ == ws
                    &&& self.cursor@ == m
                    &&& frame_ops@ == fa
                    &&& calls@ == ca
                }),
            decreases rest@.len(),
        {
            let ghost before = rest@;
            let u = rest.remove(0);
            proof {
                assert(u == orig[i as int]);
                assert(orig.take(i + 1).drop_last() =~= orig.take(i as int));
                assert(rest@ =~= orig.skip(i + 1));
            }
            let ghost m1 = self.cursor@;
            let ghost req = u.request;
            let id = u.window;
            let live = self.windows.find(id).is_some();
            let mut cursor_calls_now = match &u.request {
                WindowRequest::SetCursorIcon(c) => if live { self.cursor.set_cursor_icon(*c) } else { Vec::new() },
                WindowRequest::SetCursorVisible(v) => if live { self.cursor.set_cursor_visible(*v) } else { Vec::new() },
                WindowRequest::SetCursorGrab(g) => if live {
                    self.cursor.grab(if *g { Some(id) } else { None })
                } else {
                    Vec::new()
                },
                _ => Vec::new(),
            };
            let op = self.windows.apply_update(id, u.request);
            if let Some(a) = op {
                frame_ops.push(a);
            }
            calls.append(&mut cursor_calls_now);
            i = i + 1;
            proof {
                let (ws_prev, m_prev, fa_prev, ca_prev) = apply_all(ws0, m0, orig.take(i - 1));
                if live {
                    assert(frame_ops@ =~= fa_prev + op_actions(id, req));
                    assert(calls@ =~= ca_prev + cursor_calls(m1, id, req));
                    assert(self.cursor@ == cursor_next(m1, id, req));
                } else {
                    assert(frame_ops@ =~= fa_prev);
                    assert(calls@ =~= ca_prev);
                }
            }
        }
        proof {
            assert(orig.take(i as int) =~= orig);
        }
        (frame_ops, calls)
    }

    /// Records how many protocol messages the last dispatch handled, and
    /// whether a wake-up was asked for: either way the next wait must not block.
    pub fn note_dispatched(&mut self, dispatched: usize, woken: bool)
        ensures
            *final(self) == (Dispatcher { instant_wakeup: dispatched > 0 || woken, ..*old(self) }),
    {
        self.instant_wakeup = dispatched > 0 || woken;
    }

    /// How long the next wait may block: `None` once the loop is to exit.
    pub fn next_timeout(&self, now: u64) -> (r: Option<Timeout>)
        ensures
            r == wait_timeout_of(self.control_flow, self.instant_wakeup, now, repeat_time(self.keyboard@)),
    {
        wait_timeout(self.control_flow, self.instant_wakeup, now, self.keyboard.next_repeat())
    }

    /// Opens an iteration after a wait that began at `start` and ended at
    /// `now`: NewEvents (Init on the first iteration, else the reason the wait
    /// ended), then every event queued since the last iteration, in order.
    pub fn begin_iteration(&mut self, start: u64, now: u64) -> (r: Vec<Event>)
        requires
            old(self).control_flow != ControlFlow::Exit,
        ensures
            *final(self) == (Dispatcher { started: true, pending: final(self).pending, ..*old(self) }),
            old(self).wf() ==> final(self).wf(),
            final(self).pending@.len() == 0,
            r@ == seq![Event::NewEvents(
                if old(self).started { start_cause_of(old(self).control_flow, start, now).unwrap() } else { StartCause::Init },
            )] + old(self).pending@,
    {
        let cause = if self.started {
            match start_cause(self.control_flow, start, now) {
                Some(c) => c,
                None => StartCause::Poll,
            }
        } else {
            StartCause::Init
        };
        self.started = true;
        let mut out: Vec<Event> = Vec::new();
        out.push(Event::NewEvents(cause));
        out.append(&mut self.pending);
        out
    }

    /// Closes an iteration: runs the per-iteration pass over the window
    /// table and returns its window events, MainEventsCleared, the redraw
    /// events, RedrawEventsCleared, and the frame operations to perform
    /// (each frame is resized and refreshed before its redraw is delivered).
    pub fn finish_iteration(&mut self) -> (r: (Vec<Event>, Vec<FrameAction>))
        requires
            old(self).wf(),
        ensures
            final(self).wf(),
            *final(self) == (Dispatcher { windows: final(self).windows, ..*old(self) }),
            final(self).windows.next_id == old(self).windows.next_id,
            final(self).windows.windows@ == survivors(old(self).windows.windows@),
            r.0@ == closing_events(old(self).windows.windows@),
            r.1@ == all_actions(old(self).windows.windows@),
    {
        let (mut events, mut redraws, actions) = self.windows.process();
        events.push(Event::MainEventsCleared);
        events.append(&mut redraws);
        events.push(Event::RedrawEventsCleared);
        (events, actions)
    }

    /// The final event, LoopDestroyed, delivered exactly once.
    pub fn shutdown(&mut self) -> (r: Vec<Event>)
        ensures
            *final(self) == (Dispatcher { destroyed: true, ..*old(self) }),
            old(self).wf() ==> final(self).wf(),
            r@ == (if old(self).destroyed { Seq::<Event>::empty() } else { seq![Event::LoopDestroyed] }),
    {
        let mut out: Vec<Event> = Vec::new();
        if !self.destroyed {
            out.push(Event::LoopDestroyed);
            self.destroyed = true;
        }
        out
    }
}

/// A deadline that passes quietly: under WaitUntil, with no message
/// handled by the last dispatch and no key repeat pending, the loop blocks
/// exactly until the deadline, and waking at or after it reports
/// ResumeTimeReached for that deadline.
pub proof fn lemma_wait_until_resumes(deadline: u64, start: u64, now: u64)
    requires
        start <= deadline,
        deadline <= now,
    ensures
        wait_timeout_of(ControlFlow::WaitUntil(deadline), false, start, None)
            == Some(Timeout::Millis((deadline - start) as u64)),
        start_cause_of(ControlFlow::WaitUntil(deadline), start, now)
            == Some(StartCause::ResumeTimeReached { start, requested_resume: deadline }),
{
}

} // verus!
