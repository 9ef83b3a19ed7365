//! The pointer translator: tracks which window has pointer focus and rebuilds
//! one scroll event per gesture frame out of the partial axis notifications.
use vstd::prelude::*;
use crate::event::{
    WindowId, Event, WindowEvent, ElementState, MouseButton, MouseScrollDelta, TouchPhase,
    PhysicalPosition, wev, to_physical_position, to_physical_coord,
};
use crate::window::{WindowState, WindowStore, lookup};

verus! {

/// Which scroll axis an axis notification is about.
#[derive(Debug, Copy, Clone, PartialEq, Eq, Structural)]
pub enum Axis {
    VerticalScroll,
    HorizontalScroll,
}

/// A pointer notification from the display server. Coordinates and continuous
/// axis values are in 24.8 fixed-point logical units.
#[derive(Debug, Copy, Clone, PartialEq, Eq, Structural)]
pub enum PointerEvent {
    Enter { surface: WindowId, x: i32, y: i32 },
    Leave { surface: WindowId },
    Motion { x: i32, y: i32 },
    Button { button: u32, state: ElementState },
    Axis { axis: Axis, value: i32 },
    AxisDiscrete { axis: Axis, discrete: i32 },
    AxisSource,
    AxisStop,
    Frame,
}

/// Per-device pointer session.
pub struct Pointer {
    pub focus: Option<WindowId>,
    /// Pending continuous scroll, horizontal then vertical.
    pub axis_buffer: Option<(i64, i64)>,
    /// Pending discrete scroll, horizontal then vertical.
    pub axis_discrete_buffer: Option<(i64, i64)>,
    pub phase: TouchPhase,
}

/// Addition clamped to the range of `i64`.
pub open spec fn sat_add(a: int, b: int) -> int {
    if a + b > i64::MAX {
        i64::MAX as int
    } else if a + b < i64::MIN {
        i64::MIN as int
    } else {
        a + b
    }
}

pub fn saturating_add_i64(a: i64, b: i64) -> (r: i64)
    ensures
        r == sat_add(a as int, b as int),
{
    let s: i128 = a as i128 + b as i128;
    if s > i64::MAX as i128 {
        i64::MAX
    } else if s < i64::MIN as i128 {
        i64::MIN
    } else {
        s as i64
    }
}

/// The button that an input-event code stands for.
pub open spec fn button_of(code: u32) -> MouseButton {
    if code == 0x110 {
        MouseButton::Left
    } else if code == 0x111 {
        MouseButton::Right
    } else if code == 0x112 {
        MouseButton::Middle
    } else {
        MouseButton::Other(code)
    }
}

pub fn decode_button(code: u32) -> (r: MouseButton)
    ensures
        r == button_of(code),
{
    match code {
        0x110 => MouseButton::Left,
        0x111 => MouseButton::Right,
        0x112 => MouseButton::Middle,
        other => MouseButton::Other(other),
    }
}

/// Adds one axis value to a (horizontal, vertical) buffer. The vertical sign
/// is inverted: the protocol counts downwards as positive.
pub open spec fn accumulate(buf: Option<(i64, i64)>, axis: Axis, value: int) -> (i64, i64) {
    let (x, y) = match buf {
        Some(b) => b,
        None => (0i64, 0i64),
    };
    match axis {
        Axis::VerticalScroll => (x, sat_add(y as int, -value) as i64),
        Axis::HorizontalScroll => (sat_add(x as int, value) as i64, y),
    }
}

/// Phase after one more axis notification in the current gesture.
pub open spec fn advance_phase(p: TouchPhase) -> TouchPhase {
    match p {
        TouchPhase::Started | TouchPhase::Moved => TouchPhase::Moved,
        _ => TouchPhase::Started,
    }
}

/// What a frame flushes: continuous data first, else discrete data.
pub open spec fn frame_delta(p: Pointer) -> Option<MouseScrollDelta> {
    match p.axis_buffer {
        Some((x, y)) => Some(MouseScrollDelta::PixelDelta(x, y)),
        None => match p.axis_discrete_buffer {
            Some((x, y)) => Some(MouseScrollDelta::LineDelta(x, y)),
            None => None,
        },
    }
}

pub open spec fn physical_of(x: i32, y: i32, scale: u32) -> PhysicalPosition {
    PhysicalPosition {
        x: to_physical_coord(x as int, scale as int) as i64,
        y: to_physical_coord(y as int, scale as int) as i64,
    }
}

/// Pointer session after one notification.
pub open spec fn pointer_next(p: Pointer, ev: PointerEvent, ws: Seq<WindowState>) -> Pointer {
    match ev {
        PointerEvent::Enter { surface, .. } => if lookup(ws, surface).is_some() {
            Pointer { focus: Some(surface), ..p }
        } else {
            p
        },
        PointerEvent::Leave { surface } => if p.focus == Some(surface) && lookup(ws, surface).is_some() {
            Pointer { focus: None, ..p }
        } else {
            p
        },
        PointerEvent::Axis { axis, value } => Pointer {
            axis_buffer: Some(accumulate(p.axis_buffer, axis, value as int)),
            phase: advance_phase(p.phase),
            ..p
        },
        PointerEvent::AxisDiscrete { axis, discrete } => Pointer {
            axis_discrete_buffer: Some(accumulate(p.axis_discrete_buffer, axis, discrete as int)),
            phase: advance_phase(p.phase),
            ..p
        },
        PointerEvent::AxisStop => Pointer { phase: TouchPhase::Ended, ..p },
        PointerEvent::Frame => Pointer { axis_buffer: None, axis_discrete_buffer: None, ..p },
        _ => p,
    }
}

/// Events emitted for one notification.
pub open spec fn pointer_output(p: Pointer, ev: PointerEvent, ws: Seq<WindowState>) -> Seq<Event> {
    match ev {
        PointerEvent::Enter { surface, x, y } => match lookup(ws, surface) {
            Some(w) => seq![
                wev(surface, WindowEvent::CursorEntered),
                wev(surface, WindowEvent::CursorMoved(physical_of(x, y, w.scale_factor))),
            ],
            None => Seq::empty(),
        },
        PointerEvent::Leave { surface } => if p.focus == Some(surface) && lookup(ws, surface).is_some() {
            seq![wev(surface, WindowEvent::CursorLeft)]
        } else {
            Seq::empty()
        },
        PointerEvent::Motion { x, y } => match p.focus {
            Some(f) => match lookup(ws, f) {
                Some(w) => seq![wev(f, WindowEvent::CursorMoved(physical_of(x, y, w.scale_factor)))],
                None => Seq::empty(),
            },
            None => Seq::empty(),
        },
        PointerEvent::Button { button, state } => match p.focus {
            Some(f) => if lookup(ws, f).is_some() {
                seq![wev(f, WindowEvent::MouseInput { state, button: button_of(button) })]
            } else {
                Seq::empty()
            },
            None => Seq::empty(),
        },
        PointerEvent::Frame => match (p.focus, frame_delta(p)) {
            (Some(f), Some(d)) => if lookup(ws, f).is_some() {
                seq![wev(f, WindowEvent::MouseWheel { delta: d, phase: p.phase })]
            } else {
                Seq::empty()
            },
            _ => Seq::empty(),
        },
        _ => Seq::empty(),
    }
}

/// Whether the notification asks for the cursor image to be set again.
pub open spec fn pointer_reloads_cursor(ev: PointerEvent, ws: Seq<WindowState>) -> bool {
    match ev {
        PointerEvent::Enter { surface, .. } => lookup(ws, surface).is_some(),
        _ => false,
    }
}

fn add_axis(buf: Option<(i64, i64)>, axis: Axis, value: i32) -> (r: (i64, i64))
    ensures
        r == accumulate(buf, axis, value as int),
{
    let (x, y) = match buf {
        Some(b) => b,
        None => (0i64, 0i64),
    };
    match axis {
        Axis::VerticalScroll => (x, saturating_add_i64(y, -(value as i64))),
        Axis::HorizontalScroll => (saturating_add_i64(x, value as i64), y),
    }
}

fn next_phase(p: TouchPhase) -> (r: TouchPhase)
    ensures
        r == advance_phase(p),
{
    match p {
        TouchPhase::Started | TouchPhase::Moved => TouchPhase::Moved,
        _ => TouchPhase::Started,
    }
}

impl Pointer {
    /// A session with no focus, no pending scroll and no gesture in progress.
    pub fn new() -> (r: Pointer)
        ensures
            r.focus.is_none(),
            r.axis_buffer.is_none(),
            r.axis_discrete_buffer.is_none(),
            r.phase == TouchPhase::Ended,
    {
        Pointer { focus: None, axis_buffer: None, axis_discrete_buffer: None, phase: TouchPhase::Ended }
    }

    /// Translates one notification: appends the resulting events to `out` and
    /// returns whether the cursor image must be applied to this pointer again.
    pub fn handle(&mut self, event: PointerEvent, windows: &WindowStore, out: &mut Vec<Event>) -> (reload_cursor: bool)
        requires
            windows.wf(),
        ensures
            *final(self) == pointer_next(*old(self), event, windows.windows@),
            final(out)@ == old(out)@ + pointer_output(*old(self), event, windows.windows@),
            reload_cursor == pointer_reloads_cursor(event, windows.windows@),
    {
        let ghost ws = windows.windows@;
        match event {
            PointerEvent::Enter { surface, x, y } => {
                match windows.scale_of(surface) {
                    Some(scale) => {
                        self.focus = Some(surface);
                        out.push(crate::event::event(surface, WindowEvent::CursorEntered));
                        let pos = to_physical_position(x, y, scale);
                        out.push(crate::event::event(surface, WindowEvent::CursorMoved(pos)));
                        proof {
                            assert(out@ =~= old(out)@ + pointer_output(*old(self), event, ws));
                        }
                        true
                    },
                    None => false,
                }
            },
            PointerEvent::Leave { surface } => {
                if self.focus == Some(surface) && windows.find(surface).is_some() {
                    self.focus = None;
                    out.push(crate::event::event(surface, WindowEvent::CursorLeft));
                }
                proof {
                    assert(out@ =~= old(out)@ + pointer_output(*old(self), event, ws));
                }
                false
            },
            PointerEvent::Motion { x, y } => {
                if let Some(f) = self.focus {
                    if let Some(scale) = windows.scale_of(f) {
                        let pos = to_physical_position(x, y, scale);
                        out.push(crate::event::event(f, WindowEvent::CursorMoved(pos)));
                    }
                }
                proof {
                    assert(out@ =~= old(out)@ + pointer_output(*old(self), event, ws));
                }
                false
            },
            PointerEvent::Button { button, state } => {
                if let Some(f) = self.focus {
                    if windows.find(f).is_some() {
                        let b = decode_button(button);
                        out.push(crate::event::event(f, WindowEvent::MouseInput { state, button: b }));
                    }
                }
                proof {
                    assert(out@ =~= old(out)@ + pointer_output(*old(self), event, ws));
                }
                false
            },
            PointerEvent::Axis { axis, value } => {
                self.axis_buffer = Some(add_axis(self.axis_buffer, axis, value));
                self.phase = next_phase(self.phase);
                proof {
                    assert(out@ =~= old(out)@ + pointer_output(*old(self), event, ws));
                }
                false
            },
            PointerEvent::AxisDiscrete { axis, discrete } => {
                self.axis_discrete_buffer = Some(add_axis(self.axis_discrete_buffer, axis, discrete));
                self.phase = next_phase(self.phase);
                proof {
                    assert(out@ =~= old(out)@ + pointer_output(*old(self), event, ws));
                }
                false
            },
            PointerEvent::AxisSource => {
                proof {
                    assert(out@ =~= old(out)@ + pointer_output(*old(self), event, ws));
                }
                false
            },
            PointerEvent::AxisStop => {
                self.phase = TouchPhase::Ended;
                proof {
                    assert(out@ =~= old(out)@ + pointer_output(*old(self), event, ws));
                }
                false
            },
            PointerEvent::Frame => {
                let delta = match self.axis_buffer {
                    Some((x, y)) => Some(MouseScrollDelta::PixelDelta(x, y)),
                    None => match self.axis_discrete_buffer {
                        Some((x, y)) => Some(MouseScrollDelta::LineDelta(x, y)),
                        None => None,
                    },
                };
                // Both buffers are drained even when nothing is delivered, so
                // that abandoned scroll data cannot leak into a later gesture.
                self.axis_buffer = None;
                self.axis_discrete_buffer = None;
                if let (Some(f), Some(d)) = (self.focus, delta) {
                    if windows.find(f).is_some() {
                        out.push(crate::event::event(f, WindowEvent::MouseWheel { delta: d, phase: self.phase }));
                    }
                }
                proof {
                    assert(out@ =~= old(out)@ + pointer_output(*old(self), event, ws));
                }
                false
            },
        }
    }
}

/// Session and emitted events after a sequence of notifications, with the
/// window table left unchanged throughout.
pub open spec fn pointer_run(p: Pointer, evs: Seq<PointerEvent>, ws: Seq<WindowState>) -> (Pointer, Seq<Event>)
    decreases evs.len(),
{
    if evs.len() == 0 {
        (p, Seq::empty())
    } else {
        let (q, out) = pointer_run(p, evs.drop_last(), ws);
        (pointer_next(q, evs.last(), ws), out + pointer_output(q, evs.last(), ws))
    }
}

pub open spec fn is_crossing(ev: PointerEvent) -> bool {
    ev is Enter || ev is Leave
}

/// One step of `crossing_track`.
pub open spec fn track_step(t: Option<Option<WindowId>>, e: Event) -> Option<Option<WindowId>> {
    match t {
        None => None,
        Some(o) => match e {
            Event::WindowEvent { window_id, event: WindowEvent::CursorEntered } => if o.is_none() {
                Some(Some(window_id))
            } else {
                None
            },
            Event::WindowEvent { window_id, event: WindowEvent::CursorLeft } => if o == Some(window_id) {
                Some(None)
            } else {
                None
            },
            _ => Some(o),
        },
    }
}

/// Follows the CursorEntered / CursorLeft events of `s`, starting with the
/// pointer inside `open`: the window the pointer is in at the end, or `None`
/// if some CursorEntered comes while inside a window or some CursorLeft is not
/// addressed to the window last entered.
pub open spec fn crossing_track(s: Seq<Event>, open: Option<WindowId>) -> Option<Option<WindowId>>
    decreases s.len(),
{
    if s.len() == 0 {
        Some(open)
    } else {
        track_step(crossing_track(s.drop_last(), open), s.last())
    }
}

pub open spec fn counts_as(e: Event, k: WindowEvent) -> int {
    match e {
        Event::WindowEvent { event, .. } => if event == k { 1int } else { 0int },
        _ => 0int,
    }
}

/// Number of events of `s` that carry the window event `k`, whatever the window.
pub open spec fn count_window_event(s: Seq<Event>, k: WindowEvent) -> int
    decreases s.len(),
{
    if s.len() == 0 {
        0
    } else {
        count_window_event(s.drop_last(), k) + counts_as(s.last(), k)
    }
}

pub open spec fn focus_count(f: Option<WindowId>) -> int {
    if f.is_some() { 1 } else { 0 }
}

proof fn lemma_push_one(a: Seq<Event>, x: Event, open: Option<WindowId>)
    ensures
        crossing_track(a.push(x), open) == track_step(crossing_track(a, open), x),
        count_window_event(a.push(x), WindowEvent::CursorEntered)
            == count_window_event(a, WindowEvent::CursorEntered) + counts_as(x, WindowEvent::CursorEntered),
        count_window_event(a.push(x), WindowEvent::CursorLeft)
            == count_window_event(a, WindowEvent::CursorLeft) + counts_as(x, WindowEvent::CursorLeft),
{
    assert(a.push(x).drop_last() =~= a);
}

/// The induction step of `lemma_crossings_pair_up`.
proof fn lemma_crossing_step(q: Pointer, out: Seq<Event>, open: Option<WindowId>, ev: PointerEvent, ws: Seq<WindowState>)
    requires
        is_crossing(ev),
        ev is Enter ==> q.focus.is_none(),
        crossing_track(out, open) == Some(q.focus),
        count_window_event(out, WindowEvent::CursorEntered) - count_window_event(out, WindowEvent::CursorLeft)
            == focus_count(q.focus) - focus_count(open),
    ensures
        crossing_track(out + pointer_output(q, ev, ws), open) == Some(pointer_next(q, ev, ws).focus),
        count_window_event(out + pointer_output(q, ev, ws), WindowEvent::CursorEntered)
            - count_window_event(out + pointer_output(q, ev, ws), WindowEvent::CursorLeft)
            == focus_count(pointer_next(q, ev, ws).focus) - focus_count(open),
{
    match ev {
        PointerEvent::Enter { surface, x, y } => {
            match lookup(ws, surface) {
                Some(w) => {
                    let e1 = wev(surface, WindowEvent::CursorEntered);
                    let e2 = wev(surface, WindowEvent::CursorMoved(physical_of(x, y, w.scale_factor)));
                    assert(out + pointer_output(q, ev, ws) =~= out.push(e1).push(e2));
                    lemma_push_one(out, e1, open);
                    lemma_push_one(out.push(e1), e2, open);
                },
                None => {
                    assert(out + pointer_output(q, ev, ws) =~= out);
                },
            }
        },
        PointerEvent::Leave { surface } => {
            if q.focus == Some(surface) && lookup(ws, surface).is_some() {
                let e = wev(surface, WindowEvent::CursorLeft);
                assert(out + pointer_output(q, ev, ws) =~= out.push(e));
                lemma_push_one(out, e, open);
            } else {
                assert(out + pointer_output(q, ev, ws) =~= out);
            }
        },
        _ => {},
    }
}

/// Crossings pair up: from any pointer session, through any sequence of
/// Enter and Leave notifications in which the server enters a surface only
/// while the pointer is outside every window, the CursorEntered and
/// CursorLeft events alternate, each CursorLeft goes to the window that was
/// entered last, and their counts differ by at most one.
pub proof fn lemma_crossings_pair_up(p: Pointer, evs: Seq<PointerEvent>, ws: Seq<WindowState>)
    requires
        forall|k: int| 0 <= k < evs.len() ==> is_crossing(#[trigger] evs[k]),
        forall|k: int| 0 <= k < evs.len() && (#[trigger] evs[k]) is Enter
            ==> pointer_run(p, evs.take(k), ws).0.focus.is_none(),
    ensures
        crossing_track(pointer_run(p, evs, ws).1, p.focus) == Some(pointer_run(p, evs, ws).0.focus),
        count_window_event(pointer_run(p, evs, ws).1, WindowEvent::CursorEntered)
            - count_window_event(pointer_run(p, evs, ws).1, WindowEvent::CursorLeft)
            == focus_count(pointer_run(p, evs, ws).0.focus) - focus_count(p.focus),
        -1 <= count_window_event(pointer_run(p, evs, ws).1, WindowEvent::CursorEntered)
            - count_window_event(pointer_run(p, evs, ws).1, WindowEvent::CursorLeft) <= 1,
    decreases evs.len(),
{
    if evs.len() > 0 {
        let pre = evs.drop_last();
        assert forall|k: int| 0 <= k < pre.len() implies is_crossing(#[trigger] pre[k]) by {
            assert(pre[k] == evs[k]);
        }
        assert forall|k: int| 0 <= k < pre.len() && (#[trigger] pre[k]) is Enter
            implies pointer_run(p, pre.take(k), ws).0.focus.is_none() by {
            assert(pre[k] == evs[k]);
            assert(pre.take(k) =~= evs.take(k));
        }
        lemma_crossings_pair_up(p, pre, ws);
        let (q, out) = pointer_run(p, pre, ws);
        assert(evs.take(evs.len() - 1) =~= pre);
        assert(is_crossing(evs[evs.len() - 1]));
        lemma_crossing_step(q, out, p.focus, evs.last(), ws);
    }
}

/// Scroll frames: after any run of scroll notifications closed by a Frame,
/// the Frame emits exactly one MouseWheel event, to the focused window and
/// carrying the pending delta and gesture phase, when the pointer is in a
/// live window and either buffer holds data, and nothing otherwise; both
/// buffers are empty afterwards.
pub proof fn lemma_frame_flushes_once(p: Pointer, evs: Seq<PointerEvent>, ws: Seq<WindowState>)
    requires
        forall|k: int| 0 <= k < evs.len() ==> {
            let e = #[trigger] evs[k];
            e is Axis || e is AxisDiscrete || e is AxisStop || e is AxisSource
        },
    ensures
        ({
            let (q, _) = pointer_run(p, evs, ws);
            let (r, out) = pointer_run(p, evs.push(PointerEvent::Frame), ws);
            let (_, out_before) = pointer_run(p, evs, ws);
            &&& r.axis_buffer.is_none()
            &&& r.axis_discrete_buffer.is_none()
            &&& out_before.len() == 0
            &&& out == (if (q.focus matches Some(f) && lookup(ws, f).is_some())
                && (q.axis_buffer.is_some() || q.axis_discrete_buffer.is_some()) {
                seq![wev(q.focus.unwrap(), WindowEvent::MouseWheel { delta: frame_delta(q).unwrap(), phase: q.phase })]
            } else {
                Seq::<Event>::empty()
            })
        }),
{
    assert(evs.push(PointerEvent::Frame).drop_last() =~= evs);
    lemma_scroll_emits_nothing(p, evs, ws);
    let (q, out0) = pointer_run(p, evs, ws);
    assert(out0 + pointer_output(q, PointerEvent::Frame, ws) =~= pointer_output(q, PointerEvent::Frame, ws));
}

proof fn lemma_scroll_emits_nothing(p: Pointer, evs: Seq<PointerEvent>, ws: Seq<WindowState>)
    requires
        forall|k: int| 0 <= k < evs.len() ==> {
            let e = #[trigger] evs[k];
            e is Axis || e is AxisDiscrete || e is AxisStop || e is AxisSource
        },
    ensures
        pointer_run(p, evs, ws).1.len() == 0,
        pointer_run(p, evs, ws).0.focus == p.focus,
    decreases evs.len(),
{
    if evs.len() > 0 {
        let pre = evs.drop_last();
        assert forall|k: int| 0 <= k < pre.len() implies {
            let e = #[trigger] pre[k];
            e is Axis || e is AxisDiscrete || e is AxisStop || e is AxisSource
        } by {
            assert(pre[k] == evs[k]);
        }
        lemma_scroll_emits_nothing(p, pre, ws);
        let e = evs[evs.len() - 1];
        assert(e is Axis || e is AxisDiscrete || e is AxisStop || e is AxisSource);
    }
}

} // verus!
