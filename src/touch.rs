//! The touch translator: an ordered list of active contacts keyed by the
//! protocol's contact id.
use vstd::prelude::*;
use crate::event::{WindowId, Event, WindowEvent, TouchPhase, wev, to_physical_position};
use crate::pointer::physical_of;
use crate::window::{WindowState, WindowStore, lookup};

verus! {

/// A touch notification. Positions are in 24.8 fixed-point logical units.
#[derive(Debug, Copy, Clone, PartialEq, Eq, Structural)]
pub enum TouchEvent {
    Down { window: WindowId, id: i32, x: i32, y: i32 },
    Up { id: i32 },
    Motion { id: i32, x: i32, y: i32 },
    Frame,
    Cancel,
}

/// An active contact and its last known logical position.
#[derive(Debug, Copy, Clone, PartialEq, Eq, Structural)]
pub struct TouchPoint {
    pub window: WindowId,
    pub id: i32,
    pub x: i32,
    pub y: i32,
}

pub open spec fn contact_ids_unique(ps: Seq<TouchPoint>) -> bool {
    forall|i: int, j: int| 0 <= i < ps.len() && 0 <= j < ps.len() && ps[i].id == ps[j].id ==> i == j
}

pub open spec fn has_contact(ps: Seq<TouchPoint>, id: i32) -> bool {
    exists|i: int| 0 <= i < ps.len() && ps[i].id == id
}

/// Position of the contact with the given id.
pub open spec fn contact_index(ps: Seq<TouchPoint>, id: i32) -> Option<int> {
    if has_contact(ps, id) {
        Some(choose|i: int| 0 <= i < ps.len() && ps[i].id == id)
    } else {
        None
    }
}

proof fn lemma_contact_index(ps: Seq<TouchPoint>, id: i32, i: int)
    requires
        contact_ids_unique(ps),
        0 <= i < ps.len(),
        ps[i].id == id,
    ensures
        contact_index(ps, id) == Some(i),
{
    assert(has_contact(ps, id));
}

/// Scale factor of a window, taken as 1 once the window is gone.
pub open spec fn scale_or_one(ws: Seq<WindowState>, id: WindowId) -> u32 {
    match lookup(ws, id) {
        Some(w) => w.scale_factor,
        None => 1,
    }
}

pub open spec fn touch_event_of(ws: Seq<WindowState>, p: TouchPoint, phase: TouchPhase) -> Event {
    wev(p.window, WindowEvent::Touch { phase, location: physical_of(p.x, p.y, scale_or_one(ws, p.window)), id: p.id })
}

/// The contacts without the one that has id `id`.
pub open spec fn without_contact(ps: Seq<TouchPoint>, id: i32) -> Seq<TouchPoint> {
    match contact_index(ps, id) {
        Some(i) => ps.remove(i),
        None => ps,
    }
}

/// Active contacts after one notification.
pub open spec fn touch_next(ps: Seq<TouchPoint>, ev: TouchEvent) -> Seq<TouchPoint> {
    match ev {
        TouchEvent::Down { window, id, x, y } => without_contact(ps, id).push(TouchPoint { window, id, x, y }),
        TouchEvent::Up { id } => without_contact(ps, id),
        TouchEvent::Motion { id, x, y } => match contact_index(ps, id) {
            Some(i) => ps.update(i, TouchPoint { x, y, ..ps[i] }),
            None => ps,
        },
        TouchEvent::Frame => ps,
        TouchEvent::Cancel => Seq::empty(),
    }
}

/// Events emitted for one notification.
pub open spec fn touch_output(ps: Seq<TouchPoint>, ev: TouchEvent, ws: Seq<WindowState>) -> Seq<Event> {
    match ev {
        TouchEvent::Down { window, id, x, y } =>
            seq![touch_event_of(ws, TouchPoint { window, id, x, y }, TouchPhase::Started)],
        TouchEvent::Up { id } => match contact_index(ps, id) {
            Some(i) => seq![touch_event_of(ws, ps[i], TouchPhase::Ended)],
            None => Seq::empty(),
        },
        TouchEvent::Motion { id, x, y } => match contact_index(ps, id) {
            Some(i) => seq![touch_event_of(ws, TouchPoint { x, y, ..ps[i] }, TouchPhase::Moved)],
            None => Seq::empty(),
        },
        TouchEvent::Frame => Seq::empty(),
        TouchEvent::Cancel => ps.map_values(|p: TouchPoint| touch_event_of(ws, p, TouchPhase::Cancelled)),
    }
}

/// Per-device touch session.
pub struct Touch {
    points: Vec<TouchPoint>,
}

impl View for Touch {
    type V = Seq<TouchPoint>;

    closed spec fn view(&self) -> Seq<TouchPoint> {
        self.points@
    }
}

fn touch_event(windows: &WindowStore, p: TouchPoint, phase: TouchPhase) -> (r: Event)
    requires
        windows.wf(),
    ensures
        r == touch_event_of(windows.windows@, p, phase),
{
    let scale = match windows.scale_of(p.window) {
        Some(s) => s,
        None => 1,
    };
    let location = to_physical_position(p.x, p.y, scale);
    crate::event::event(p.window, WindowEvent::Touch { phase, location, id: p.id })
}

impl Touch {
    pub open spec fn wf(&self) -> bool {
        contact_ids_unique(self@)
    }

    pub fn new() -> (r: Touch)
        ensures
            r.wf(),
            r@.len() == 0,
    {
        Touch { points: Vec::new() }
    }

    /// Number of active contacts.
    pub fn len(&self) -> (r: usize)
        ensures
            r == self@.len(),
    {
        self.points.len()
    }

    fn position(&self, id: i32) -> (r: Option<usize>)
        requires
            self.wf(),
        ensures
            match r {
                Some(i) => i < self@.len() && contact_index(self@, id) == Some(i as int),
                None => contact_index(self@, id) == None::<int>,
            },
    {
        let mut i: usize = 0;
        while i < self.points.len()
            invariant
                i <= self.points@.len(),
                contact_ids_unique(self.points@),
                forall|j: int| 0 <= j < i ==> self.points@[j].id != id,
            decreases self.points@.len() - i,
        {
            if self.points[i].id == id {
                proof {
                    lemma_contact_index(self.points@, id, i as int);
                }
                return Some(i);
            }
            i = i + 1;
        }
        None
    }

    /// Translates one notification, appending the resulting events to `out`.
    /// A Down for an id that is still active replaces that contact; Up and
    /// Motion for an unknown id are ignored; Cancel ends every contact, in
    /// the order they were registered.
    pub fn handle(&mut self, event: TouchEvent, windows: &WindowStore, out: &mut Vec<Event>)
        requires
            old(self).wf(),
            windows.wf(),
        ensures
            final(self).wf(),
            final(self)@ == touch_next(old(self)@, event),
            final(out)@ == old(out)@ + touch_output(old(self)@, event, windows.windows@),
    {
        let ghost ws = windows.windows@;
        match event {
            TouchEvent::Down { window, id, x, y } => {
                if let Some(i) = self.position(id) {
                    self.points.remove(i);
                }
                let p = TouchPoint { window, id, x, y };
                out.push(touch_event(windows, p, TouchPhase::Started));
                self.points.push(p);
                proof {
                    let ps = old(self)@;
                    let rest = without_contact(ps, id);
                    assert(self.points@ =~= rest.push(p));
                    lemma_contact_ids_stay_unique(ps, event);
                    assert(out@ =~= old(out)@ + touch_output(ps, event, ws));
                }
            },
            TouchEvent::Up { id } => {
                if let Some(i) = self.position(id) {
                    let p = self.points.remove(i);
                    out.push(touch_event(windows, p, TouchPhase::Ended));
                }
                proof {
                    let ps = old(self)@;
                    assert(out@ =~= old(out)@ + touch_output(ps, event, ws));
                    lemma_without_contact(ps, id);
                }
            },
            TouchEvent::Motion { id, x, y } => {
                if let Some(i) = self.position(id) {
                    let old_p = self.points[i];
                    let p = TouchPoint { x, y, ..old_p };
                    self.points.set(i, p);
                    out.push(touch_event(windows, p, TouchPhase::Moved));
                }
                proof {
                    let ps = old(self)@;
                    assert(out@ =~= old(out)@ + touch_output(ps, event, ws));
                    assert forall|a: int, b: int| 0 <= a < self@.len() && 0 <= b < self@.len() && self@[a].id == self@[b].id
                        implies a == b by {
                        assert(self@[a].id == ps[a].id && self@[b].id == ps[b].id);
                    }
                }
            },
            TouchEvent::Frame => {
                proof {
                    assert(out@ =~= old(out)@ + touch_output(old(self)@, event, ws));
                }
            },
            TouchEvent::Cancel => {
                let mut i: usize = 0;
                while i < self.points.len()
                    invariant
                        i <= self.points@.len(),
                        self.points@ == old(self)@,
                        windows.wf(),
                        ws == windows.windows@,
                        out@ == old(out)@ + self.points@.take(i as int).map_values(
                            |p: TouchPoint| touch_event_of(ws, p, TouchPhase::Cancelled)),
                    decreases self.points@.len() - i,
                {
                    out.push(touch_event(windows, self.points[i], TouchPhase::Cancelled));
                    i = i + 1;
                    proof {
                        assert(self.points@.take(i as int) =~= self.points@.take(i - 1).push(self.points@[i - 1]));
                        assert(out@ =~= old(out)@ + self.points@.take(i as int).map_values(
                            |p: TouchPoint| touch_event_of(ws, p, TouchPhase::Cancelled)));
                    }
                }
                proof {
                    assert(self.points@.take(i as int) =~= self.points@);
                }
                self.points.clear();
                proof {
                    assert(self@ =~= Seq::<TouchPoint>::empty());
                }
            },
        }
    }
}

/// Contact ids stay unique: from any set of active contacts with distinct
/// ids, every notification (a Down with an id still active included) leaves
/// the ids distinct, and a Cancel leaves no contact at all.
pub proof fn lemma_contact_ids_stay_unique(ps: Seq<TouchPoint>, ev: TouchEvent)
    requires
        contact_ids_unique(ps),
    ensures
        contact_ids_unique(touch_next(ps, ev)),
        touch_next(ps, TouchEvent::Cancel).len() == 0,
{
    match ev {
        TouchEvent::Down { window, id, x, y } => {
            let rest = without_contact(ps, id);
            lemma_without_contact(ps, id);
            let n = rest.push(TouchPoint { window, id, x, y });
            assert forall|a: int, b: int| 0 <= a < n.len() && 0 <= b < n.len() && n[a].id == n[b].id
                implies a == b by {
                if a < rest.len() && b < rest.len() {
                    assert(n[a] == rest[a] && n[b] == rest[b]);
                } else if a < rest.len() {
                    assert(n[a] == rest[a]);
                } else if b < rest.len() {
                    assert(n[b] == rest[b]);
                }
            }
        },
        TouchEvent::Up { id } => {
            lemma_without_contact(ps, id);
        },
        TouchEvent::Motion { id, x, y } => {
            let n = touch_next(ps, ev);
            assert forall|a: int, b: int| 0 <= a < n.len() && 0 <= b < n.len() && n[a].id == n[b].id
                implies a == b by {
                assert(n[a].id == ps[a].id && n[b].id == ps[b].id);
            }
        },
        _ => {},
    }
}

proof fn lemma_without_contact(ps: Seq<TouchPoint>, id: i32)
    requires
        contact_ids_unique(ps),
    ensures
        contact_ids_unique(without_contact(ps, id)),
        forall|k: int| 0 <= k < without_contact(ps, id).len() ==> without_contact(ps, id)[k].id != id,
{
    let rest = without_contact(ps, id);
    if has_contact(ps, id) {
        let i = contact_index(ps, id).unwrap();
        assert forall|a: int, b: int| 0 <= a < rest.len() && 0 <= b < rest.len() && rest[a].id == rest[b].id
            implies a == b by {
            let a2 = if a < i { a } else { a + 1 };
            let b2 = if b < i { b } else { b + 1 };
            assert(rest[a] == ps[a2] && rest[b] == ps[b2]);
        }
        assert forall|k: int| 0 <= k < rest.len() implies rest[k].id != id by {
            let k2 = if k < i { k } else { k + 1 };
            assert(rest[k] == ps[k2]);
        }
    }
}

} // verus!
