//! The keyboard translator: tracks the held modifiers and the key being
//! repeated, and turns key notifications into keyboard and character events.
use vstd::prelude::*;
use crate::event::{WindowId, Event, WindowEvent, ElementState, KeyboardInput, ModifiersState, wev};

verus! {

/// Delay before a held key first repeats, in milliseconds.
pub const REPEAT_DELAY_MS: u64 = 300;
/// Interval between two repeats of a held key, in milliseconds.
pub const REPEAT_INTERVAL_MS: u64 = 100;

/// Whether losing keyboard focus first reports the modifiers as released,
/// unless asked otherwise: by default it does not, and only Focused(false)
/// is sent.
pub const RESET_MODIFIERS_ON_LEAVE_DEFAULT: bool = false;

/// A keyboard notification.
#[derive(Debug)]
pub enum KeyboardEvent {
    Enter { surface: WindowId },
    Leave { surface: WindowId },
    /// A key of the focused window changed state.
    Key {
        rawkey: u32,
        /// The symbolic key, where the keymap gives one.
        keysym: Option<u32>,
        state: ElementState,
        /// The characters the key produced. A pressed key that produces
        /// characters repeats while held; modifier and function keys, which
        /// produce none, do not.
        text: Vec<char>,
    },
    /// The held modifiers changed.
    Modifiers { modifiers: ModifiersState },
}

/// A key already held when a window gains keyboard focus.
#[derive(Debug, Copy, Clone, PartialEq, Eq, Structural)]
pub struct HeldKey {
    pub rawkey: u32,
    pub keysym: u32,
}

/// The key being repeated, as the model sees it.
pub struct RepeatModel {
    pub surface: WindowId,
    pub rawkey: u32,
    pub keysym: Option<u32>,
    pub text: Seq<char>,
    /// When it repeats next, in milliseconds on the loop's clock.
    pub next_at: u64,
}

pub struct KeyboardModel {
    /// The window that has keyboard focus.
    pub focus: Option<WindowId>,
    pub modifiers: ModifiersState,
    pub repeat: Option<RepeatModel>,
    /// Whether losing focus first reports the modifiers as released.
    pub reset_modifiers_on_leave: bool,
}

struct RepeatedKey {
    surface: WindowId,
    rawkey: u32,
    keysym: Option<u32>,
    text: Vec<char>,
    next_at: u64,
}

/// Per-seat keyboard session.
pub struct Keyboard {
    focus: Option<WindowId>,
    modifiers: ModifiersState,
    repeat: Option<RepeatedKey>,
    reset_modifiers_on_leave: bool,
}

closed spec fn repeat_view(r: Option<RepeatedKey>) -> Option<RepeatModel> {
    match r {
        Some(k) => Some(RepeatModel {
            surface: k.surface,
            rawkey: k.rawkey,
            keysym: k.keysym,
            text: k.text@,
            next_at: k.next_at,
        }),
        None => None,
    }
}

impl View for Keyboard {
    type V = KeyboardModel;

    closed spec fn view(&self) -> KeyboardModel {
        KeyboardModel {
            focus: self.focus,
            modifiers: self.modifiers,
            repeat: repeat_view(self.repeat),
            reset_modifiers_on_leave: self.reset_modifiers_on_leave,
        }
    }
}

/// `a + b`, or `u64::MAX` when that does not fit.
pub open spec fn sat_add_u64(a: u64, b: u64) -> u64 {
    if a + b > u64::MAX { u64::MAX } else { (a + b) as u64 }
}

/// One character event per character of `text`.
pub open spec fn char_events(surface: WindowId, text: Seq<char>) -> Seq<Event>
    decreases text.len(),
{
    if text.len() == 0 {
        Seq::empty()
    } else {
        char_events(surface, text.drop_last()).push(wev(surface, WindowEvent::ReceivedCharacter(text.last())))
    }
}

/// The events for one key press or release: the keyboard input, then one
/// character event per character produced.
pub open spec fn key_events(
    surface: WindowId,
    rawkey: u32,
    keysym: Option<u32>,
    state: ElementState,
    text: Seq<char>,
    modifiers: ModifiersState,
    is_synthetic: bool,
) -> Seq<Event> {
    seq![wev(surface, WindowEvent::KeyboardInput {
        input: KeyboardInput { scancode: rawkey, state, virtual_keycode: keysym, modifiers },
        is_synthetic,
    })] + char_events(surface, text)
}

/// The synthetic presses that stand for keys held when focus arrived.
pub open spec fn held_key_events(surface: WindowId, held: Seq<HeldKey>, modifiers: ModifiersState) -> Seq<Event>
    decreases held.len(),
{
    if held.len() == 0 {
        Seq::empty()
    } else {
        held_key_events(surface, held.drop_last(), modifiers) + key_events(surface, held.last().rawkey,
            Some(held.last().keysym), ElementState::Pressed, Seq::empty(), modifiers, true)
    }
}

/// Session after one notification received at time `now`.
pub open spec fn keyboard_next(m: KeyboardModel, ev: KeyboardEvent, now: u64) -> KeyboardModel {
    match ev {
        KeyboardEvent::Enter { surface } => KeyboardModel { focus: Some(surface), repeat: None, ..m },
        KeyboardEvent::Leave { .. } => KeyboardModel { focus: None, repeat: None, ..m },
        KeyboardEvent::Key { rawkey, keysym, state, text } => match m.focus {
            None => m,
            Some(surface) => if state == ElementState::Pressed && text@.len() > 0 {
                KeyboardModel {
                    repeat: Some(RepeatModel {
                        surface,
                        rawkey,
                        keysym,
                        text: text@,
                        next_at: sat_add_u64(now, REPEAT_DELAY_MS),
                    }),
                    ..m
                }
            } else if state == ElementState::Released && (m.repeat matches Some(r) && r.rawkey == rawkey) {
                KeyboardModel { repeat: None, ..m }
            } else {
                m
            },
        },
        KeyboardEvent::Modifiers { modifiers } => KeyboardModel { modifiers, ..m },
    }
}

/// Events emitted for one notification.
pub open spec fn keyboard_output(m: KeyboardModel, ev: KeyboardEvent, is_synthetic: bool) -> Seq<Event> {
    match ev {
        KeyboardEvent::Enter { surface } => seq![
            wev(surface, WindowEvent::Focused(true)),
            wev(surface, WindowEvent::ModifiersChanged(m.modifiers)),
        ],
        KeyboardEvent::Leave { surface } => if m.reset_modifiers_on_leave && m.modifiers != ModifiersState::none() {
            seq![
                wev(surface, WindowEvent::ModifiersChanged(ModifiersState::none())),
                wev(surface, WindowEvent::Focused(false)),
            ]
        } else {
            seq![wev(surface, WindowEvent::Focused(false))]
        },
        KeyboardEvent::Key { rawkey, keysym, state, text, .. } => match m.focus {
            Some(surface) => key_events(surface, rawkey, keysym, state, text@, m.modifiers, is_synthetic),
            None => Seq::empty(),
        },
        KeyboardEvent::Modifiers { modifiers } => match m.focus {
            Some(surface) => seq![wev(surface, WindowEvent::ModifiersChanged(modifiers))],
            None => Seq::empty(),
        },
    }
}

fn push_key_events(
    surface: WindowId,
    rawkey: u32,
    keysym: Option<u32>,
    state: ElementState,
    text: &Vec<char>,
    modifiers: ModifiersState,
    is_synthetic: bool,
    out: &mut Vec<Event>,
)
    ensures
        final(out)@ == old(out)@ + key_events(surface, rawkey, keysym, state, text@, modifiers, is_synthetic),
{
    let input = KeyboardInput { scancode: rawkey, state, virtual_keycode: keysym, modifiers };
    out.push(crate::event::event(surface, WindowEvent::KeyboardInput { input, is_synthetic }));
    let ghost first = out@;
    let mut i: usize = 0;
    proof {
        assert(first + char_events(surface, text@.take(0)) =~= first);
    }
    while i < text.len()
        invariant
            i <= text@.len(),
            out@ == first + char_events(surface, text@.take(i as int)),
        decreases text@.len() - i,
    {
        out.push(crate::event::event(surface, WindowEvent::ReceivedCharacter(text[i])));
        i = i + 1;
        proof {
            assert(text@.take(i as int) =~= text@.take(i - 1).push(text@[i - 1]));
            assert(text@.take(i as int).drop_last() =~= text@.take(i - 1));
            assert(out@ =~= first + char_events(surface, text@.take(i as int)));
        }
    }
    proof {
        assert(text@.take(i as int) =~= text@);
        assert(out@ =~= old(out)@ + key_events(surface, rawkey, keysym, state, text@, modifiers, is_synthetic));
    }
}

fn saturating_add_u64(a: u64, b: u64) -> (r: u64)
    ensures
        r == sat_add_u64(a, b),
{
    if a > u64::MAX - b { u64::MAX } else { a + b }
}

impl Keyboard {
    /// A key repeats only for the window that has keyboard focus.
    pub open spec fn wf(&self) -> bool {
        self@.repeat matches Some(r) ==> self@.focus == Some(r.surface)
    }

    /// A session with no modifier held and no key repeating.
    pub fn new(reset_modifiers_on_leave: bool) -> (r: Keyboard)
        ensures
            r.wf(),
            r@.focus.is_none(),
            r@.modifiers == ModifiersState::none(),
            r@.repeat.is_none(),
            r@.reset_modifiers_on_leave == reset_modifiers_on_leave,
    {
        Keyboard { focus: None, modifiers: ModifiersState::empty(), repeat: None, reset_modifiers_on_leave }
    }

    /// The tracked modifiers.
    pub fn modifiers(&self) -> (r: ModifiersState)
        ensures
            r == self@.modifiers,
    {
        self.modifiers
    }

    /// When the held key repeats next, if one is held.
    pub fn next_repeat(&self) -> (r: Option<u64>)
        ensures
            r == (match self@.repeat {
                Some(k) => Some(k.next_at),
                None => None::<u64>,
            }),
    {
        match &self.repeat {
            Some(k) => Some(k.next_at),
            None => None,
        }
    }

    /// Translates one notification received at time `now` (milliseconds),
    /// appending the resulting events to `out`. Keys and modifier changes go
    /// to the window with keyboard focus; without focus a key is ignored. A
    /// change of focus stops any repeat. `is_synthetic` marks keys replayed
    /// on focus to stand for keys already held.
    pub fn handle(&mut self, event: KeyboardEvent, is_synthetic: bool, now: u64, out: &mut Vec<Event>)
        requires
            old(self).wf(),
        ensures
            final(self).wf(),
            final(self)@ == keyboard_next(old(self)@, event, now),
            final(out)@ == old(out)@ + keyboard_output(old(self)@, event, is_synthetic),
    {
        let ghost ev = event;
        match event {
            KeyboardEvent::Enter { surface } => {
                self.focus = Some(surface);
                self.repeat = None;
                out.push(crate::event::event(surface, WindowEvent::Focused(true)));
                out.push(crate::event::event(surface, WindowEvent::ModifiersChanged(self.modifiers)));
                proof {
                    assert(out@ =~= old(out)@ + keyboard_output(old(self)@, ev, is_synthetic));
                }
            },
            KeyboardEvent::Leave { surface } => {
                self.focus = None;
                self.repeat = None;
                if self.reset_modifiers_on_leave && !self.modifiers.is_empty() {
                    out.push(crate::event::event(surface, WindowEvent::ModifiersChanged(ModifiersState::empty())));
                }
                out.push(crate::event::event(surface, WindowEvent::Focused(false)));
                proof {
                    assert(out@ =~= old(out)@ + keyboard_output(old(self)@, ev, is_synthetic));
                }
            },
            KeyboardEvent::Key { rawkey, keysym, state, text } => {
                let surface = match self.focus {
                    Some(f) => f,
                    None => {
                        proof {
                            assert(out@ =~= old(out)@ + keyboard_output(old(self)@, ev, is_synthetic));
                        }
                        return;
                    },
                };
                push_key_events(surface, rawkey, keysym, state, &text, self.modifiers, is_synthetic, out);
                match state {
                    ElementState::Pressed => {
                        if text.len() > 0 {
                            let next_at = saturating_add_u64(now, REPEAT_DELAY_MS);
                            self.repeat = Some(RepeatedKey { surface, rawkey, keysym, text, next_at });
                        }
                    },
                    ElementState::Released => {
                        let same = match &self.repeat {
                            Some(k) => k.rawkey == rawkey,
                            None => false,
                        };
                        if same {
                            self.repeat = None;
                        }
                    },
                }
            },
            KeyboardEvent::Modifiers { modifiers } => {
                self.modifiers = modifiers;
                if let Some(surface) = self.focus {
                    out.push(crate::event::event(surface, WindowEvent::ModifiersChanged(modifiers)));
                }
                proof {
                    assert(out@ =~= old(out)@ + keyboard_output(old(self)@, ev, is_synthetic));
                }
            },
        }
    }

    /// Emits the held key again, as a press carrying the current modifiers,
    /// if its repeat time has come by `now`; the next repeat follows one
    /// interval later.
    pub fn repeat_tick(&mut self, now: u64, out: &mut Vec<Event>)
        ensures
            match old(self)@.repeat {
                Some(k) => if now >= k.next_at {
                    &&& final(self)@ == (KeyboardModel {
                        repeat: Some(RepeatModel { next_at: sat_add_u64(now, REPEAT_INTERVAL_MS), ..k }),
                        ..old(self)@
                    })
                    &&& final(out)@ == old(out)@ + key_events(k.surface, k.rawkey, k.keysym,
                        ElementState::Pressed, k.text, old(self)@.modifiers, false)
                } else {
                    final(self)@ == old(self)@ && final(out)@ == old(out)@
                },
                None => final(self)@ == old(self)@ && final(out)@ == old(out)@,
            },
    {
        let modifiers = self.modifiers;
        match &mut self.repeat {
            Some(k) => {
                if now >= k.next_at {
                    push_key_events(k.surface, k.rawkey, k.keysym, ElementState::Pressed, &k.text, modifiers, false, out);
                    k.next_at = saturating_add_u64(now, REPEAT_INTERVAL_MS);
                }
            },
            None => {},
        }
    }

    /// Reports the keys already held when the focused window gained focus,
    /// each as a synthetic press (no characters, no repeat). Nothing is
    /// reported without focus.
    pub fn replay_held_keys(&mut self, held: &Vec<HeldKey>, out: &mut Vec<Event>)
        ensures
            final(self)@ == old(self)@,
            final(out)@ == old(out)@ + match old(self)@.focus {
                Some(f) => held_key_events(f, held@, old(self)@.modifiers),
                None => Seq::empty(),
            },
    {
        let surface = match self.focus {
            Some(f) => f,
            None => {
                proof {
                    assert(out@ =~= old(out)@ + Seq::<Event>::empty());
                }
                return;
            },
        };
        let no_text: Vec<char> = Vec::new();
        let mut i: usize = 0;
        proof {
            assert(held@.take(0) =~= Seq::<HeldKey>::empty());
            assert(out@ =~= old(out)@ + held_key_events(surface, held@.take(0), self.modifiers));
        }
        while i < held.len()
            invariant
                i <= held@.len(),
                self@ == old(self)@,
                self@.focus == Some(surface),
                no_text@ == Seq::<char>::empty(),
                out@ == old(out)@ + held_key_events(surface, held@.take(i as int), self@.modifiers),
            decreases held@.len() - i,
        {
            let k = held[i];
            let ghost before = out@;
            push_key_events(surface, k.rawkey, Some(k.keysym), ElementState::Pressed, &no_text, self.modifiers, true, out);
            i = i + 1;
            proof {
                assert(held@.take(i as int).drop_last() =~= held@.take(i - 1));
                assert(out@ =~= old(out)@ + held_key_events(surface, held@.take(i as int), self@.modifiers));
            }
        }
        proof {
            assert(held@.take(i as int) =~= held@);
        }
    }
}

} // verus!
