//! Values shared by the translators and the dispatch core: semantic events,
//! their payloads, and the coordinate conversions between logical and
//! physical units.
use vstd::prelude::*;

verus! {

/// Stable identifier of a window, allocated by the window store and never reused.
pub type WindowId = u64;

/// A position in physical pixels, in 24.8 fixed-point units.
#[derive(Debug, Copy, Clone, PartialEq, Eq, Structural)]
pub struct PhysicalPosition {
    pub x: i64,
    pub y: i64,
}

/// A size in logical pixels.
#[derive(Debug, Copy, Clone, PartialEq, Eq, Structural)]
pub struct LogicalSize {
    pub width: u32,
    pub height: u32,
}

/// Logical-to-physical conversion of one fixed-point coordinate.
pub open spec fn to_physical_coord(v: int, scale: int) -> int {
    v * scale
}

/// Converts a logical position (24.8 fixed point, as sent by the server) to
/// physical units at the given integer scale factor.
pub fn to_physical_position(x: i32, y: i32, scale: u32) -> (r: PhysicalPosition)
    ensures
        r.x == to_physical_coord(x as int, scale as int),
        r.y == to_physical_coord(y as int, scale as int),
{
    let s = scale as i64;
    proof {
        assert(i32::MIN * u32::MAX <= (x as int) * (s as int) <= i32::MAX * u32::MAX)
            by (nonlinear_arith)
            requires i32::MIN <= x <= i32::MAX, 0 <= s <= u32::MAX;
        assert(i32::MIN * u32::MAX <= (y as int) * (s as int) <= i32::MAX * u32::MAX)
            by (nonlinear_arith)
            requires i32::MIN <= y <= i32::MAX, 0 <= s <= u32::MAX;
    }
    PhysicalPosition { x: (x as i64) * s, y: (y as i64) * s }
}

/// Whether a key or a button went down or up.
#[derive(Debug, Copy, Clone, PartialEq, Eq, Structural)]
pub enum ElementState {
    Pressed,
    Released,
}

/// A mouse button, decoded from its input-event code.
#[derive(Debug, Copy, Clone, PartialEq, Eq, Structural)]
pub enum MouseButton {
    Left,
    Right,
    Middle,
    Other(u32),
}

/// Phase of a touch contact or of a scroll gesture.
#[derive(Debug, Copy, Clone, PartialEq, Eq, Structural)]
pub enum TouchPhase {
    Started,
    Moved,
    Ended,
    Cancelled,
}

/// Amount scrolled in one gesture frame.
#[derive(Debug, Copy, Clone, PartialEq, Eq, Structural)]
pub enum MouseScrollDelta {
    /// Discrete steps (wheel clicks), horizontal then vertical.
    LineDelta(i64, i64),
    /// Continuous scrolling in 24.8 fixed-point units, horizontal then vertical.
    PixelDelta(i64, i64),
}

/// The modifier keys that are held.
#[derive(Debug, Copy, Clone, PartialEq, Eq, Structural)]
pub struct ModifiersState {
    pub shift: bool,
    pub ctrl: bool,
    pub alt: bool,
    pub logo: bool,
}

impl ModifiersState {
    /// No modifier held.
    pub fn empty() -> (r: ModifiersState)
        ensures
            r == ModifiersState::none(),
    {
        ModifiersState { shift: false, ctrl: false, alt: false, logo: false }
    }

    pub open spec fn none() -> ModifiersState {
        ModifiersState { shift: false, ctrl: false, alt: false, logo: false }
    }

    pub fn is_empty(&self) -> (r: bool)
        ensures
            r == (*self == ModifiersState::none()),
    {
        !self.shift && !self.ctrl && !self.alt && !self.logo
    }
}

/// A key press or release as the application sees it.
#[derive(Debug, Copy, Clone, PartialEq, Eq, Structural)]
pub struct KeyboardInput {
    /// The raw hardware key code.
    pub scancode: u32,
    pub state: ElementState,
    /// The symbolic key, where the keymap gives one.
    pub virtual_keycode: Option<u32>,
    /// The modifiers held when the key changed state.
    pub modifiers: ModifiersState,
}

/// An event that concerns one window.
#[derive(Debug, Copy, Clone, PartialEq, Eq, Structural)]
pub enum WindowEvent {
    /// The inner size changed; physical pixels.
    Resized { width: u64, height: u64 },
    /// The window's scale factor changed; the inner size in physical pixels at the new factor.
    ScaleFactorChanged { scale_factor: u32, width: u64, height: u64 },
    CloseRequested,
    Destroyed,
    Focused(bool),
    ModifiersChanged(ModifiersState),
    KeyboardInput { input: KeyboardInput, is_synthetic: bool },
    ReceivedCharacter(char),
    CursorEntered,
    CursorLeft,
    CursorMoved(PhysicalPosition),
    MouseInput { state: ElementState, button: MouseButton },
    MouseWheel { delta: MouseScrollDelta, phase: TouchPhase },
    Touch { phase: TouchPhase, location: PhysicalPosition, id: i32 },
    RedrawRequested,
}

/// Why the loop woke up; times are milliseconds on the loop's monotonic clock.
#[derive(Debug, Copy, Clone, PartialEq, Eq, Structural)]
pub enum StartCause {
    Init,
    Poll,
    WaitCancelled { start: u64, requested_resume: Option<u64> },
    ResumeTimeReached { start: u64, requested_resume: u64 },
}

/// What the application receives, in the order the dispatch core emits it.
#[derive(Debug, Copy, Clone, PartialEq, Eq, Structural)]
pub enum Event {
    NewEvents(StartCause),
    WindowEvent { window_id: WindowId, event: WindowEvent },
    /// Relative pointer motion, unaccelerated, in 24.8 fixed-point units.
    MouseMotion { dx: i32, dy: i32 },
    MainEventsCleared,
    RedrawEventsCleared,
    LoopDestroyed,
}

/// Shorthand for an event addressed to a window.
pub open spec fn wev(id: WindowId, e: WindowEvent) -> Event {
    Event::WindowEvent { window_id: id, event: e }
}

/// Addresses a window event to window `id`.
pub fn event(id: WindowId, e: WindowEvent) -> (r: Event)
    ensures
        r == wev(id, e),
{
    Event::WindowEvent { window_id: id, event: e }
}

} // verus!
