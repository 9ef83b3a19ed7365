//! The cursor and pointer-lock manager.
use vstd::prelude::*;
use crate::event::WindowId;

verus! {

/// The cursor shapes an application can ask for.
#[derive(Debug, Copy, Clone, PartialEq, Eq, Structural)]
pub enum CursorIcon {
    Default,
    Crosshair,
    Hand,
    Arrow,
    Move,
    Text,
    Wait,
    Help,
    Progress,
    NotAllowed,
    ContextMenu,
    Cell,
    VerticalText,
    Alias,
    Copy,
    NoDrop,
    Grab,
    Grabbing,
    AllScroll,
    ZoomIn,
    ZoomOut,
    EResize,
    NResize,
    NeResize,
    NwResize,
    SResize,
    SeResize,
    SwResize,
    WResize,
    EwResize,
    NsResize,
    NeswResize,
    NwseResize,
    ColResize,
    RowResize,
}


/// Name of the cursor image for an icon in the system cursor theme.
pub open spec fn icon_name(icon: CursorIcon) -> Seq<char> {
    match icon {
        CursorIcon::Alias => "link"@,
        CursorIcon::Arrow => "arrow"@,
        CursorIcon::Cell => "plus"@,
        CursorIcon::Copy => "copy"@,
        CursorIcon::Crosshair => "crosshair"@,
        CursorIcon::Default => "left_ptr"@,
        CursorIcon::Hand => "hand"@,
        CursorIcon::Help => "question_arrow"@,
        CursorIcon::Move => "move"@,
        CursorIcon::Grab => "grab"@,
        CursorIcon::Grabbing => "grabbing"@,
        CursorIcon::Progress => "progress"@,
        CursorIcon::AllScroll => "all-scroll"@,
        CursorIcon::ContextMenu => "context-menu"@,
        CursorIcon::NoDrop => "no-drop"@,
        CursorIcon::NotAllowed => "crossed_circle"@,
        CursorIcon::EResize => "right_side"@,
        CursorIcon::NResize => "top_side"@,
        CursorIcon::NeResize => "top_right_corner"@,
        CursorIcon::NwResize => "top_left_corner"@,
        CursorIcon::SResize => "bottom_side"@,
        CursorIcon::SeResize => "bottom_right_corner"@,
        CursorIcon::SwResize => "bottom_left_corner"@,
        CursorIcon::WResize => "left_side"@,
        CursorIcon::EwResize => "h_double_arrow"@,
        CursorIcon::NsResize => "v_double_arrow"@,
        CursorIcon::NwseResize => "bd_double_arrow"@,
        CursorIcon::NeswResize => "fd_double_arrow"@,
        CursorIcon::ColResize => "h_double_arrow"@,
        CursorIcon::RowResize => "v_double_arrow"@,
        CursorIcon::Text => "text"@,
        CursorIcon::VerticalText => "vertical-text"@,
        CursorIcon::Wait => "watch"@,
        CursorIcon::ZoomIn => "zoom-in"@,
        CursorIcon::ZoomOut => "zoom-out"@,
    }
}

/// The theme name of an icon's cursor image.
pub fn cursor_name(icon: CursorIcon) -> (r: &'static str)
    ensures
        r@ == icon_name(icon),
{
    match icon {
        CursorIcon::Alias => "link",
        CursorIcon::Arrow => "arrow",
        CursorIcon::Cell => "plus",
        CursorIcon::Copy => "copy",
        CursorIcon::Crosshair => "crosshair",
        CursorIcon::Default => "left_ptr",
        CursorIcon::Hand => "hand",
        CursorIcon::Help => "question_arrow",
        CursorIcon::Move => "move",
        CursorIcon::Grab => "grab",
        CursorIcon::Grabbing => "grabbing",
        CursorIcon::Progress => "progress",
        CursorIcon::AllScroll => "all-scroll",
        CursorIcon::ContextMenu => "context-menu",
        CursorIcon::NoDrop => "no-drop",
        CursorIcon::NotAllowed => "crossed_circle",
        CursorIcon::EResize => "right_side",
        CursorIcon::NResize => "top_side",
        CursorIcon::NeResize => "top_right_corner",
        CursorIcon::NwResize => "top_left_corner",
        CursorIcon::SResize => "bottom_side",
        CursorIcon::SeResize => "bottom_right_corner",
        CursorIcon::SwResize => "bottom_left_corner",
        CursorIcon::WResize => "left_side",
        CursorIcon::EwResize => "h_double_arrow",
        CursorIcon::NsResize => "v_double_arrow",
        CursorIcon::NwseResize => "bd_double_arrow",
        CursorIcon::NeswResize => "fd_double_arrow",
        CursorIcon::ColResize => "h_double_arrow",
        CursorIcon::RowResize => "v_double_arrow",
        CursorIcon::Text => "text",
        CursorIcon::VerticalText => "vertical-text",
        CursorIcon::Wait => "watch",
        CursorIcon::ZoomIn => "zoom-in",
        CursorIcon::ZoomOut => "zoom-out",
    }
}

/// A pointer-confinement object: `pointer` is locked to the surface of `window`.
#[derive(Debug, Copy, Clone, PartialEq, Eq, Structural)]
pub struct PointerLock {
    pub pointer: u32,
    pub window: WindowId,
}

/// A protocol call on a themed pointer or a confinement object. Pointers are
/// named by the handle they were registered under.
#[derive(Debug, Copy, Clone, PartialEq, Eq, Structural)]
pub enum CursorAction {
    /// Show the theme's image for `icon` (see `cursor_name`); a name the
    /// theme lacks is ignored.
    SetIcon { pointer: u32, icon: CursorIcon },
    /// Set an empty cursor image.
    Hide { pointer: u32 },
    /// Create a persistent confinement of `pointer` to the window's surface.
    Lock(PointerLock),
    /// Destroy a confinement.
    Unlock(PointerLock),
}

pub open spec fn set_icon_actions(pointers: Seq<u32>, icon: CursorIcon) -> Seq<CursorAction> {
    pointers.map_values(|p: u32| CursorAction::SetIcon { pointer: p, icon })
}

pub open spec fn hide_actions(pointers: Seq<u32>) -> Seq<CursorAction> {
    pointers.map_values(|p: u32| CursorAction::Hide { pointer: p })
}

pub open spec fn unlock_actions(locks: Seq<PointerLock>) -> Seq<CursorAction> {
    locks.map_values(|l: PointerLock| CursorAction::Unlock(l))
}

pub open spec fn locks_for(pointers: Seq<u32>, window: WindowId) -> Seq<PointerLock> {
    pointers.map_values(|p: u32| PointerLock { pointer: p, window })
}

pub open spec fn lock_actions(pointers: Seq<u32>, window: WindowId) -> Seq<CursorAction> {
    pointers.map_values(|p: u32| CursorAction::Lock(PointerLock { pointer: p, window }))
}

/// The state of the cursor and pointer-lock manager.
pub struct CursorModel {
    pub pointers: Seq<u32>,
    pub locks: Seq<PointerLock>,
    pub has_constraints: bool,
    pub visible: bool,
    pub current: CursorIcon,
}

/// The calls that bring the current cursor state to every pointer.
pub open spec fn reload_actions(m: CursorModel) -> Seq<CursorAction> {
    if m.visible { set_icon_actions(m.pointers, m.current) } else { hide_actions(m.pointers) }
}

/// Manager state after `set_cursor_icon(icon)`.
pub open spec fn set_icon_next(m: CursorModel, icon: CursorIcon) -> CursorModel {
    CursorModel { current: icon, ..m }
}

/// Calls made by `set_cursor_icon(icon)`: none when the icon is already the
/// current one or the cursor is hidden.
pub open spec fn set_icon_calls(m: CursorModel, icon: CursorIcon) -> Seq<CursorAction> {
    if icon != m.current && m.visible { set_icon_actions(m.pointers, icon) } else { Seq::empty() }
}

/// Manager state after `grab(window)`.
pub open spec fn grab_next(m: CursorModel, window: Option<WindowId>) -> CursorModel {
    CursorModel {
        locks: match window {
            Some(w) => if m.has_constraints { locks_for(m.pointers, w) } else { Seq::empty() },
            None => Seq::empty(),
        },
        ..m
    }
}

/// Calls made by `grab(window)`: every active lock is destroyed, then one
/// lock per registered pointer is created when a window is given.
pub open spec fn grab_calls(m: CursorModel, window: Option<WindowId>) -> Seq<CursorAction> {
    unlock_actions(m.locks) + match window {
        Some(w) => if m.has_constraints { lock_actions(m.pointers, w) } else { Seq::empty() },
        None => Seq::empty(),
    }
}

/// Owns the registered pointers, the active confinements and the cursor
/// state shared by all pointers.
pub struct CursorManager {
    pointers: Vec<u32>,
    locked_pointers: Vec<PointerLock>,
    /// Whether the compositor offers pointer confinement.
    has_constraints: bool,
    cursor_visible: bool,
    current_cursor: CursorIcon,
}

impl View for CursorManager {
    type V = CursorModel;

    closed spec fn view(&self) -> CursorModel {
        CursorModel {
            pointers: self.pointers@,
            locks: self.locked_pointers@,
            has_constraints: self.has_constraints,
            visible: self.cursor_visible,
            current: self.current_cursor,
        }
    }
}

fn push_icon_calls(pointers: &Vec<u32>, icon: CursorIcon, out: &mut Vec<CursorAction>)
    ensures
        final(out)@ == old(out)@ + set_icon_actions(pointers@, icon),
{
    let mut i: usize = 0;
    while i < pointers.len()
        invariant
            i <= pointers@.len(),
            out@ == old(out)@ + set_icon_actions(pointers@.take(i as int), icon),
        decreases pointers@.len() - i,
    {
        out.push(CursorAction::SetIcon { pointer: pointers[i], icon });
        i = i + 1;
        proof {
            assert(pointers@.take(i as int) =~= pointers@.take(i - 1).push(pointers@[i - 1]));
            assert(out@ =~= old(out)@ + set_icon_actions(pointers@.take(i as int), icon));
        }
    }
    proof {
        assert(pointers@.take(i as int) =~= pointers@);
    }
}

fn push_hide_calls(pointers: &Vec<u32>, out: &mut Vec<CursorAction>)
    ensures
        final(out)@ == old(out)@ + hide_actions(pointers@),
{
    let mut i: usize = 0;
    while i < pointers.len()
        invariant
            i <= pointers@.len(),
            out@ == old(out)@ + hide_actions(pointers@.take(i as int)),
        decreases pointers@.len() - i,
    {
        out.push(CursorAction::Hide { pointer: pointers[i] });
        i = i + 1;
        proof {
            assert(pointers@.take(i as int) =~= pointers@.take(i - 1).push(pointers@[i - 1]));
            assert(out@ =~= old(out)@ + hide_actions(pointers@.take(i as int)));
        }
    }
    proof {
        assert(pointers@.take(i as int) =~= pointers@);
    }
}

impl CursorManager {
    /// A manager with no pointer, no lock, a visible default cursor.
    pub fn new(has_constraints: bool) -> (r: CursorManager)
        ensures
            r@ == (CursorModel {
                pointers: Seq::empty(),
                locks: Seq::empty(),
                has_constraints,
                visible: true,
                current: CursorIcon::Default,
            }),
    {
        CursorManager {
            pointers: Vec::new(),
            locked_pointers: Vec::new(),
            has_constraints,
            cursor_visible: true,
            current_cursor: CursorIcon::Default,
        }
    }

    /// Adds a themed pointer under the handle `pointer`.
    pub fn register_pointer(&mut self, pointer: u32)
        ensures
            final(self)@ == (CursorModel { pointers: old(self)@.pointers.push(pointer), ..old(self)@ }),
    {
        self.pointers.push(pointer);
    }

    pub fn cursor_visible(&self) -> (r: bool)
        ensures
            r == self@.visible,
    {
        self.cursor_visible
    }

    pub fn current_cursor(&self) -> (r: CursorIcon)
        ensures
            r == self@.current,
    {
        self.current_cursor
    }

    /// Number of active confinement objects.
    pub fn active_locks(&self) -> (r: usize)
        ensures
            r == self@.locks.len(),
    {
        self.locked_pointers.len()
    }

    /// Takes `icon` and `visible` as the current cursor state without any
    /// call; `reload_cursor_style` then shows it.
    pub fn adopt(&mut self, icon: CursorIcon, visible: bool)
        ensures
            final(self)@ == (CursorModel { current: icon, visible, ..old(self)@ }),
    {
        self.current_cursor = icon;
        self.cursor_visible = visible;
    }

    /// Hides the cursor on every pointer, or shows the remembered icon again.
    pub fn set_cursor_visible(&mut self, visible: bool) -> (r: Vec<CursorAction>)
        ensures
            final(self)@ == (CursorModel { visible, ..old(self)@ }),
            r@ == (if visible {
                set_icon_actions(old(self)@.pointers, old(self)@.current)
            } else {
                hide_actions(old(self)@.pointers)
            }),
    {
        let mut out: Vec<CursorAction> = Vec::new();
        if !visible {
            push_hide_calls(&self.pointers, &mut out);
        } else {
            push_icon_calls(&self.pointers, self.current_cursor, &mut out);
        }
        self.cursor_visible = visible;
        proof {
            assert(out@ =~= (if visible {
                set_icon_actions(old(self)@.pointers, old(self)@.current)
            } else {
                hide_actions(old(self)@.pointers)
            }));
        }
        out
    }

    /// Brings the current cursor state (hidden, or the current icon) to every
    /// pointer again, as needed when a pointer enters a window.
    pub fn reload_cursor_style(&self) -> (r: Vec<CursorAction>)
        ensures
            r@ == reload_actions(self@),
    {
        let mut out: Vec<CursorAction> = Vec::new();
        if !self.cursor_visible {
            push_hide_calls(&self.pointers, &mut out);
        } else {
            push_icon_calls(&self.pointers, self.current_cursor, &mut out);
        }
        proof {
            assert(out@ =~= reload_actions(self@));
        }
        out
    }

    /// Makes `cursor` the current icon. Nothing is sent when it already is,
    /// or while the cursor is hidden (it shows once the cursor is visible).
    pub fn set_cursor_icon(&mut self, cursor: CursorIcon) -> (r: Vec<CursorAction>)
        ensures
            final(self)@ == set_icon_next(old(self)@, cursor),
            r@ == set_icon_calls(old(self)@, cursor),
    {
        let mut out: Vec<CursorAction> = Vec::new();
        if cursor != self.current_cursor {
            self.current_cursor = cursor;
            if self.cursor_visible {
                push_icon_calls(&self.pointers, cursor, &mut out);
            }
        }
        proof {
            assert(out@ =~= set_icon_calls(old(self)@, cursor));
        }
        out
    }

    /// Reapplies the cursor after the output scale changed.
    pub fn update_scale_factor(&self) -> (r: Vec<CursorAction>)
        ensures
            r@ == reload_actions(self@),
    {
        self.reload_cursor_style()
    }

    /// Destroys every active lock, then, when `window` is given and the
    /// compositor offers confinement, locks every registered pointer to it.
    pub fn grab(&mut self, window: Option<WindowId>) -> (r: Vec<CursorAction>)
        ensures
            final(self)@ == grab_next(old(self)@, window),
            r@ == grab_calls(old(self)@, window),
    {
        let mut out: Vec<CursorAction> = Vec::new();
        let mut i: usize = 0;
        while i < self.locked_pointers.len()
            invariant
                i <= self.locked_pointers@.len(),
                self@ == old(self)@,
                out@ == unlock_actions(self.locked_pointers@.take(i as int)),
            decreases self.locked_pointers@.len() - i,
        {
            out.push(CursorAction::Unlock(self.locked_pointers[i]));
            i = i + 1;
            proof {
                assert(self.locked_pointers@.take(i as int)
                    =~= self.locked_pointers@.take(i - 1).push(self.locked_pointers@[i - 1]));
                assert(out@ =~= unlock_actions(self.locked_pointers@.take(i as int)));
            }
        }
        proof {
            assert(self.locked_pointers@.take(i as int) =~= self.locked_pointers@);
        }
        let ghost unlocks = out@;
        let mut locks: Vec<PointerLock> = Vec::new();
        if let Some(w) = window {
            if self.has_constraints {
                let mut j: usize = 0;
                while j < self.pointers.len()
                    invariant
                        j <= self.pointers@.len(),
                        self@ == old(self)@,
                        locks@ == locks_for(self.pointers@.take(j as int), w),
                        out@ == unlocks + lock_actions(self.pointers@.take(j as int), w),
                    decreases self.pointers@.len() - j,
                {
                    let l = PointerLock { pointer: self.pointers[j], window: w };
                    locks.push(l);
                    out.push(CursorAction::Lock(l));
                    j = j + 1;
                    proof {
                        assert(self.pointers@.take(j as int) =~= self.pointers@.take(j - 1).push(self.pointers@[j - 1]));
                        assert(locks@ =~= locks_for(self.pointers@.take(j as int), w));
                        assert(out@ =~= unlocks + lock_actions(self.pointers@.take(j as int), w));
                    }
                }
                proof {
                    assert(self.pointers@.take(j as int) =~= self.pointers@);
                }
            }
        }
        self.locked_pointers = locks;
        proof {
            assert(self@.locks =~= grab_next(old(self)@, window).locks);
            assert(out@ =~= grab_calls(old(self)@, window));
        }
        out
    }
}

/// Setting the same icon twice reaches the pointers once: the second call
/// sends nothing, and the first sends at most one image per pointer.
pub proof fn lemma_set_icon_idempotent(m: CursorModel, icon: CursorIcon)
    ensures
        set_icon_calls(set_icon_next(m, icon), icon) == Seq::<CursorAction>::empty(),
        set_icon_next(set_icon_next(m, icon), icon) == set_icon_next(m, icon),
        set_icon_calls(m, icon) == Seq::<CursorAction>::empty()
            || set_icon_calls(m, icon) == set_icon_actions(m.pointers, icon),
        icon != m.current && m.visible ==> set_icon_calls(m, icon) == set_icon_actions(m.pointers, icon),
{
}

} // verus!
