//! The window state store: one record per live window, keyed by a stable id
//! that the store allocates and never hands out twice.
use vstd::prelude::*;
use crate::cursor::CursorIcon;
use crate::channel::Update;
use crate::event::{WindowId, LogicalSize, Event, WindowEvent, wev};
use crate::event_loop::Dispatcher;

verus! {

/// Whether the decorated frame draws its own border.
#[derive(Debug, Copy, Clone, PartialEq, Eq, Structural)]
pub enum DecorationMode {
    Borderless,
    FollowServer,
}

/// Logical size used when the creation attributes give none.
pub const DEFAULT_WIDTH: u32 = 800;
pub const DEFAULT_HEIGHT: u32 = 600;

/// Fullscreen mode requested for a window.
#[derive(Debug, Copy, Clone, PartialEq, Eq, Structural)]
pub enum Fullscreen {
    /// Exclusive fullscreen on a video mode; the protocol has no such notion.
    Exclusive(u32),
    /// Borderless fullscreen on the output with this id.
    Borderless(u32),
}

/// Why a window request was refused.
#[derive(Debug, Copy, Clone, PartialEq, Eq, Structural)]
pub enum WindowError {
    /// The protocol cannot do what was asked.
    NotSupported,
    /// Every window id has been handed out.
    IdsExhausted,
}

/// Attributes a window is created with.
pub struct WindowAttributes {
    pub inner_size: Option<LogicalSize>,
    pub min_inner_size: Option<LogicalSize>,
    pub max_inner_size: Option<LogicalSize>,
    pub resizable: bool,
    pub fullscreen: Option<Fullscreen>,
    pub title: String,
    pub maximized: bool,
    pub decorations: bool,
    pub app_id: Option<String>,
}

/// An operation on a window's decorated frame, for the protocol side to perform.
#[derive(Debug)]
pub enum FrameOp {
    Resize(LogicalSize),
    Refresh,
    SetDecorations(DecorationMode),
    SetTitle(String),
    SetAppId(String),
    SetResizable(bool),
    SetMinSize(Option<LogicalSize>),
    SetMaxSize(Option<LogicalSize>),
    /// Fullscreen on the given output, or leave fullscreen.
    SetFullscreen(Option<u32>),
    SetMaximized(bool),
    SetMinimized,
    Destroy,
}

/// A frame operation together with the window it applies to.
#[derive(Debug)]
pub struct FrameAction {
    pub window: WindowId,
    pub op: FrameOp,
}

/// A change to one attribute of a window, as sent by a window handle.
#[derive(Debug)]
pub enum WindowRequest {
    SetTitle(String),
    SetInnerSize(LogicalSize),
    SetMinInnerSize(Option<LogicalSize>),
    SetMaxInnerSize(Option<LogicalSize>),
    SetResizable(bool),
    SetDecorations(bool),
    SetMaximized(bool),
    SetMinimized,
    SetFullscreen(Option<u32>),
    SetCursorIcon(CursorIcon),
    SetCursorVisible(bool),
    SetCursorGrab(bool),
    RequestRedraw,
    Destroy,
}

/// A notification from a window's decorated frame.
#[derive(Debug, Copy, Clone, PartialEq, Eq, Structural)]
pub enum FrameEvent {
    /// The compositor proposes a new state; `new_size` is absent when the
    /// client may pick its own size.
    Configure { new_size: Option<LogicalSize>, fullscreen: bool },
    Refresh,
    Close,
}

pub open spec fn decoration_mode(decorated: bool) -> DecorationMode {
    if decorated { DecorationMode::FollowServer } else { DecorationMode::Borderless }
}

/// The mutable attributes of one live window.
pub struct WindowState {
    pub id: WindowId,
    /// Inner size in logical pixels.
    pub size: LogicalSize,
    /// Last scale factor the compositor assigned (at least 1).
    pub scale_factor: u32,
    pub title: String,
    pub decorations: DecorationMode,
    pub resizable: bool,
    pub min_size: Option<LogicalSize>,
    pub max_size: Option<LogicalSize>,
    /// Output the window is made fullscreen on, if any.
    pub fullscreen: Option<u32>,
    /// Whether the compositor last configured the window as fullscreen.
    pub configured_fullscreen: bool,
    pub maximized: bool,
    pub minimized: bool,
    pub cursor_icon: CursorIcon,
    pub cursor_visible: bool,
    pub cursor_grab: bool,
    /// Size and scale factor last reported to the application.
    pub reported_size: LogicalSize,
    pub reported_scale: u32,
    /// Dirty flags, cleared by the store's per-iteration pass.
    pub needs_refresh: bool,
    pub needs_destroy: bool,
}

pub open spec fn has_id(ws: Seq<WindowState>, id: WindowId) -> bool {
    exists|i: int| 0 <= i < ws.len() && ws[i].id == id
}

/// Position of the window with the given id.
pub open spec fn index_of(ws: Seq<WindowState>, id: WindowId) -> Option<int> {
    if has_id(ws, id) {
        Some(choose|i: int| 0 <= i < ws.len() && ws[i].id == id)
    } else {
        None
    }
}

pub open spec fn ids_unique(ws: Seq<WindowState>) -> bool {
    forall|i: int, j: int| 0 <= i < ws.len() && 0 <= j < ws.len() && ws[i].id == ws[j].id ==> i == j
}

/// The window with the given id, if it is live.
pub open spec fn lookup(ws: Seq<WindowState>, id: WindowId) -> Option<WindowState> {
    match index_of(ws, id) {
        Some(i) => Some(ws[i]),
        None => None,
    }
}

pub proof fn lemma_index_of(ws: Seq<WindowState>, id: WindowId, i: int)
    requires
        ids_unique(ws),
        0 <= i < ws.len(),
        ws[i].id == id,
    ensures
        index_of(ws, id) == Some(i),
        lookup(ws, id) == Some(ws[i]),
{
    assert(has_id(ws, id));
}

/// The table of live windows.
pub struct WindowStore {
    pub windows: Vec<WindowState>,
    /// The id the next created window receives; every live id is below it.
    pub next_id: WindowId,
}

impl WindowStore {
    pub open spec fn wf(&self) -> bool {
        &&& ids_unique(self.windows@)
        &&& forall|i: int| 0 <= i < self.windows@.len() ==> self.windows@[i].id < self.next_id
    }

    pub open spec fn get(&self, id: WindowId) -> Option<WindowState> {
        lookup(self.windows@, id)
    }

    pub fn new() -> (r: WindowStore)
        ensures
            r.wf(),
            r.windows@.len() == 0,
            r.next_id == 0,
    {
        WindowStore { windows: Vec::new(), next_id: 0 }
    }

    /// Position of a live window in the table.
    pub fn find(&self, id: WindowId) -> (r: Option<usize>)
        requires
            self.wf(),
        ensures
            match r {
                Some(i) => i < self.windows@.len() && index_of(self.windows@, id) == Some(i as int),
                None => index_of(self.windows@, id) == None::<int>,
            },
    {
        let mut i: usize = 0;
        while i < self.windows.len()
            invariant
                i <= self.windows@.len(),
                self.wf(),
                forall|j: int| 0 <= j < i ==> self.windows@[j].id != id,
            decreases self.windows@.len() - i,
        {
            if self.windows[i].id == id {
                proof {
                    lemma_index_of(self.windows@, id, i as int);
                }
                return Some(i);
            }
            i = i + 1;
        }
        None
    }

    /// Scale factor of a live window.
    pub fn scale_of(&self, id: WindowId) -> (r: Option<u32>)
        requires
            self.wf(),
        ensures
            r == (match self.get(id) {
                Some(w) => Some(w.scale_factor),
                None => None::<u32>,
            }),
    {
        match self.find(id) {
            Some(i) => Some(self.windows[i].scale_factor),
            None => None,
        }
    }
}

/// Physical extent of a logical size at an integer scale factor.
pub open spec fn physical_width(size: LogicalSize, scale: u32) -> u64 {
    (size.width as int * scale as int) as u64
}

pub open spec fn physical_height(size: LogicalSize, scale: u32) -> u64 {
    (size.height as int * scale as int) as u64
}

pub fn to_physical_size(size: LogicalSize, scale: u32) -> (r: (u64, u64))
    ensures
        r.0 == size.width as int * scale as int,
        r.1 == size.height as int * scale as int,
        r.0 == physical_width(size, scale),
        r.1 == physical_height(size, scale),
{
    proof {
        assert(0 <= size.width as int * scale as int <= u32::MAX as int * u32::MAX as int) by (nonlinear_arith)
            requires 0 <= size.width <= u32::MAX, 0 <= scale <= u32::MAX;
        assert(0 <= size.height as int * scale as int <= u32::MAX as int * u32::MAX as int) by (nonlinear_arith)
            requires 0 <= size.height <= u32::MAX, 0 <= scale <= u32::MAX;
    }
    (size.width as u64 * scale as u64, size.height as u64 * scale as u64)
}

/// The record of a window that has just been created.
pub open spec fn initial_state(attrs: WindowAttributes, id: WindowId) -> WindowState {
    let size = match attrs.inner_size {
        Some(sz) => sz,
        None => LogicalSize { width: DEFAULT_WIDTH, height: DEFAULT_HEIGHT },
    };
    WindowState {
        id,
        size,
        scale_factor: 1,
        title: attrs.title,
        decorations: decoration_mode(attrs.decorations),
        resizable: attrs.resizable,
        min_size: attrs.min_inner_size,
        max_size: attrs.max_inner_size,
        fullscreen: match attrs.fullscreen {
            Some(Fullscreen::Borderless(m)) => Some(m),
            _ => None,
        },
        configured_fullscreen: false,
        maximized: attrs.maximized && attrs.fullscreen.is_none(),
        minimized: false,
        cursor_icon: CursorIcon::Default,
        cursor_visible: true,
        cursor_grab: false,
        reported_size: size,
        reported_scale: 1,
        needs_refresh: false,
        needs_destroy: false,
    }
}

pub open spec fn frame_action(id: WindowId, op: FrameOp) -> FrameAction {
    FrameAction { window: id, op }
}

/// Frame operations that set up a window that has just been created.
pub open spec fn initial_actions(attrs: WindowAttributes, id: WindowId) -> Seq<FrameAction> {
    let app_id = match attrs.app_id {
        Some(a) => seq![frame_action(id, FrameOp::SetAppId(a))],
        None => Seq::empty(),
    };
    let mode = match attrs.fullscreen {
        Some(Fullscreen::Borderless(m)) => seq![frame_action(id, FrameOp::SetFullscreen(Some(m)))],
        _ => if attrs.maximized {
            seq![frame_action(id, FrameOp::SetMaximized(true))]
        } else {
            Seq::empty()
        },
    };
    app_id + mode + seq![
        frame_action(id, FrameOp::SetResizable(attrs.resizable)),
        frame_action(id, FrameOp::SetDecorations(decoration_mode(attrs.decorations))),
        frame_action(id, FrameOp::SetTitle(attrs.title)),
        frame_action(id, FrameOp::SetMinSize(attrs.min_inner_size)),
        frame_action(id, FrameOp::SetMaxSize(attrs.max_inner_size)),
    ]
}

/// A window record after one request.
pub open spec fn apply_request(w: WindowState, req: WindowRequest) -> WindowState {
    match req {
        WindowRequest::SetTitle(t) => WindowState { title: t, ..w },
        WindowRequest::SetInnerSize(sz) => WindowState { size: sz, ..w },
        WindowRequest::SetMinInnerSize(sz) => WindowState { min_size: sz, ..w },
        WindowRequest::SetMaxInnerSize(sz) => WindowState { max_size: sz, ..w },
        WindowRequest::SetResizable(b) => WindowState { resizable: b, ..w },
        WindowRequest::SetDecorations(b) => WindowState { decorations: decoration_mode(b), ..w },
        WindowRequest::SetMaximized(b) => WindowState { maximized: b, ..w },
        WindowRequest::SetMinimized => WindowState { minimized: true, ..w },
        WindowRequest::SetFullscreen(m) => WindowState { fullscreen: m, ..w },
        WindowRequest::SetCursorIcon(c) => WindowState { cursor_icon: c, ..w },
        WindowRequest::SetCursorVisible(b) => WindowState { cursor_visible: b, ..w },
        WindowRequest::SetCursorGrab(b) => WindowState { cursor_grab: b, ..w },
        WindowRequest::RequestRedraw => WindowState { needs_refresh: true, ..w },
        WindowRequest::Destroy => WindowState { needs_destroy: true, ..w },
    }
}

/// The frame operation a request performs at once; size changes, redraws and
/// destruction wait for the per-iteration pass.
pub open spec fn request_op(req: WindowRequest) -> Option<FrameOp> {
    match req {
        WindowRequest::SetTitle(t) => Some(FrameOp::SetTitle(t)),
        WindowRequest::SetMinInnerSize(sz) => Some(FrameOp::SetMinSize(sz)),
        WindowRequest::SetMaxInnerSize(sz) => Some(FrameOp::SetMaxSize(sz)),
        WindowRequest::SetResizable(b) => Some(FrameOp::SetResizable(b)),
        WindowRequest::SetDecorations(b) => Some(FrameOp::SetDecorations(decoration_mode(b))),
        WindowRequest::SetMaximized(b) => Some(FrameOp::SetMaximized(b)),
        WindowRequest::SetMinimized => Some(FrameOp::SetMinimized),
        WindowRequest::SetFullscreen(m) => Some(FrameOp::SetFullscreen(m)),
        _ => None,
    }
}

/// A window record after a notification from its frame.
pub open spec fn apply_frame_event(w: WindowState, ev: FrameEvent) -> WindowState {
    match ev {
        FrameEvent::Configure { new_size, fullscreen } => WindowState {
            size: match new_size {
                Some(sz) => sz,
                None => w.size,
            },
            configured_fullscreen: fullscreen,
            ..w
        },
        FrameEvent::Refresh => WindowState { needs_refresh: true, ..w },
        FrameEvent::Close => w,
    }
}

/// The table with the window of id `id` replaced by `w2`, or unchanged when
/// no such window is live.
pub open spec fn update_window(ws: Seq<WindowState>, id: WindowId, w2: WindowState) -> Seq<WindowState> {
    match index_of(ws, id) {
        Some(i) => ws.update(i, w2),
        None => ws,
    }
}

/// Whether the size or scale factor differs from what was last reported.
pub open spec fn is_resized(w: WindowState) -> bool {
    w.size != w.reported_size || w.scale_factor != w.reported_scale
}

/// A window record once the per-iteration pass has dealt with it.
pub open spec fn settle(w: WindowState) -> WindowState {
    WindowState { reported_size: w.size, reported_scale: w.scale_factor, needs_refresh: false, ..w }
}

/// Events the per-iteration pass emits for one window before MainEventsCleared.
pub open spec fn window_events_of(w: WindowState) -> Seq<Event> {
    if w.needs_destroy {
        seq![wev(w.id, WindowEvent::Destroyed)]
    } else if is_resized(w) {
        seq![wev(w.id, WindowEvent::Resized {
            width: physical_width(w.size, w.scale_factor),
            height: physical_height(w.size, w.scale_factor),
        })]
    } else {
        Seq::empty()
    }
}

/// Redraw events the per-iteration pass emits for one window.
pub open spec fn redraws_of(w: WindowState) -> Seq<Event> {
    if !w.needs_destroy && (is_resized(w) || w.needs_refresh) {
        seq![wev(w.id, WindowEvent::RedrawRequested)]
    } else {
        Seq::empty()
    }
}

/// Frame operations the per-iteration pass performs for one window.
pub open spec fn actions_of(w: WindowState) -> Seq<FrameAction> {
    if w.needs_destroy {
        seq![frame_action(w.id, FrameOp::Destroy)]
    } else if is_resized(w) {
        seq![frame_action(w.id, FrameOp::Resize(w.size)), frame_action(w.id, FrameOp::Refresh)]
    } else if w.needs_refresh {
        seq![frame_action(w.id, FrameOp::Refresh)]
    } else {
        Seq::empty()
    }
}

pub open spec fn survivor_of(w: WindowState) -> Seq<WindowState> {
    if w.needs_destroy { Seq::empty() } else { seq![settle(w)] }
}

/// The table after the per-iteration pass: destroyed windows removed, the
/// others settled, order kept.
pub open spec fn survivors(ws: Seq<WindowState>) -> Seq<WindowState>
    decreases ws.len(),
{
    if ws.len() == 0 { Seq::empty() } else { survivor_of(ws[0]) + survivors(ws.skip(1)) }
}

pub open spec fn all_window_events(ws: Seq<WindowState>) -> Seq<Event>
    decreases ws.len(),
{
    if ws.len() == 0 { Seq::empty() } else { window_events_of(ws[0]) + all_window_events(ws.skip(1)) }
}

pub open spec fn all_redraws(ws: Seq<WindowState>) -> Seq<Event>
    decreases ws.len(),
{
    if ws.len() == 0 { Seq::empty() } else { redraws_of(ws[0]) + all_redraws(ws.skip(1)) }
}

pub open spec fn all_actions(ws: Seq<WindowState>) -> Seq<FrameAction>
    decreases ws.len(),
{
    if ws.len() == 0 { Seq::empty() } else { actions_of(ws[0]) + all_actions(ws.skip(1)) }
}

pub proof fn lemma_survivors_members(ws: Seq<WindowState>)
    ensures
        forall|k: int| 0 <= k < survivors(ws).len() ==> exists|j: int|
            0 <= j < ws.len() && !ws[j].needs_destroy && #[trigger] survivors(ws)[k] == settle(ws[j]),
    decreases ws.len(),
{
    if ws.len() > 0 {
        let tail = ws.skip(1);
        lemma_survivors_members(tail);
        let head = survivor_of(ws[0]);
        assert forall|k: int| 0 <= k < survivors(ws).len() implies exists|j: int|
            0 <= j < ws.len() && !ws[j].needs_destroy && #[trigger] survivors(ws)[k] == settle(ws[j]) by {
            if k < head.len() {
                assert(survivors(ws)[k] == settle(ws[0]));
            } else {
                let k2 = k - head.len();
                assert(survivors(ws)[k] == survivors(tail)[k2]);
                let j2 = choose|j: int| 0 <= j < tail.len() && !tail[j].needs_destroy && survivors(tail)[k2] == settle(tail[j]);
                assert(tail[j2] == ws[j2 + 1]);
            }
        }
    }
}

pub proof fn lemma_survivors_unique(ws: Seq<WindowState>)
    requires
        ids_unique(ws),
    ensures
        ids_unique(survivors(ws)),
    decreases ws.len(),
{
    if ws.len() > 0 {
        let tail = ws.skip(1);
        assert(ids_unique(tail)) by {
            assert forall|i: int, j: int| 0 <= i < tail.len() && 0 <= j < tail.len() && tail[i].id == tail[j].id
                implies i == j by {
                assert(tail[i] == ws[i + 1] && tail[j] == ws[j + 1]);
            }
        }
        lemma_survivors_unique(tail);
        lemma_survivors_members(tail);
        let head = survivor_of(ws[0]);
        let all = survivors(ws);
        assert forall|i: int, j: int| 0 <= i < all.len() && 0 <= j < all.len() && all[i].id == all[j].id
            implies i == j by {
            if i >= head.len() && j >= head.len() {
                assert(all[i] == survivors(tail)[i - head.len()]);
                assert(all[j] == survivors(tail)[j - head.len()]);
            } else if i < head.len() && j >= head.len() {
                let k = j - head.len();
                assert(all[j] == survivors(tail)[k]);
                let jj = choose|jj: int| 0 <= jj < tail.len() && !tail[jj].needs_destroy && survivors(tail)[k] == settle(tail[jj]);
                assert(tail[jj] == ws[jj + 1]);
            } else if j < head.len() && i >= head.len() {
                let k = i - head.len();
                assert(all[i] == survivors(tail)[k]);
                let jj = choose|jj: int| 0 <= jj < tail.len() && !tail[jj].needs_destroy && survivors(tail)[k] == settle(tail[jj]);
                assert(tail[jj] == ws[jj + 1]);
            }
        }
    }
}

impl WindowStore {
    /// Creates a window record and the frame operations that set it up. The
    /// window starts at scale factor 1 with the requested logical size, or the
    /// default one. Fails only once every id has been handed out. Exclusive
    /// fullscreen has no meaning in the protocol; asking for it is a
    /// configuration error that callers rule out first.
    pub fn create(&mut self, attrs: WindowAttributes) -> (r: Result<(WindowId, Vec<FrameAction>), WindowError>)
        requires
            old(self).wf(),
            !(attrs.fullscreen matches Some(Fullscreen::Exclusive(_))),
        ensures
            final(self).wf(),
            match r {
                Ok((id, actions)) => {
                    &&& old(self).next_id < u64::MAX
                    &&& id == old(self).next_id
                    &&& final(self).next_id == id + 1
                    &&& final(self).windows@ == old(self).windows@.push(initial_state(attrs, id))
                    &&& actions@ == initial_actions(attrs, id)
                },
                Err(e) => {
                    &&& e == WindowError::IdsExhausted
                    &&& old(self).next_id == u64::MAX
                    &&& *final(self) == *old(self)
                },
            },
    {
        if self.next_id == u64::MAX {
            return Err(WindowError::IdsExhausted);
        }
        let id = self.next_id;
        let ghost a = attrs;
        let size = match attrs.inner_size {
            Some(sz) => sz,
            None => LogicalSize { width: DEFAULT_WIDTH, height: DEFAULT_HEIGHT },
        };
        let mut actions: Vec<FrameAction> = Vec::new();
        match attrs.app_id {
            Some(app) => actions.push(FrameAction { window: id, op: FrameOp::SetAppId(app) }),
            None => {},
        }
        match attrs.fullscreen {
            Some(Fullscreen::Borderless(m)) => {
                actions.push(FrameAction { window: id, op: FrameOp::SetFullscreen(Some(m)) });
            },
            _ => {
                if attrs.maximized {
                    actions.push(FrameAction { window: id, op: FrameOp::SetMaximized(true) });
                }
            },
        }
        let mode = if attrs.decorations { DecorationMode::FollowServer } else { DecorationMode::Borderless };
        actions.push(FrameAction { window: id, op: FrameOp::SetResizable(attrs.resizable) });
        actions.push(FrameAction { window: id, op: FrameOp::SetDecorations(mode) });
        actions.push(FrameAction { window: id, op: FrameOp::SetTitle(attrs.title.clone()) });
        actions.push(FrameAction { window: id, op: FrameOp::SetMinSize(attrs.min_inner_size) });
        actions.push(FrameAction { window: id, op: FrameOp::SetMaxSize(attrs.max_inner_size) });
        let fullscreen = match attrs.fullscreen {
            Some(Fullscreen::Borderless(m)) => Some(m),
            _ => None,
        };
        let w = WindowState {
            id,
            size,
            scale_factor: 1,
            title: attrs.title,
            decorations: mode,
            resizable: attrs.resizable,
            min_size: attrs.min_inner_size,
            max_size: attrs.max_inner_size,
            fullscreen,
            configured_fullscreen: false,
            maximized: attrs.maximized && attrs.fullscreen.is_none(),
            minimized: false,
            cursor_icon: CursorIcon::Default,
            cursor_visible: true,
            cursor_grab: false,
            reported_size: size,
            reported_scale: 1,
            needs_refresh: false,
            needs_destroy: false,
        };
        self.windows.push(w);
        self.next_id = id + 1;
        proof {
            assert(actions@ =~= initial_actions(a, id));
            let ws = self.windows@;
            assert forall|i: int, j: int| 0 <= i < ws.len() && 0 <= j < ws.len() && ws[i].id == ws[j].id
                implies i == j by {
                if i < ws.len() - 1 && j < ws.len() - 1 {
                    assert(ws[i] == old(self).windows@[i] && ws[j] == old(self).windows@[j]);
                } else if i < ws.len() - 1 {
                    assert(ws[i] == old(self).windows@[i]);
                } else if j < ws.len() - 1 {
                    assert(ws[j] == old(self).windows@[j]);
                }
            }
            assert forall|i: int| 0 <= i < ws.len() implies ws[i].id < self.next_id by {
                if i < ws.len() - 1 {
                    assert(ws[i] == old(self).windows@[i]);
                }
            }
        }
        Ok((id, actions))
    }
}

proof fn lemma_update_keeps_ids(ws: Seq<WindowState>, i: int, w2: WindowState, next_id: WindowId)
    requires
        ids_unique(ws),
        0 <= i < ws.len(),
        w2.id == ws[i].id,
    ensures
        ids_unique(ws.update(i, w2)),
        (forall|k: int| 0 <= k < ws.len() ==> ws[k].id < next_id)
            ==> (forall|k: int| 0 <= k < ws.len() ==> ws.update(i, w2)[k].id < next_id),
        forall|id: WindowId| #[trigger] index_of(ws.update(i, w2), id) == index_of(ws, id),
{
    let ws2 = ws.update(i, w2);
    assert forall|a: int, b: int| 0 <= a < ws2.len() && 0 <= b < ws2.len() && ws2[a].id == ws2[b].id
        implies a == b by {
        assert(ws2[a].id == ws[a].id && ws2[b].id == ws[b].id);
    }
    assert forall|id: WindowId| #[trigger] index_of(ws2, id) == index_of(ws, id) by {
        if has_id(ws, id) {
            let j = choose|j: int| 0 <= j < ws.len() && ws[j].id == id;
            assert(ws2[j].id == id);
            lemma_index_of(ws, id, j);
            lemma_index_of(ws2, id, j);
        } else {
            assert forall|j: int| 0 <= j < ws2.len() implies ws2[j].id != id by {
                assert(ws2[j].id == ws[j].id);
            }
        }
    }
}

fn apply_request_to(w: &mut WindowState, req: WindowRequest) -> (r: Option<FrameOp>)
    ensures
        *final(w) == apply_request(*old(w), req),
        r == request_op(req),
{
    match req {
        WindowRequest::SetTitle(t) => {
            let op = FrameOp::SetTitle(t.clone());
            w.title = t;
            Some(op)
        },
        WindowRequest::SetInnerSize(sz) => {
            w.size = sz;
            None
        },
        WindowRequest::SetMinInnerSize(sz) => {
            w.min_size = sz;
            Some(FrameOp::SetMinSize(sz))
        },
        WindowRequest::SetMaxInnerSize(sz) => {
            w.max_size = sz;
            Some(FrameOp::SetMaxSize(sz))
        },
        WindowRequest::SetResizable(b) => {
            w.resizable = b;
            Some(FrameOp::SetResizable(b))
        },
        WindowRequest::SetDecorations(b) => {
            let mode = if b { DecorationMode::FollowServer } else { DecorationMode::Borderless };
            w.decorations = mode;
            Some(FrameOp::SetDecorations(mode))
        },
        WindowRequest::SetMaximized(b) => {
            w.maximized = b;
            Some(FrameOp::SetMaximized(b))
        },
        WindowRequest::SetMinimized => {
            w.minimized = true;
            Some(FrameOp::SetMinimized)
        },
        WindowRequest::SetFullscreen(m) => {
            w.fullscreen = m;
            Some(FrameOp::SetFullscreen(m))
        },
        WindowRequest::SetCursorIcon(c) => {
            w.cursor_icon = c;
            None
        },
        WindowRequest::SetCursorVisible(b) => {
            w.cursor_visible = b;
            None
        },
        WindowRequest::SetCursorGrab(b) => {
            w.cursor_grab = b;
            None
        },
        WindowRequest::RequestRedraw => {
            w.needs_refresh = true;
            None
        },
        WindowRequest::Destroy => {
            w.needs_destroy = true;
            None
        },
    }
}

impl WindowStore {
    /// Applies a request to the window `id`; only the attribute the request
    /// names changes. Returns the frame operation to perform now, if any.
    /// Requests for a window that is no longer live are dropped.
    pub fn apply_update(&mut self, id: WindowId, req: WindowRequest) -> (r: Option<FrameAction>)
        requires
            old(self).wf(),
        ensures
            final(self).wf(),
            final(self).next_id == old(self).next_id,
            match old(self).get(id) {
                Some(w) => {
                    &&& final(self).windows@ == update_window(old(self).windows@, id, apply_request(w, req))
                    &&& r == (match request_op(req) {
                        Some(op) => Some(frame_action(id, op)),
                        None => None::<FrameAction>,
                    })
                },
                None => *final(self) == *old(self) && r.is_none(),
            },
    {
        let i = match self.find(id) {
            Some(i) => i,
            None => return None,
        };
        let ghost w0 = self.windows@[i as int];
        let ghost rq = req;
        proof {
            lemma_index_of(self.windows@, id, i as int);
        }
        let op = apply_request_to(&mut self.windows[i], req);
        proof {
            assert(self.windows@ =~= old(self).windows@.update(i as int, apply_request(w0, rq)));
            lemma_update_keeps_ids(old(self).windows@, i as int, apply_request(w0, rq), self.next_id);
        }
        match op {
            Some(op) => Some(FrameAction { window: id, op }),
            None => None,
        }
    }
}

fn apply_frame_event_to(w: &mut WindowState, ev: FrameEvent)
    ensures
        *final(w) == apply_frame_event(*old(w), ev),
{
    match ev {
        FrameEvent::Configure { new_size, fullscreen } => {
            if let Some(sz) = new_size {
                w.size = sz;
            }
            w.configured_fullscreen = fullscreen;
        },
        FrameEvent::Refresh => {
            w.needs_refresh = true;
        },
        FrameEvent::Close => {},
    }
}

/// Events emitted at once for a notification from a window's frame.
pub open spec fn frame_event_output(id: WindowId, ev: FrameEvent) -> Seq<Event> {
    match ev {
        FrameEvent::Close => seq![wev(id, WindowEvent::CloseRequested)],
        _ => Seq::empty(),
    }
}

impl WindowStore {
    /// Records a notification from the frame of window `id`. A configure only
    /// records the proposed size: whether a Resized event follows is decided
    /// by `process`, after the application's own requests of the same
    /// iteration have been applied.
    pub fn handle_frame_event(&mut self, id: WindowId, ev: FrameEvent, out: &mut Vec<Event>)
        requires
            old(self).wf(),
        ensures
            final(self).wf(),
            final(self).next_id == old(self).next_id,
            match old(self).get(id) {
                Some(w) => {
                    &&& final(self).windows@ == update_window(old(self).windows@, id, apply_frame_event(w, ev))
                    &&& final(out)@ == old(out)@ + frame_event_output(id, ev)
                },
                None => *final(self) == *old(self) && final(out)@ == old(out)@,
            },
    {
        let i = match self.find(id) {
            Some(i) => i,
            None => return,
        };
        let ghost w0 = self.windows@[i as int];
        proof {
            lemma_index_of(self.windows@, id, i as int);
        }
        apply_frame_event_to(&mut self.windows[i], ev);
        if let FrameEvent::Close = ev {
            out.push(crate::event::event(id, WindowEvent::CloseRequested));
        }
        proof {
            assert(self.windows@ =~= old(self).windows@.update(i as int, apply_frame_event(w0, ev)));
            lemma_update_keeps_ids(old(self).windows@, i as int, apply_frame_event(w0, ev), self.next_id);
            assert(out@ =~= old(out)@ + frame_event_output(id, ev));
        }
    }

    /// Records the scale factor the compositor assigned to window `id` and
    /// emits ScaleFactorChanged with the inner size at the new factor.
    pub fn set_scale_factor(&mut self, id: WindowId, scale_factor: u32, out: &mut Vec<Event>)
        requires
            old(self).wf(),
        ensures
            final(self).wf(),
            final(self).next_id == old(self).next_id,
            match old(self).get(id) {
                Some(w) => {
                    &&& final(self).windows@ == update_window(old(self).windows@, id,
                        WindowState { scale_factor, ..w })
                    &&& final(out)@ == old(out)@.push(wev(id, WindowEvent::ScaleFactorChanged {
                        scale_factor,
                        width: physical_width(w.size, scale_factor),
                        height: physical_height(w.size, scale_factor),
                    }))
                },
                None => *final(self) == *old(self) && final(out)@ == old(out)@,
            },
    {
        let i = match self.find(id) {
            Some(i) => i,
            None => return,
        };
        let ghost w0 = self.windows@[i as int];
        proof {
            lemma_index_of(self.windows@, id, i as int);
        }
        self.windows[i].scale_factor = scale_factor;
        let (width, height) = to_physical_size(self.windows[i].size, scale_factor);
        out.push(crate::event::event(id, WindowEvent::ScaleFactorChanged { scale_factor, width, height }));
        proof {
            assert(self.windows@ =~= old(self).windows@.update(i as int, WindowState { scale_factor, ..w0 }));
            lemma_update_keeps_ids(old(self).windows@, i as int, WindowState { scale_factor, ..w0 }, self.next_id);
        }
    }

    /// The per-iteration pass over the table, in creation order. A window
    /// marked for destruction is removed and reported Destroyed. For the
    /// others, a Resized event is emitted only when the size or the scale
    /// factor differs from what was last reported, the frame is resized and
    /// refreshed before the window is asked to redraw, and a window asked to
    /// redraw without a resize only has its frame refreshed.
    /// Returns the window events (before MainEventsCleared), the redraw
    /// events, and the frame operations, each in table order.
    pub fn process(&mut self) -> (r: (Vec<Event>, Vec<Event>, Vec<FrameAction>))
        requires
            old(self).wf(),
        ensures
            final(self).wf(),
            final(self).next_id == old(self).next_id,
            final(self).windows@ == survivors(old(self).windows@),
            r.0@ == all_window_events(old(self).windows@),
            r.1@ == all_redraws(old(self).windows@),
            r.2@ == all_actions(old(self).windows@),
    {
        let mut rest: Vec<WindowState> = Vec::new();
        std::mem::swap(&mut self.windows, &mut rest);
        let ghost orig = rest@;
        let mut events: Vec<Event> = Vec::new();
        let mut redraws: Vec<Event> = Vec::new();
        let mut actions: Vec<FrameAction> = Vec::new();
        proof {
            assert(self.windows@ + survivors(orig) =~= survivors(orig));
            assert(events@ + all_window_events(orig) =~= all_window_events(orig));
            assert(redraws@ + all_redraws(orig) =~= all_redraws(orig));
            assert(actions@ + all_actions(orig) =~= all_actions(orig));
        }
        while rest.len() > 0
            invariant
                self.windows@ + survivors(rest@) == survivors(orig),
                events@ + all_window_events(rest@) == all_window_events(orig),
                redraws@ + all_redraws(rest@) == all_redraws(orig),
                actions@ + all_actions(rest@) == all_actions(orig),
                self.next_id == old(self).next_id,
                orig == old(self).windows@,
            decreases rest@.len(),
        {
            let ghost r0 = rest@;
            let ghost s0 = self.windows@;
            let ghost e0 = events@;
            let ghost d0 = redraws@;
            let ghost a0 = actions@;
            let w = rest.remove(0);
            proof {
                assert(rest@ =~= r0.skip(1));
                assert(w == r0[0]);
            }
            if w.needs_destroy {
                events.push(crate::event::event(w.id, WindowEvent::Destroyed));
                actions.push(FrameAction { window: w.id, op: FrameOp::Destroy });
            } else {
                let resized = w.size != w.reported_size || w.scale_factor != w.reported_scale;
                if resized {
                    let (width, height) = to_physical_size(w.size, w.scale_factor);
                    events.push(crate::event::event(w.id, WindowEvent::Resized { width, height }));
                    actions.push(FrameAction { window: w.id, op: FrameOp::Resize(w.size) });
                    actions.push(FrameAction { window: w.id, op: FrameOp::Refresh });
                    redraws.push(crate::event::event(w.id, WindowEvent::RedrawRequested));
                } else if w.needs_refresh {
                    actions.push(FrameAction { window: w.id, op: FrameOp::Refresh });
                    redraws.push(crate::event::event(w.id, WindowEvent::RedrawRequested));
                }
                let mut w2 = w;
                w2.reported_size = w2.size;
                w2.reported_scale = w2.scale_factor;
                w2.needs_refresh = false;
                self.windows.push(w2);
            }
            proof {
                let x = r0[0];
                assert(self.windows@ =~= s0 + survivor_of(x));
                assert(events@ =~= e0 + window_events_of(x));
                assert(redraws@ =~= d0 + redraws_of(x));
                assert(actions@ =~= a0 + actions_of(x));
                assert(s0 + survivors(r0) == s0 + (survivor_of(x) + survivors(rest@)));
                assert(self.windows@ + survivors(rest@) =~= s0 + (survivor_of(x) + survivors(rest@)));
                assert(e0 + all_window_events(r0) == e0 + (window_events_of(x) + all_window_events(rest@)));
                assert(events@ + all_window_events(rest@) =~= e0 + (window_events_of(x) + all_window_events(rest@)));
                assert(d0 + all_redraws(r0) == d0 + (redraws_of(x) + all_redraws(rest@)));
                assert(redraws@ + all_redraws(rest@) =~= d0 + (redraws_of(x) + all_redraws(rest@)));
                assert(a0 + all_actions(r0) == a0 + (actions_of(x) + all_actions(rest@)));
                assert(actions@ + all_actions(rest@) =~= a0 + (actions_of(x) + all_actions(rest@)));
            }
        }
        proof {
            assert(self.windows@ =~= self.windows@ + survivors(rest@));
            assert(events@ =~= events@ + all_window_events(rest@));
            assert(redraws@ =~= redraws@ + all_redraws(rest@));
            assert(actions@ =~= actions@ + all_actions(rest@));
            lemma_survivors_unique(orig);
            lemma_survivors_members(orig);
            assert forall|i: int| 0 <= i < self.windows@.len() implies self.windows@[i].id < self.next_id by {
                let j = choose|j: int| 0 <= j < orig.len() && !orig[j].needs_destroy && survivors(orig)[i] == settle(orig[j]);
                assert(orig[j].id < old(self).next_id);
            }
        }
        (events, redraws, actions)
    }

    /// Inner size of window `id` in physical pixels.
    pub fn inner_size(&self, id: WindowId) -> (r: Option<(u64, u64)>)
        requires
            self.wf(),
        ensures
            r == (match self.get(id) {
                Some(w) => Some((physical_width(w.size, w.scale_factor), physical_height(w.size, w.scale_factor))),
                None => None::<(u64, u64)>,
            }),
    {
        match self.find(id) {
            Some(i) => {
                proof {
                    lemma_index_of(self.windows@, id, i as int);
                }
                Some(to_physical_size(self.windows[i].size, self.windows[i].scale_factor))
            },
            None => None,
        }
    }
}

/// The events of `s` addressed to window `id`, in order.
pub open spec fn for_window(s: Seq<Event>, id: WindowId) -> Seq<Event>
    decreases s.len(),
{
    if s.len() == 0 {
        Seq::empty()
    } else {
        let head = match s[0] {
            Event::WindowEvent { window_id, .. } => if window_id == id { seq![s[0]] } else { Seq::empty() },
            _ => Seq::empty(),
        };
        head + for_window(s.skip(1), id)
    }
}

proof fn lemma_for_window_concat(a: Seq<Event>, b: Seq<Event>, id: WindowId)
    ensures
        for_window(a + b, id) == for_window(a, id) + for_window(b, id),
    decreases a.len(),
{
    if a.len() == 0 {
        assert(a + b =~= b);
        assert(for_window(a, id) + for_window(b, id) =~= for_window(b, id));
    } else {
        assert((a + b).skip(1) =~= a.skip(1) + b);
        assert((a + b)[0] == a[0]);
        lemma_for_window_concat(a.skip(1), b, id);
        let head = match a[0] {
            Event::WindowEvent { window_id, .. } => if window_id == id { seq![a[0]] } else { Seq::empty() },
            _ => Seq::empty(),
        };
        assert(for_window(a + b, id) == head + for_window(a.skip(1) + b, id));
        assert(head + (for_window(a.skip(1), id) + for_window(b, id)) =~= (head + for_window(a.skip(1), id)) + for_window(b, id));
    }
}

proof fn lemma_own_events(w: WindowState, id: WindowId)
    ensures
        for_window(window_events_of(w), id) == (if w.id == id { window_events_of(w) } else { Seq::empty() }),
{
    let s = window_events_of(w);
    if s.len() == 1 {
        assert(s.skip(1) =~= Seq::<Event>::empty());
        assert(for_window(s.skip(1), id) == Seq::<Event>::empty());
        if w.id == id {
            assert(for_window(s, id) =~= s);
        } else {
            assert(for_window(s, id) =~= Seq::<Event>::empty());
        }
    }
}

/// The window events the per-iteration pass emits for window `id` are those
/// of its own record.
pub proof fn lemma_window_events_for(ws: Seq<WindowState>, id: WindowId)
    requires
        ids_unique(ws),
    ensures
        for_window(all_window_events(ws), id) == (match lookup(ws, id) {
            Some(w) => window_events_of(w),
            None => Seq::<Event>::empty(),
        }),
    decreases ws.len(),
{
    if ws.len() > 0 {
        let tail = ws.skip(1);
        assert(ids_unique(tail)) by {
            assert forall|i: int, j: int| 0 <= i < tail.len() && 0 <= j < tail.len() && tail[i].id == tail[j].id
                implies i == j by {
                assert(tail[i] == ws[i + 1] && tail[j] == ws[j + 1]);
            }
        }
        lemma_window_events_for(tail, id);
        lemma_for_window_concat(window_events_of(ws[0]), all_window_events(tail), id);
        lemma_own_events(ws[0], id);
        if ws[0].id == id {
            lemma_index_of(ws, id, 0);
            assert forall|j: int| 0 <= j < tail.len() implies tail[j].id != id by {
                assert(tail[j] == ws[j + 1]);
            }
            assert(lookup(tail, id).is_none());
            assert(window_events_of(ws[0]) + Seq::<Event>::empty() =~= window_events_of(ws[0]));
        } else {
            if has_id(ws, id) {
                let j = choose|j: int| 0 <= j < ws.len() && ws[j].id == id;
                assert(j > 0);
                assert(tail[j - 1] == ws[j]);
                lemma_index_of(ws, id, j);
                lemma_index_of(tail, id, j - 1);
            } else {
                assert forall|j: int| 0 <= j < tail.len() implies tail[j].id != id by {
                    assert(tail[j] == ws[j + 1]);
                }
            }
            assert(Seq::<Event>::empty() + for_window(all_window_events(tail), id) =~= for_window(all_window_events(tail), id));
        }
    }
}

/// The application's size wins: when the compositor configures a live window
/// with one size and the application then asks for another before the
/// per-iteration pass, the pass emits exactly one event for that window, a
/// Resized carrying the application's size (in physical pixels), provided
/// that this differs from what was last reported.
pub proof fn lemma_requested_size_wins(
    ws: Seq<WindowState>,
    id: WindowId,
    configured: LogicalSize,
    fullscreen: bool,
    chosen: LogicalSize,
)
    requires
        ids_unique(ws),
        lookup(ws, id) matches Some(w) && !w.needs_destroy
            && (chosen != w.reported_size || w.scale_factor != w.reported_scale),
    ensures
        ({
            let w = lookup(ws, id).unwrap();
            let ws1 = update_window(ws, id, apply_frame_event(w, FrameEvent::Configure { new_size: Some(configured), fullscreen }));
            let w1 = lookup(ws1, id).unwrap();
            let ws2 = update_window(ws1, id, apply_request(w1, WindowRequest::SetInnerSize(chosen)));
            for_window(all_window_events(ws2), id) == seq![wev(id, WindowEvent::Resized {
                width: physical_width(chosen, w.scale_factor),
                height: physical_height(chosen, w.scale_factor),
            })]
        }),
{
    let w = lookup(ws, id).unwrap();
    let i = index_of(ws, id).unwrap();
    lemma_index_of(ws, id, i);
    let ws1 = update_window(ws, id, apply_frame_event(w, FrameEvent::Configure { new_size: Some(configured), fullscreen }));
    lemma_update_keeps_ids(ws, i, apply_frame_event(w, FrameEvent::Configure { new_size: Some(configured), fullscreen }), u64::MAX);
    lemma_index_of(ws1, id, i);
    let w1 = lookup(ws1, id).unwrap();
    let ws2 = update_window(ws1, id, apply_request(w1, WindowRequest::SetInnerSize(chosen)));
    lemma_update_keeps_ids(ws1, i, apply_request(w1, WindowRequest::SetInnerSize(chosen)), u64::MAX);
    lemma_index_of(ws2, id, i);
    lemma_window_events_for(ws2, id);
}

/// Ids are never handed out twice: in a well-formed table the id the next
/// window will receive belongs to no live window, and every id handed out
/// before it is smaller.
pub proof fn lemma_next_id_is_fresh(store: WindowStore)
    requires
        store.wf(),
    ensures
        !has_id(store.windows@, store.next_id),
        store.get(store.next_id).is_none(),
{
}

/// A configure that repeats is silent: once the per-iteration pass has
/// dealt with a configure, the same configure again yields no event for
/// that window, and a configure never yields more than one.
pub proof fn lemma_repeated_configure_is_silent(w: WindowState, new_size: Option<LogicalSize>, fullscreen: bool)
    requires
        !w.needs_destroy,
    ensures
        window_events_of(apply_frame_event(w, FrameEvent::Configure { new_size, fullscreen })).len() <= 1,
        window_events_of(apply_frame_event(
            settle(apply_frame_event(w, FrameEvent::Configure { new_size, fullscreen })),
            FrameEvent::Configure { new_size, fullscreen },
        )) == Seq::<Event>::empty(),
{
}

/// A handle on one window, safe to move to other threads: it holds only the
/// window's id. Its setters build the request to queue on the update
/// channel; nothing changes until the dispatch core drains it.
#[derive(Debug, Copy, Clone, PartialEq, Eq, Structural)]
pub struct WindowHandle {
    pub id: WindowId,
}

impl WindowHandle {
    /// Creates a window in the dispatch core and returns its handle and the
    /// frame operations that set it up.
    pub fn new(core: &mut Dispatcher, attributes: WindowAttributes) -> (r: Result<(WindowHandle, Vec<FrameAction>), WindowError>)
        requires
            old(core).wf(),
            !(attributes.fullscreen matches Some(Fullscreen::Exclusive(_))),
        ensures
            final(core).wf(),
            match r {
                Ok((h, actions)) => {
                    &&& old(core).windows.next_id < u64::MAX
                    &&& h.id == old(core).windows.next_id
                    &&& final(core).windows.next_id == h.id + 1
                    &&& final(core).windows.windows@ == old(core).windows.windows@.push(initial_state(attributes, h.id))
                    &&& actions@ == initial_actions(attributes, h.id)
                    &&& *final(core) == (Dispatcher { windows: final(core).windows, ..*old(core) })
                },
                Err(e) => {
                    &&& e == WindowError::IdsExhausted
                    &&& old(core).windows.next_id == u64::MAX
                    &&& *final(core) == *old(core)
                },
            },
    {
        match core.create_window(attributes) {
            Ok((id, actions)) => Ok((WindowHandle { id }, actions)),
            Err(e) => Err(e),
        }
    }

    pub fn id(&self) -> (r: WindowId)
        ensures
            r == self.id,
    {
        self.id
    }

    fn request(&self, request: WindowRequest) -> (r: Update)
        ensures
            r == (Update { window: self.id, request }),
    {
        Update { window: self.id, request }
    }

    pub fn set_title(&self, title: String) -> (r: Update)
        ensures
            r == (Update { window: self.id, request: WindowRequest::SetTitle(title) }),
    {
        self.request(WindowRequest::SetTitle(title))
    }

    /// The protocol does not expose window positions.
    pub fn outer_position(&self) -> (r: Result<(i32, i32), WindowError>)
        ensures
            r == Err::<(i32, i32), WindowError>(WindowError::NotSupported),
    {
        Err(WindowError::NotSupported)
    }

    /// The protocol does not expose window positions.
    pub fn inner_position(&self) -> (r: Result<(i32, i32), WindowError>)
        ensures
            r == Err::<(i32, i32), WindowError>(WindowError::NotSupported),
    {
        Err(WindowError::NotSupported)
    }

    /// The inner size in physical pixels, as last recorded by the dispatch core.
    pub fn inner_size(&self, windows: &WindowStore) -> (r: Option<(u64, u64)>)
        requires
            windows.wf(),
        ensures
            r == (match windows.get(self.id) {
                Some(w) => Some((physical_width(w.size, w.scale_factor), physical_height(w.size, w.scale_factor))),
                None => None::<(u64, u64)>,
            }),
    {
        windows.inner_size(self.id)
    }

    /// The protocol does not expose the size of the decorated frame.
    pub fn outer_size(&self) -> (r: Result<(u64, u64), WindowError>)
        ensures
            r == Err::<(u64, u64), WindowError>(WindowError::NotSupported),
    {
        Err(WindowError::NotSupported)
    }

    pub fn request_redraw(&self) -> (r: Update)
        ensures
            r == (Update { window: self.id, request: WindowRequest::RequestRedraw }),
    {
        self.request(WindowRequest::RequestRedraw)
    }

    /// Asks for a new inner size in logical pixels; only the frame is
    /// resized, the application redraws its contents.
    pub fn set_inner_size(&self, size: LogicalSize) -> (r: Update)
        ensures
            r == (Update { window: self.id, request: WindowRequest::SetInnerSize(size) }),
    {
        self.request(WindowRequest::SetInnerSize(size))
    }

    pub fn set_min_inner_size(&self, size: Option<LogicalSize>) -> (r: Update)
        ensures
            r == (Update { window: self.id, request: WindowRequest::SetMinInnerSize(size) }),
    {
        self.request(WindowRequest::SetMinInnerSize(size))
    }

    pub fn set_max_inner_size(&self, size: Option<LogicalSize>) -> (r: Update)
        ensures
            r == (Update { window: self.id, request: WindowRequest::SetMaxInnerSize(size) }),
    {
        self.request(WindowRequest::SetMaxInnerSize(size))
    }

    pub fn set_resizable(&self, resizable: bool) -> (r: Update)
        ensures
            r == (Update { window: self.id, request: WindowRequest::SetResizable(resizable) }),
    {
        self.request(WindowRequest::SetResizable(resizable))
    }

    /// The window's scale factor, as last recorded by the dispatch core.
    pub fn scale_factor(&self, windows: &WindowStore) -> (r: Option<u32>)
        requires
            windows.wf(),
        ensures
            r == (match windows.get(self.id) {
                Some(w) => Some(w.scale_factor),
                None => None::<u32>,
            }),
    {
        windows.scale_of(self.id)
    }

    pub fn set_decorations(&self, decorate: bool) -> (r: Update)
        ensures
            r == (Update { window: self.id, request: WindowRequest::SetDecorations(decorate) }),
    {
        self.request(WindowRequest::SetDecorations(decorate))
    }

    /// Minimizes the window; the protocol cannot bring a window back from
    /// minimized, so `false` asks for nothing.
    pub fn set_minimized(&self, minimized: bool) -> (r: Option<Update>)
        ensures
            r == (if minimized {
                Some(Update { window: self.id, request: WindowRequest::SetMinimized })
            } else {
                None::<Update>
            }),
    {
        if minimized { Some(self.request(WindowRequest::SetMinimized)) } else { None }
    }

    pub fn set_maximized(&self, maximized: bool) -> (r: Update)
        ensures
            r == (Update { window: self.id, request: WindowRequest::SetMaximized(maximized) }),
    {
        self.request(WindowRequest::SetMaximized(maximized))
    }

    /// Borderless fullscreen on the requested output, if the window is fullscreen.
    pub fn fullscreen(&self, windows: &WindowStore) -> (r: Option<Fullscreen>)
        requires
            windows.wf(),
        ensures
            r == (match windows.get(self.id) {
                Some(w) => match w.fullscreen {
                    Some(m) => Some(Fullscreen::Borderless(m)),
                    None => None::<Fullscreen>,
                },
                None => None::<Fullscreen>,
            }),
    {
        match windows.find(self.id) {
            Some(i) => {
                proof {
                    lemma_index_of(windows.windows@, self.id, i as int);
                }
                match windows.windows[i].fullscreen {
                    Some(m) => Some(Fullscreen::Borderless(m)),
                    None => None,
                }
            },
            None => None,
        }
    }

    /// Borderless fullscreen on an output, or leaving fullscreen. Exclusive
    /// fullscreen has no meaning in the protocol; asking for it is a
    /// configuration error that callers rule out first.
    pub fn set_fullscreen(&self, fullscreen: Option<Fullscreen>) -> (r: Update)
        requires
            !(fullscreen matches Some(Fullscreen::Exclusive(_))),
        ensures
            r == (Update {
                window: self.id,
                request: WindowRequest::SetFullscreen(match fullscreen {
                    Some(Fullscreen::Borderless(m)) => Some(m),
                    _ => None,
                }),
            }),
    {
        match fullscreen {
            Some(Fullscreen::Borderless(m)) => self.request(WindowRequest::SetFullscreen(Some(m))),
            _ => self.request(WindowRequest::SetFullscreen(None)),
        }
    }

    pub fn set_cursor_icon(&self, cursor: CursorIcon) -> (r: Update)
        ensures
            r == (Update { window: self.id, request: WindowRequest::SetCursorIcon(cursor) }),
    {
        self.request(WindowRequest::SetCursorIcon(cursor))
    }

    pub fn set_cursor_visible(&self, visible: bool) -> (r: Update)
        ensures
            r == (Update { window: self.id, request: WindowRequest::SetCursorVisible(visible) }),
    {
        self.request(WindowRequest::SetCursorVisible(visible))
    }

    pub fn set_cursor_grab(&self, grab: bool) -> (r: Update)
        ensures
            r == (Update { window: self.id, request: WindowRequest::SetCursorGrab(grab) }),
    {
        self.request(WindowRequest::SetCursorGrab(grab))
    }

    /// The protocol does not let clients move the pointer.
    pub fn set_cursor_position(&self, x: i32, y: i32) -> (r: Result<(), WindowError>)
        ensures
            r == Err::<(), WindowError>(WindowError::NotSupported),
    {
        Err(WindowError::NotSupported)
    }

    /// The request that destroys the window, sent when the handle goes away.
    pub fn destroy(&self) -> (r: Update)
        ensures
            r == (Update { window: self.id, request: WindowRequest::Destroy }),
    {
        self.request(WindowRequest::Destroy)
    }
}

} // verus!
