//! The viewport reconciler: the only component that decides native window
//! creation, destruction and reconfiguration.
//!
//! Once per frame, after the GUI core's layout pass, the embedding drains
//! the event queue in order.  For each event, `plan_event` says which native
//! operation is due and `commit_event` records its effect on the table of
//! secondary windows.  Creation is two-phase: the entry is committed only
//! once the embedding reports the native window that was actually built, so
//! a failed construction leaves no phantom entry behind.

use vstd::prelude::*;
use crate::events::ViewportEvent;
use crate::geom::{Pos, Size};
use crate::idmap::IdMap;

verus! {

/// What the GUI core currently reports for one viewport: the values a
/// freshly created native window is built from.
#[derive(Clone, Copy, Debug, PartialEq, Eq, Structural)]
pub struct ViewportInfo {
    pub pos: Pos,
    pub size: Size,
    /// The viewport asked for an undecorated window (no title bar or border).
    pub no_decoration: bool,
}

/// The GUI core's current viewport set, rebuilt by the embedding before each
/// drain: a create request whose viewport has already disappeared is skipped.
pub type GuiViewports = IdMap<ViewportInfo>;

/// One secondary window the reconciler manages: the native window identity,
/// whether a renderer has been built for it yet, the size its surface was
/// last configured with, and whether it has been shown.
#[derive(Clone, Copy, Debug, PartialEq, Eq, Structural)]
pub struct WindowEntry {
    pub os_window: u64,
    pub renderer_ready: bool,
    pub surface_size: Size,
    pub visible: bool,
}

/// The entry committed for a freshly created window: no renderer yet (built
/// lazily on first draw), surface configured to the creation size, hidden
/// until an explicit show request arrives.
pub open spec fn fresh_entry(os_window: u64, size: Size) -> WindowEntry {
    WindowEntry { os_window, renderer_ready: false, surface_size: size, visible: false }
}

/// The native operation one drained event calls for.
#[derive(Debug, Clone)]
pub enum OsAction {
    /// Build a native window at `pos` of `size` (hidden, resizable), create
    /// a surface for it and configure the surface to `size`.
    CreateWindow { id: u32, pos: Pos, size: Size, decorated: bool },
    /// Release the entry's renderer, surface and native window, in that
    /// order.
    DestroyWindow { id: u32, os_window: u64 },
    /// Move the native window.
    MoveWindow { os_window: u64, pos: Pos },
    /// Resize the native window.
    ResizeWindow { os_window: u64, size: Size },
    /// Show the native window.
    ShowWindow { os_window: u64 },
    /// Give the native window input focus.
    FocusWindow { os_window: u64 },
    /// Retitle the native window.
    RetitleWindow { os_window: u64, title: String },
}

/// How one event changes the window table.  `w` is the identity of the
/// native window the embedding built, read only for a create whose viewport
/// still exists.  Requests for ids with no entry change nothing.
pub open spec fn apply_event_spec(
    t: Map<u32, WindowEntry>,
    gui: Map<u32, ViewportInfo>,
    e: ViewportEvent,
    w: u64,
) -> Map<u32, WindowEntry> {
    match e {
        ViewportEvent::Create(id) => if gui.contains_key(id) {
            t.insert(id, fresh_entry(w, gui[id].size))
        } else {
            t
        },
        ViewportEvent::Destroy(id) => t.remove(id),
        ViewportEvent::SetVisible(id) => if t.contains_key(id) {
            t.insert(id, WindowEntry { visible: true, ..t[id] })
        } else {
            t
        },
        _ => t,
    }
}

/// Which native operation one event calls for, against the current table
/// and viewport set.  `None` means the event is dropped silently: a create
/// whose viewport already disappeared, or a request for an id with no entry.
pub open spec fn plan_event_spec(
    t: Map<u32, WindowEntry>,
    gui: Map<u32, ViewportInfo>,
    e: ViewportEvent,
) -> Option<OsAction> {
    match e {
        ViewportEvent::Create(id) => if gui.contains_key(id) {
            Some(
                OsAction::CreateWindow {
                    id,
                    pos: gui[id].pos,
                    size: gui[id].size,
                    decorated: !gui[id].no_decoration,
                },
            )
        } else {
            None
        },
        ViewportEvent::Destroy(id) => if t.contains_key(id) {
            Some(OsAction::DestroyWindow { id, os_window: t[id].os_window })
        } else {
            None
        },
        ViewportEvent::SetPos(id, pos) => if t.contains_key(id) {
            Some(OsAction::MoveWindow { os_window: t[id].os_window, pos })
        } else {
            None
        },
        ViewportEvent::SetSize(id, size) => if t.contains_key(id) {
            Some(OsAction::ResizeWindow { os_window: t[id].os_window, size })
        } else {
            None
        },
        ViewportEvent::SetVisible(id) => if t.contains_key(id) {
            Some(OsAction::ShowWindow { os_window: t[id].os_window })
        } else {
            None
        },
        ViewportEvent::SetFocus(id) => if t.contains_key(id) {
            Some(OsAction::FocusWindow { os_window: t[id].os_window })
        } else {
            None
        },
        ViewportEvent::SetTitle(id, title) => if t.contains_key(id) {
            Some(OsAction::RetitleWindow { os_window: t[id].os_window, title })
        } else {
            None
        },
    }
}

/// The table after a whole drain: the events folded in order.  `ws[i]` is
/// the native window built for the `i`-th event, read only where that event
/// is a create.
pub open spec fn drain_spec(
    t: Map<u32, WindowEntry>,
    gui: Map<u32, ViewportInfo>,
    q: Seq<ViewportEvent>,
    ws: Seq<u64>,
) -> Map<u32, WindowEntry>
    decreases q.len(),
{
    if q.len() == 0 {
        t
    } else {
        let w = if ws.len() > 0 {
            ws[0]
        } else {
            0
        };
        drain_spec(apply_event_spec(t, gui, q[0], w), gui, q.skip(1), ws.skip(1))
    }
}

/// The mapping from viewport id to its secondary window entry.
pub struct WindowTable {
    entries: IdMap<WindowEntry>,
}

impl WindowTable {
    pub closed spec fn table(self) -> Map<u32, WindowEntry> {
        self.entries@
    }

    /// The live viewport ids, in storage order.
    pub closed spec fn keys(self) -> Seq<u32> {
        self.entries.key_seq()
    }

    pub closed spec fn wf(self) -> bool {
        self.entries.wf()
    }

    pub fn new() -> (r: Self)
        ensures
            r.table() == Map::<u32, WindowEntry>::empty(),
            r.wf(),
    {
        WindowTable { entries: IdMap::new() }
    }

    pub fn len(&self) -> (n: usize)
        ensures
            n == self.keys().len(),
    {
        self.entries.len()
    }

    /// The entry at storage index `i`, for walking every live window.
    pub fn at(&self, i: usize) -> (r: (u32, WindowEntry))
        requires
            self.wf(),
            i < self.keys().len(),
        ensures
            r.0 == self.keys()[i as int],
            self.table().contains_key(r.0),
            r.1 == self.table()[r.0],
    {
        self.entries.at(i)
    }

    pub fn get(&self, id: u32) -> (r: Option<WindowEntry>)
        requires
            self.wf(),
        ensures
            match r {
                Some(e) => self.table().contains_key(id) && e == self.table()[id],
                None => !self.table().contains_key(id),
            },
    {
        self.entries.get(id)
    }

    /// The native operation the next event calls for; the table is not
    /// changed.  `None` means the event is dropped silently.
    pub fn plan_event(&self, gui: &GuiViewports, e: &ViewportEvent) -> (r: Option<OsAction>)
        requires
            self.wf(),
            gui.wf(),
        ensures
            r == plan_event_spec(self.table(), gui@, *e),
    {
        match e {
            ViewportEvent::Create(id) => match gui.get(*id) {
                Some(info) => Some(
                    OsAction::CreateWindow {
                        id: *id,
                        pos: info.pos,
                        size: info.size,
                        decorated: !info.no_decoration,
                    },
                ),
                None => None,
            },
            ViewportEvent::Destroy(id) => match self.entries.get(*id) {
                Some(entry) => Some(OsAction::DestroyWindow { id: *id, os_window: entry.os_window }),
                None => None,
            },
            ViewportEvent::SetPos(id, pos) => match self.entries.get(*id) {
                Some(entry) => Some(OsAction::MoveWindow { os_window: entry.os_window, pos: *pos }),
                None => None,
            },
            ViewportEvent::SetSize(id, size) => match self.entries.get(*id) {
                Some(entry) => Some(
                    OsAction::ResizeWindow { os_window: entry.os_window, size: *size },
                ),
                None => None,
            },
            ViewportEvent::SetVisible(id) => match self.entries.get(*id) {
                Some(entry) => Some(OsAction::ShowWindow { os_window: entry.os_window }),
                None => None,
            },
            ViewportEvent::SetFocus(id) => match self.entries.get(*id) {
                Some(entry) => Some(OsAction::FocusWindow { os_window: entry.os_window }),
                None => None,
            },
            ViewportEvent::SetTitle(id, title) => match self.entries.get(*id) {
                Some(entry) => Some(
                    OsAction::RetitleWindow { os_window: entry.os_window, title: title.clone() },
                ),
                None => None,
            },
        }
    }

    /// Records one event's effect on the table, after the embedding carried
    /// out the planned operation.  `created` is the native window built for
    /// a create event; it is read only in that case.
    pub fn commit_event(&mut self, gui: &GuiViewports, e: &ViewportEvent, created: u64)
        requires
            old(self).wf(),
            gui.wf(),
        ensures
            final(self).table() == apply_event_spec(old(self).table(), gui@, *e, created),
            final(self).wf(),
    {
        match e {
            ViewportEvent::Create(id) => {
                if gui.contains_key(*id) {
                    let info = gui.get(*id).unwrap();
                    self.entries.insert(
                        *id,
                        WindowEntry {
                            os_window: created,
                            renderer_ready: false,
                            surface_size: info.size,
                            visible: false,
                        },
                    );
                }
            },
            ViewportEvent::Destroy(id) => {
                self.entries.remove(*id);
            },
            ViewportEvent::SetVisible(id) => {
                match self.entries.get(*id) {
                    Some(entry) => {
                        self.entries.insert(*id, WindowEntry { visible: true, ..entry });
                    },
                    None => {},
                }
            },
            _ => {},
        }
    }

    /// Which viewport an operating-system window belongs to: the input
    /// router resolves event targets through this and never mutates entries.
    pub fn resolve(&self, os_window: u64) -> (r: Option<u32>)
        requires
            self.wf(),
        ensures
            match r {
                Some(id) => self.table().contains_key(id) && self.table()[id].os_window
                    == os_window,
                None => forall|id: u32|
                    self.table().contains_key(id) ==> (#[trigger] self.table()[id]).os_window
                        != os_window,
            },
    {
        let n = self.entries.len();
        let mut i: usize = 0;
        while i < n
            invariant
                self.wf(),
                n == self.keys().len(),
                i <= n,
                forall|j: int|
                    0 <= j < i ==> (#[trigger] self.table()[self.keys()[j]]).os_window != os_window,
            decreases n - i,
        {
            let (id, entry) = self.entries.at(i);
            if entry.os_window == os_window {
                return Some(id);
            }
            i = i + 1;
        }
        proof {
            assert forall|id: u32| self.table().contains_key(id) implies (
            #[trigger] self.table()[id]).os_window != os_window by {
                self.entries.lemma_key_seq_domain(id);
                let j = choose|j: int|
                    0 <= j < self.keys().len() && (#[trigger] self.keys()[j]) == id;
                assert(self.table()[self.keys()[j]].os_window != os_window);
            }
        }
        None
    }

    /// Input-router write-through: a secondary window was resized by the
    /// window system, and its surface has been reconfigured to match.
    pub fn record_surface_size(&mut self, id: u32, size: Size)
        requires
            old(self).wf(),
            old(self).table().contains_key(id),
        ensures
            final(self).table() == old(self).table().insert(
                id,
                WindowEntry { surface_size: size, ..old(self).table()[id] },
            ),
            final(self).wf(),
    {
        let entry = self.entries.get(id).unwrap();
        self.entries.insert(id, WindowEntry { surface_size: size, ..entry });
    }

    /// Render-pass write-through: the entry's renderer has been built.
    pub fn mark_renderer_ready(&mut self, id: u32)
        requires
            old(self).wf(),
            old(self).table().contains_key(id),
        ensures
            final(self).table() == old(self).table().insert(
                id,
                WindowEntry { renderer_ready: true, ..old(self).table()[id] },
            ),
            final(self).wf(),
    {
        let entry = self.entries.get(id).unwrap();
        self.entries.insert(id, WindowEntry { renderer_ready: true, ..entry });
    }

    /// However many create and destroy requests a drain applies, the table
    /// keeps at most one live entry per viewport id: entries are keyed
    /// uniquely, so two storage indices bearing the same id coincide.  Every
    /// mutating operation ensures the well-formedness this rests on.
    pub proof fn lemma_at_most_one_live_entry(self, id: u32, p: int, q: int)
        requires
            self.wf(),
            0 <= p < self.keys().len(),
            0 <= q < self.keys().len(),
            self.keys()[p] == id,
            self.keys()[q] == id,
        ensures
            p == q,
    {
        self.entries.lemma_key_unique(p, q);
    }
}

/// Cross-id isolation: draining a sequence holding no event for `id` leaves
/// that id's entry exactly as it was, present or absent.  Only an id's own
/// events, applied in queue order, ever shape its entry.
pub proof fn lemma_drain_frames_other_ids(
    t: Map<u32, WindowEntry>,
    gui: Map<u32, ViewportInfo>,
    q: Seq<ViewportEvent>,
    ws: Seq<u64>,
    id: u32,
)
    requires
        forall|i: int| 0 <= i < q.len() ==> (#[trigger] q[i]).vid() != id,
    ensures
        drain_spec(t, gui, q, ws).contains_key(id) == t.contains_key(id),
        t.contains_key(id) ==> drain_spec(t, gui, q, ws)[id] == t[id],
    decreases q.len(),
{
    if q.len() > 0 {
        let w = if ws.len() > 0 {
            ws[0]
        } else {
            0
        };
        let t1 = apply_event_spec(t, gui, q[0], w);
        assert(q[0].vid() != id);
        assert(t1.contains_key(id) == t.contains_key(id) && (t.contains_key(id) ==> t1[id]
            == t[id]));
        assert(forall|i: int| 0 <= i < q.skip(1).len() ==> (#[trigger] q.skip(1)[i]).vid() != id);
        lemma_drain_frames_other_ids(t1, gui, q.skip(1), ws.skip(1), id);
    }
}

/// Destroying a viewport and re-creating it in the same drain leaves exactly
/// the fresh entry live for that id, and the destroy step planned the
/// release of the prior entry's renderer, surface and window, so nothing
/// leaks.
pub proof fn lemma_destroy_then_create(
    t: Map<u32, WindowEntry>,
    gui: Map<u32, ViewportInfo>,
    id: u32,
    w_new: u64,
)
    requires
        gui.contains_key(id),
    ensures
        ({
            let t1 = apply_event_spec(t, gui, ViewportEvent::Destroy(id), 0);
            let t2 = apply_event_spec(t1, gui, ViewportEvent::Create(id), w_new);
            &&& t2 == t.remove(id).insert(id, fresh_entry(w_new, gui[id].size))
            &&& t2.contains_key(id)
            &&& t2[id] == fresh_entry(w_new, gui[id].size)
        }),
        t.contains_key(id) ==> plan_event_spec(t, gui, ViewportEvent::Destroy(id)) == Some(
            OsAction::DestroyWindow { id, os_window: t[id].os_window },
        ),
{
}

/// A size request for an id with no entry is a silent no-op: no native
/// operation is planned and the table is unchanged.  The same holds for
/// move, show, focus and retitle requests.
pub proof fn lemma_set_size_absent_is_noop(
    t: Map<u32, WindowEntry>,
    gui: Map<u32, ViewportInfo>,
    id: u32,
    size: Size,
    w: u64,
)
    requires
        !t.contains_key(id),
    ensures
        apply_event_spec(t, gui, ViewportEvent::SetSize(id, size), w) == t,
        plan_event_spec(t, gui, ViewportEvent::SetSize(id, size)) is None,
{
}

} // verus!
