//! The platform backend: the sole intermediary between GUI-core viewport
//! decisions and the rest of the system.
//!
//! Every mutating callback only records metadata and queues an event; reads
//! return the most recently recorded metadata and never touch the queue.
//! The actual native-window work happens later, when the reconciler drains
//! the queue at the frame boundary.

use vstd::prelude::*;
use crate::events::ViewportEvent;
use crate::geom::{Pos, Size};
use crate::idmap::IdMap;

verus! {

/// Out-of-band state kept for one viewport: the last position, size and
/// focus reported by the window system (or seeded at creation), and whether
/// the window is minimized.
#[derive(Clone, Copy, Debug, PartialEq, Eq, Structural)]
pub struct ViewportData {
    pub pos: Pos,
    pub size: Size,
    pub focus: bool,
    pub minimized: bool,
}

/// The metadata record attached when a viewport is created: the viewport's
/// current position and size, unfocused and not minimized.
pub open spec fn seeded(pos: Pos, size: Size) -> ViewportData {
    ViewportData { pos, size, focus: false, minimized: false }
}

/// Per-viewport metadata plus the deferred event queue.
pub struct PlatformBackend {
    meta: IdMap<ViewportData>,
    queue: Vec<ViewportEvent>,
}

impl PlatformBackend {
    /// The metadata store: one record per live viewport id.
    pub closed spec fn metas(self) -> Map<u32, ViewportData> {
        self.meta@
    }

    /// The queued events, oldest first.
    pub closed spec fn pending(self) -> Seq<ViewportEvent> {
        self.queue@
    }

    pub closed spec fn wf(self) -> bool {
        self.meta.wf()
    }

    pub fn new() -> (r: Self)
        ensures
            r.metas() == Map::<u32, ViewportData>::empty(),
            r.pending() == Seq::<ViewportEvent>::empty(),
            r.wf(),
    {
        let r = PlatformBackend { meta: IdMap::new(), queue: Vec::new() };
        proof {
            assert(r.pending() =~= Seq::<ViewportEvent>::empty());
        }
        r
    }

    /// Attaches the metadata of the main viewport, which already has its
    /// native window: seeded from that window's position and size, focused,
    /// with nothing queued.
    pub fn attach_main(&mut self, id: u32, pos: Pos, size: Size)
        requires
            old(self).wf(),
        ensures
            final(self).metas() == old(self).metas().insert(
                id,
                ViewportData { pos, size, focus: true, minimized: false },
            ),
            final(self).pending() == old(self).pending(),
            final(self).wf(),
    {
        self.meta.insert(id, ViewportData { pos, size, focus: true, minimized: false });
    }

    /// GUI-core callback: a new viewport needs a native window.  Attaches
    /// metadata seeded from the viewport's current position and size and
    /// queues the creation; the window itself is built later by the
    /// reconciler.  The core creates each viewport once, so no metadata may
    /// be attached yet.
    pub fn create_window(&mut self, id: u32, pos: Pos, size: Size)
        requires
            old(self).wf(),
            !old(self).metas().contains_key(id),
        ensures
            final(self).metas() == old(self).metas().insert(id, seeded(pos, size)),
            final(self).pending() == old(self).pending().push(ViewportEvent::Create(id)),
            final(self).wf(),
    {
        self.meta.insert(id, ViewportData { pos, size, focus: false, minimized: false });
        self.queue.push(ViewportEvent::Create(id));
    }

    /// GUI-core callback: the viewport is gone.  Releases its metadata and
    /// queues the native window's destruction.  The core destroys each
    /// created viewport exactly once, so the metadata must still be attached.
    pub fn destroy_window(&mut self, id: u32)
        requires
            old(self).wf(),
            old(self).metas().contains_key(id),
        ensures
            final(self).metas() == old(self).metas().remove(id),
            final(self).pending() == old(self).pending().push(ViewportEvent::Destroy(id)),
            final(self).wf(),
    {
        self.meta.remove(id);
        self.queue.push(ViewportEvent::Destroy(id));
    }

    /// GUI-core callback: show the viewport's window.  A request only: the
    /// queue grows and nothing else changes.
    pub fn show_window(&mut self, id: u32)
        requires
            old(self).wf(),
        ensures
            final(self).metas() == old(self).metas(),
            final(self).pending() == old(self).pending().push(ViewportEvent::SetVisible(id)),
            final(self).wf(),
    {
        self.queue.push(ViewportEvent::SetVisible(id));
    }

    /// GUI-core callback: move the viewport's window.  A request only; the
    /// authoritative position stays whatever the metadata holds until the
    /// window system reports the move.
    pub fn set_window_pos(&mut self, id: u32, pos: Pos)
        requires
            old(self).wf(),
        ensures
            final(self).metas() == old(self).metas(),
            final(self).pending() == old(self).pending().push(ViewportEvent::SetPos(id, pos)),
            final(self).wf(),
    {
        self.queue.push(ViewportEvent::SetPos(id, pos));
    }

    /// GUI-core callback: resize the viewport's window.  A request only, as
    /// with `set_window_pos`.
    pub fn set_window_size(&mut self, id: u32, size: Size)
        requires
            old(self).wf(),
        ensures
            final(self).metas() == old(self).metas(),
            final(self).pending() == old(self).pending().push(ViewportEvent::SetSize(id, size)),
            final(self).wf(),
    {
        self.queue.push(ViewportEvent::SetSize(id, size));
    }

    /// GUI-core callback: focus the viewport's window.  A request only.
    pub fn set_window_focus(&mut self, id: u32)
        requires
            old(self).wf(),
        ensures
            final(self).metas() == old(self).metas(),
            final(self).pending() == old(self).pending().push(ViewportEvent::SetFocus(id)),
            final(self).wf(),
    {
        self.queue.push(ViewportEvent::SetFocus(id));
    }

    /// GUI-core callback: retitle the viewport's window.  A request only.
    pub fn set_window_title(&mut self, id: u32, title: String)
        requires
            old(self).wf(),
        ensures
            final(self).metas() == old(self).metas(),
            final(self).pending() == old(self).pending().push(
                ViewportEvent::SetTitle(id, title),
            ),
            final(self).wf(),
    {
        self.queue.push(ViewportEvent::SetTitle(id, title));
    }

    /// GUI-core callback: the viewport's last recorded position.  A pure
    /// read of the metadata; the queue plays no part.
    pub fn get_window_pos(&self, id: u32) -> (r: Pos)
        requires
            self.wf(),
            self.metas().contains_key(id),
        ensures
            r == self.metas()[id].pos,
    {
        self.meta.get(id).unwrap().pos
    }

    /// GUI-core callback: the viewport's last recorded size.  A pure read.
    pub fn get_window_size(&self, id: u32) -> (r: Size)
        requires
            self.wf(),
            self.metas().contains_key(id),
        ensures
            r == self.metas()[id].size,
    {
        self.meta.get(id).unwrap().size
    }

    /// GUI-core callback: whether the viewport's window holds focus.
    pub fn get_window_focus(&self, id: u32) -> (r: bool)
        requires
            self.wf(),
            self.metas().contains_key(id),
        ensures
            r == self.metas()[id].focus,
    {
        self.meta.get(id).unwrap().focus
    }

    /// GUI-core callback: whether the viewport's window is minimized.
    pub fn get_window_minimized(&self, id: u32) -> (r: bool)
        requires
            self.wf(),
            self.metas().contains_key(id),
        ensures
            r == self.metas()[id].minimized,
    {
        self.meta.get(id).unwrap().minimized
    }

    /// Whether a viewport id currently has metadata attached.
    pub fn is_live(&self, id: u32) -> (r: bool)
        requires
            self.wf(),
        ensures
            r == self.metas().contains_key(id),
    {
        self.meta.contains_key(id)
    }

    /// Input-router write: the window system reported a new size.
    pub fn record_os_size(&mut self, id: u32, size: Size)
        requires
            old(self).wf(),
            old(self).metas().contains_key(id),
        ensures
            final(self).metas() == old(self).metas().insert(
                id,
                ViewportData { size, ..old(self).metas()[id] },
            ),
            final(self).pending() == old(self).pending(),
            final(self).wf(),
    {
        let mut d = self.meta.get(id).unwrap();
        d.size = size;
        self.meta.insert(id, d);
    }

    /// Input-router write: the window system reported a new position.
    pub fn record_os_pos(&mut self, id: u32, pos: Pos)
        requires
            old(self).wf(),
            old(self).metas().contains_key(id),
        ensures
            final(self).metas() == old(self).metas().insert(
                id,
                ViewportData { pos, ..old(self).metas()[id] },
            ),
            final(self).pending() == old(self).pending(),
            final(self).wf(),
    {
        let mut d = self.meta.get(id).unwrap();
        d.pos = pos;
        self.meta.insert(id, d);
    }

    /// Input-router write: the window system reported a focus change.
    pub fn record_os_focus(&mut self, id: u32, focus: bool)
        requires
            old(self).wf(),
            old(self).metas().contains_key(id),
        ensures
            final(self).metas() == old(self).metas().insert(
                id,
                ViewportData { focus, ..old(self).metas()[id] },
            ),
            final(self).pending() == old(self).pending(),
            final(self).wf(),
    {
        let mut d = self.meta.get(id).unwrap();
        d.focus = focus;
        self.meta.insert(id, d);
    }

    /// Takes the oldest queued event, if any: the reconciler's sole way of
    /// consuming the queue, strictly first-in first-out.
    pub fn pop_event(&mut self) -> (r: Option<ViewportEvent>)
        requires
            old(self).wf(),
        ensures
            final(self).metas() == old(self).metas(),
            final(self).wf(),
            match r {
                Some(e) => old(self).pending().len() > 0 && e == old(self).pending()[0]
                    && final(self).pending() == old(self).pending().remove(0),
                None => old(self).pending().len() == 0 && final(self).pending() == old(
                    self,
                ).pending(),
            },
    {
        if self.queue.len() == 0 {
            None
        } else {
            Some(self.queue.remove(0))
        }
    }

    /// How many events wait in the queue.  The queue is fully drained each
    /// frame; a persistent backlog means the reconciler is not being driven.
    pub fn pending_len(&self) -> (n: usize)
        ensures
            n == self.pending().len(),
    {
        self.queue.len()
    }
}

/// Reads after creation see exactly the seeding values: `get_window_pos` and
/// `get_window_size` consult only the metadata map, where `create_window`
/// binds the id to the seeded record, so the answer is the seeding position
/// and size no matter what the event queue holds.
pub proof fn lemma_seeded_reads(m: Map<u32, ViewportData>, id: u32, pos: Pos, size: Size)
    ensures
        m.insert(id, seeded(pos, size))[id].pos == pos,
        m.insert(id, seeded(pos, size))[id].size == size,
{
}

} // verus!
