//! Deferred viewport lifecycle requests.
//!
//! The GUI core decides viewport lifecycle changes in the middle of its
//! layout pass, when native windows may not be touched.  Each decision is
//! recorded as one of these events and applied later, in order, by the
//! per-frame reconciler.

use vstd::prelude::*;
use crate::geom::{Pos, Size};

verus! {

/// One deferred viewport request.  Events for the same id are applied in
/// the order they were queued.
#[derive(Debug, Clone)]
pub enum ViewportEvent {
    /// A new viewport appeared: build it a native window and surface.
    Create(u32),
    /// The viewport is gone: release its window entry.
    Destroy(u32),
    /// Move the viewport's native window.
    SetPos(u32, Pos),
    /// Resize the viewport's native window.
    SetSize(u32, Size),
    /// Show the viewport's native window.
    SetVisible(u32),
    /// Give the viewport's native window input focus.
    SetFocus(u32),
    /// Retitle the viewport's native window.
    SetTitle(u32, String),
}

impl ViewportEvent {
    /// The viewport the request concerns.
    pub open spec fn vid(self) -> u32 {
        match self {
            ViewportEvent::Create(id) => id,
            ViewportEvent::Destroy(id) => id,
            ViewportEvent::SetPos(id, _) => id,
            ViewportEvent::SetSize(id, _) => id,
            ViewportEvent::SetVisible(id) => id,
            ViewportEvent::SetFocus(id) => id,
            ViewportEvent::SetTitle(id, _) => id,
        }
    }
}

} // verus!
