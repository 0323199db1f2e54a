//! The per-viewport render plan and the mouse-cursor translation.
//!
//! The renderer multiplexer owns one principal renderer for the main window
//! and builds a renderer lazily for each secondary viewport the first time
//! it is drawn.  For each secondary window the plan below says what the
//! frame needs; the embedding carries it out against the live surface and
//! reports back through `WindowTable::mark_renderer_ready` and
//! `WindowTable::record_surface_size`.

use vstd::prelude::*;
use crate::geom::Size;
use crate::reconciler::WindowEntry;

verus! {

/// Whether a surface configured at `surface` no longer fits a window of
/// size `window`: either dimension differing calls for reconfiguration.
pub open spec fn needs_reconfigure(window: Size, surface: Size) -> bool {
    window.width != surface.width || window.height != surface.height
}

/// What one secondary viewport needs this frame.
#[derive(Clone, Copy, Debug, PartialEq, Eq, Structural)]
pub struct RenderStep {
    /// Build the entry's renderer first: it has none yet.
    pub build_renderer: bool,
    /// Draw this viewport; a viewport without draw data is skipped without
    /// error.
    pub draw: bool,
    /// Reconfigure the surface to this size before acquiring the render
    /// target.
    pub reconfigure: Option<Size>,
}

/// Plans one secondary viewport's render pass: build the renderer on first
/// use, skip viewports with no draw data yet, and reconfigure the surface
/// when the window's size has drifted from the surface's.  A frame that
/// fails to come off the surface is the embedding's signal to skip the
/// viewport for this frame; the plan never fails.
pub fn plan_secondary_render(entry: &WindowEntry, window_size: Size, has_draw_data: bool) -> (r:
    RenderStep)
    ensures
        r.build_renderer == !entry.renderer_ready,
        r.draw == has_draw_data,
        r.reconfigure == if has_draw_data && needs_reconfigure(window_size, entry.surface_size) {
            Some(window_size)
        } else {
            None::<Size>
        },
{
    let reconfigure = if has_draw_data && (window_size.width != entry.surface_size.width
        || window_size.height != entry.surface_size.height) {
        Some(window_size)
    } else {
        None
    };
    RenderStep { build_renderer: !entry.renderer_ready, draw: has_draw_data, reconfigure }
}

/// A GUI-core mouse cursor shape.
#[derive(Clone, Copy, Debug, PartialEq, Eq, Structural)]
pub enum MouseCursor {
    Arrow,
    TextInput,
    ResizeAll,
    ResizeNS,
    ResizeEW,
    ResizeNESW,
    ResizeNWSE,
    Hand,
    NotAllowed,
}

/// A window-system cursor icon.
#[derive(Clone, Copy, Debug, PartialEq, Eq, Structural)]
pub enum CursorIcon {
    Default,
    Text,
    Move,
    NsResize,
    EwResize,
    NeswResize,
    NwseResize,
    Hand,
    NotAllowed,
}

/// The window-system icon a GUI-core cursor shape translates to.
pub open spec fn winit_cursor_of(cursor: MouseCursor) -> CursorIcon {
    match cursor {
        MouseCursor::Arrow => CursorIcon::Default,
        MouseCursor::TextInput => CursorIcon::Text,
        MouseCursor::ResizeAll => CursorIcon::Move,
        MouseCursor::ResizeNS => CursorIcon::NsResize,
        MouseCursor::ResizeEW => CursorIcon::EwResize,
        MouseCursor::ResizeNESW => CursorIcon::NeswResize,
        MouseCursor::ResizeNWSE => CursorIcon::NwseResize,
        MouseCursor::Hand => CursorIcon::Hand,
        MouseCursor::NotAllowed => CursorIcon::NotAllowed,
    }
}

/// Translates a GUI-core cursor shape into the window system's icon.
pub fn to_winit_cursor(cursor: MouseCursor) -> (r: CursorIcon)
    ensures
        r == winit_cursor_of(cursor),
{
    match cursor {
        MouseCursor::Arrow => CursorIcon::Default,
        MouseCursor::TextInput => CursorIcon::Text,
        MouseCursor::ResizeAll => CursorIcon::Move,
        MouseCursor::ResizeNS => CursorIcon::NsResize,
        MouseCursor::ResizeEW => CursorIcon::EwResize,
        MouseCursor::ResizeNESW => CursorIcon::NeswResize,
        MouseCursor::ResizeNWSE => CursorIcon::NwseResize,
        MouseCursor::Hand => CursorIcon::Hand,
        MouseCursor::NotAllowed => CursorIcon::NotAllowed,
    }
}

} // verus!
