//! The integration layer's verified state: metadata store, event queue,
//! window table, input model and cursor cache, under one roof.
//!
//! The embedding owns the GUI context, the native windows and the graphics
//! device; this type owns every decision about them.  Window-system events
//! come in through [`Renderer::handle_event`] as plain values; what the
//! embedding must do in response comes back out as an [`EventOutcome`].

use vstd::prelude::*;
use crate::backend::{PlatformBackend, ViewportData};
use crate::events::ViewportEvent;
use crate::geom::{virtual_pos, Pos, Size};
use crate::input::{
    gui_key_of, gui_mouse_button_of, handle_key_modifier, key_input_events,
    modifiers_changed_events, to_imgui_key, to_imgui_mouse_button, GuiKey, IoEvent, IoState,
    KeyCode, MouseButtonCode,
};
use crate::reconciler::{WindowEntry, WindowTable};
use crate::render::{to_winit_cursor, winit_cursor_of, CursorIcon, MouseCursor};

verus! {

/// A window-system event, already reduced to plain values by the embedding.
#[derive(Clone, Copy, Debug)]
pub enum WindowEvent {
    /// The window system resized the window.
    Resized(Size),
    /// The window system moved the window.
    Moved(Pos),
    /// The user asked to close the window.
    CloseRequested,
    /// A character was typed.
    ReceivedCharacter(char),
    /// The window gained or lost focus.
    Focused(bool),
    /// A key went down or up.
    KeyboardInput { key: KeyCode, pressed: bool },
    /// The modifier state was reported anew.
    ModifiersChanged { shift: bool, ctrl: bool, alt: bool, logo: bool },
    /// The cursor moved to this window-local position.
    CursorMoved(Pos),
    /// The wheel scrolled by whole steps.
    MouseWheel { h: i32, v: i32 },
    /// A mouse button went down or up.
    MouseInput { button: MouseButtonCode, pressed: bool },
}

/// One event off the platform's event loop.
#[derive(Clone, Copy, Debug)]
pub enum PlatformEvent {
    /// An event of the window identified by `source`.
    Window { source: u64, event: WindowEvent },
    /// A device-level key release, not tied to any window.
    DeviceKeyReleased(KeyCode),
}

/// What the embedding must do after routing one event.
#[derive(Clone, Copy, Debug, PartialEq, Eq)]
pub struct EventOutcome {
    /// The viewport the event was resolved to, if any.
    pub target: Option<u32>,
    /// Tell the GUI core the platform resized this viewport.
    pub request_resize: Option<u32>,
    /// Tell the GUI core the platform moved this viewport.
    pub request_move: Option<u32>,
    /// Tell the GUI core the platform asked to close this viewport.
    pub request_close: Option<u32>,
    /// Reconfigure this native window's surface to this size now, before
    /// anything renders into a stale-sized surface.
    pub reconfigure: Option<(u64, Size)>,
}

/// An outcome demanding nothing of the embedding.
pub open spec fn quiet_outcome(target: Option<u32>) -> EventOutcome {
    EventOutcome {
        target,
        request_resize: None,
        request_move: None,
        request_close: None,
        reconfigure: None,
    }
}

/// The events a device-level key release reports: the released key alone,
/// where a translation exists.
pub open spec fn device_release_events(key: KeyCode) -> Seq<IoEvent> {
    match gui_key_of(key) {
        Some(k) => seq![IoEvent::Key(k, false)],
        None => Seq::empty(),
    }
}

/// The events a mouse-button change reports, where the button has a
/// translation.
pub open spec fn button_events(button: MouseButtonCode, down: bool) -> Seq<IoEvent> {
    match gui_mouse_button_of(button) {
        Some(b) => seq![IoEvent::MouseButton(b, down)],
        None => Seq::empty(),
    }
}

/// The verified core of the multi-viewport renderer backend: everything but
/// the GUI context, the native windows and the graphics handles themselves,
/// which the embedding owns and drives according to this state.
pub struct Renderer {
    /// Viewport metadata and the deferred event queue.
    pub backend: PlatformBackend,
    /// The secondary windows the reconciler manages.
    pub windows: WindowTable,
    /// The model of the GUI core's input state.
    pub io: IoState,
    /// The cursor icon last handed to the window system.
    pub last_cursor: CursorIcon,
    /// The main viewport's id.
    pub main_id: u32,
    /// The main window's native identity.
    pub main_window: u64,
}

impl Renderer {
    pub open spec fn wf(self) -> bool {
        &&& self.backend.wf()
        &&& self.windows.wf()
        &&& self.backend.metas().contains_key(self.main_id)
    }

    /// Seeds the integration layer: the main viewport's metadata from the
    /// main window's position and size (focused, not minimized), the
    /// display size from the same size, and everything else empty.
    pub fn new(main_id: u32, main_window: u64, main_pos: Pos, main_size: Size) -> (r: Renderer)
        ensures
            r.wf(),
            r.main_id == main_id,
            r.main_window == main_window,
            r.backend.metas() == Map::<u32, ViewportData>::empty().insert(
                main_id,
                ViewportData { pos: main_pos, size: main_size, focus: true, minimized: false },
            ),
            r.backend.pending() == Seq::<ViewportEvent>::empty(),
            r.windows.table() == Map::<u32, WindowEntry>::empty(),
            r.io.display_size == main_size,
            !r.io.docking_enabled,
            !r.io.viewports_enabled,
            r.io.events@ == Seq::<IoEvent>::empty(),
            r.last_cursor == CursorIcon::Default,
    {
        let mut backend = PlatformBackend::new();
        backend.attach_main(main_id, main_pos, main_size);
        Renderer {
            backend,
            windows: WindowTable::new(),
            io: IoState::new(main_size),
            last_cursor: CursorIcon::Default,
            main_id,
            main_window,
        }
    }

    /// Routes one window-system event: translates input into the GUI core's
    /// vocabulary, records structural changes in the viewport metadata, and
    /// says what the embedding must do in turn.  Events of windows this
    /// layer does not know are ignored.  The deferred event queue is never
    /// touched: routing reads window identities and writes metadata only.
    pub fn handle_event(&mut self, event: &PlatformEvent) -> (r: EventOutcome)
        requires
            old(self).wf(),
        ensures
            final(self).wf(),
            final(self).main_id == old(self).main_id,
            final(self).main_window == old(self).main_window,
            final(self).last_cursor == old(self).last_cursor,
            final(self).io.docking_enabled == old(self).io.docking_enabled,
            final(self).io.viewports_enabled == old(self).io.viewports_enabled,
            final(self).backend.pending() == old(self).backend.pending(),
            match *event {
                PlatformEvent::DeviceKeyReleased(key) => {
                    &&& final(self).backend.metas() == old(self).backend.metas()
                    &&& final(self).windows.table() == old(self).windows.table()
                    &&& final(self).io.display_size == old(self).io.display_size
                    &&& final(self).io.events@ == old(self).io.events@ + device_release_events(key)
                    &&& r == quiet_outcome(None)
                },
                PlatformEvent::Window { source, event: wev } => {
                    &&& source == old(self).main_window ==> r.target == Some(old(self).main_id)
                    &&& match r.target {
                        None => {
                            &&& source != old(self).main_window
                            &&& final(self).backend.metas() == old(self).backend.metas()
                            &&& final(self).windows.table() == old(self).windows.table()
                            &&& final(self).io.display_size == old(self).io.display_size
                            &&& final(self).io.events@ == old(self).io.events@
                            &&& r == quiet_outcome(None)
                        },
                        Some(id) => {
                            &&& old(self).backend.metas().contains_key(id)
                            &&& (source == old(self).main_window ==> id == old(self).main_id)
                            &&& (source != old(self).main_window ==> old(self).windows.table().contains_key(id) && old(self).windows.table()[id].os_window
                                == source)
                            &&& match wev {
                                WindowEvent::Resized(size) => {
                                    &&& final(self).backend.metas() == old(self).backend.metas().insert(
                                        id,
                                        ViewportData { size, ..old(self).backend.metas()[id] },
                                    )
                                    &&& final(self).io.events@ == old(self).io.events@
                                    &&& r == (EventOutcome {
                                        target: Some(id),
                                        request_resize: Some(id),
                                        request_move: None,
                                        request_close: None,
                                        reconfigure: Some((source, size)),
                                    })
                                    &&& (source == old(self).main_window ==> final(self).io.display_size == size && final(self).windows.table() == old(self).windows.table())
                                    &&& (source != old(self).main_window ==> final(self).io.display_size == old(self).io.display_size && final(self).windows.table() == old(self).windows.table().insert(
                                        id,
                                        WindowEntry {
                                            surface_size: size,
                                            ..old(self).windows.table()[id]
                                        },
                                    ))
                                },
                                WindowEvent::Moved(pos) => {
                                    &&& final(self).backend.metas() == old(self).backend.metas().insert(
                                        id,
                                        ViewportData { pos, ..old(self).backend.metas()[id] },
                                    )
                                    &&& final(self).windows.table() == old(self).windows.table()
                                    &&& final(self).io.display_size == old(self).io.display_size
                                    &&& final(self).io.events@ == old(self).io.events@
                                    &&& r == (EventOutcome {
                                        target: Some(id),
                                        request_resize: None,
                                        request_move: Some(id),
                                        request_close: None,
                                        reconfigure: None,
                                    })
                                },
                                WindowEvent::CloseRequested => {
                                    &&& final(self).backend.metas() == old(self).backend.metas()
                                    &&& final(self).windows.table() == old(self).windows.table()
                                    &&& final(self).io.display_size == old(self).io.display_size
                                    &&& final(self).io.events@ == old(self).io.events@
                                    &&& r == (EventOutcome {
                                        target: Some(id),
                                        request_resize: None,
                                        request_move: None,
                                        request_close: if source == old(self).main_window {
                                            None
                                        } else {
                                            Some(id)
                                        },
                                        reconfigure: None,
                                    })
                                },
                                WindowEvent::ReceivedCharacter(c) => {
                                    &&& final(self).backend.metas() == old(self).backend.metas()
                                    &&& final(self).windows.table() == old(self).windows.table()
                                    &&& final(self).io.display_size == old(self).io.display_size
                                    &&& final(self).io.events@ == old(self).io.events@.push(
                                        IoEvent::Character(c),
                                    )
                                    &&& r == quiet_outcome(Some(id))
                                },
                                WindowEvent::Focused(focus) => {
                                    &&& final(self).backend.metas() == old(self).backend.metas().insert(
                                        id,
                                        ViewportData { focus, ..old(self).backend.metas()[id] },
                                    )
                                    &&& final(self).windows.table() == old(self).windows.table()
                                    &&& final(self).io.display_size == old(self).io.display_size
                                    &&& final(self).io.events@ == old(self).io.events@
                                    &&& r == quiet_outcome(Some(id))
                                },
                                WindowEvent::KeyboardInput { key, pressed } => {
                                    &&& final(self).backend.metas() == old(self).backend.metas()
                                    &&& final(self).windows.table() == old(self).windows.table()
                                    &&& final(self).io.display_size == old(self).io.display_size
                                    &&& final(self).io.events@ == old(self).io.events@
                                        + key_input_events(key, pressed)
                                    &&& r == quiet_outcome(Some(id))
                                },
                                WindowEvent::ModifiersChanged { shift, ctrl, alt, logo } => {
                                    &&& final(self).backend.metas() == old(self).backend.metas()
                                    &&& final(self).windows.table() == old(self).windows.table()
                                    &&& final(self).io.display_size == old(self).io.display_size
                                    &&& final(self).io.events@ == old(self).io.events@
                                        + modifiers_changed_events(shift, ctrl, alt, logo)
                                    &&& r == quiet_outcome(Some(id))
                                },
                                WindowEvent::CursorMoved(pos) => {
                                    &&& final(self).backend.metas() == old(self).backend.metas()
                                    &&& final(self).windows.table() == old(self).windows.table()
                                    &&& final(self).io.display_size == old(self).io.display_size
                                    &&& final(self).io.events@ == old(self).io.events@.push(
                                        IoEvent::MousePos(
                                            if old(self).io.viewports_enabled {
                                                virtual_pos(
                                                    pos,
                                                    old(self).backend.metas()[id].pos,
                                                )
                                            } else {
                                                pos
                                            },
                                        ),
                                    )
                                    &&& r == quiet_outcome(Some(id))
                                },
                                WindowEvent::MouseWheel { h, v } => {
                                    &&& final(self).backend.metas() == old(self).backend.metas()
                                    &&& final(self).windows.table() == old(self).windows.table()
                                    &&& final(self).io.display_size == old(self).io.display_size
                                    &&& final(self).io.events@ == old(self).io.events@.push(
                                        IoEvent::MouseWheel(h, v),
                                    )
                                    &&& r == quiet_outcome(Some(id))
                                },
                                WindowEvent::MouseInput { button, pressed } => {
                                    &&& final(self).backend.metas() == old(self).backend.metas()
                                    &&& final(self).windows.table() == old(self).windows.table()
                                    &&& final(self).io.display_size == old(self).io.display_size
                                    &&& final(self).io.events@ == old(self).io.events@
                                        + button_events(button, pressed)
                                    &&& r == quiet_outcome(Some(id))
                                },
                            }
                        },
                    }
                },
            },
    {
        let quiet = EventOutcome {
            target: None,
            request_resize: None,
            request_move: None,
            request_close: None,
            reconfigure: None,
        };
        match *event {
            PlatformEvent::DeviceKeyReleased(key) => {
                match to_imgui_key(key) {
                    Some(k) => {
                        self.io.add_key_event(k, false);
                        proof {
                            assert(self.io.events@ =~= old(self).io.events@
                                + device_release_events(key));
                        }
                    },
                    None => {
                        proof {
                            assert(self.io.events@ =~= old(self).io.events@
                                + device_release_events(key));
                        }
                    },
                }
                quiet
            },
            PlatformEvent::Window { source, event: wev } => {
                let target: u32 = if source == self.main_window {
                    self.main_id
                } else {
                    match self.windows.resolve(source) {
                        Some(id) => {
                            if self.backend.is_live(id) {
                                id
                            } else {
                                return quiet;
                            }
                        },
                        None => {
                            return quiet;
                        },
                    }
                };
                let is_main = source == self.main_window;
                let mut out = EventOutcome { target: Some(target), ..quiet };
                match wev {
                    WindowEvent::Resized(size) => {
                        self.backend.record_os_size(target, size);
                        out.request_resize = Some(target);
                        out.reconfigure = Some((source, size));
                        if is_main {
                            self.io.display_size = size;
                        } else {
                            self.windows.record_surface_size(target, size);
                        }
                    },
                    WindowEvent::Moved(pos) => {
                        self.backend.record_os_pos(target, pos);
                        out.request_move = Some(target);
                    },
                    WindowEvent::CloseRequested => {
                        if !is_main {
                            out.request_close = Some(target);
                        }
                    },
                    WindowEvent::ReceivedCharacter(c) => {
                        self.io.add_input_character(c);
                    },
                    WindowEvent::Focused(focus) => {
                        self.backend.record_os_focus(target, focus);
                    },
                    WindowEvent::KeyboardInput { key, pressed } => {
                        handle_key_modifier(&mut self.io, key, pressed);
                        match to_imgui_key(key) {
                            Some(k) => {
                                self.io.add_key_event(k, pressed);
                            },
                            None => {},
                        }
                        proof {
                            assert(self.io.events@ =~= old(self).io.events@
                                + key_input_events(key, pressed));
                        }
                    },
                    WindowEvent::ModifiersChanged { shift, ctrl, alt, logo } => {
                        self.io.add_key_event(GuiKey::ModShift, shift);
                        self.io.add_key_event(GuiKey::ModCtrl, ctrl);
                        self.io.add_key_event(GuiKey::ModAlt, alt);
                        self.io.add_key_event(GuiKey::ModSuper, logo);
                        proof {
                            assert(self.io.events@ =~= old(self).io.events@
                                + modifiers_changed_events(shift, ctrl, alt, logo));
                        }
                    },
                    WindowEvent::CursorMoved(pos) => {
                        if self.io.viewports_enabled {
                            let origin = self.backend.get_window_pos(target);
                            let vpos = crate::geom::offset_pos(pos, origin);
                            self.io.add_mouse_pos_event(vpos);
                        } else {
                            self.io.add_mouse_pos_event(pos);
                        }
                    },
                    WindowEvent::MouseWheel { h, v } => {
                        self.io.add_mouse_wheel_event(h, v);
                    },
                    WindowEvent::MouseInput { button, pressed } => {
                        match to_imgui_mouse_button(button) {
                            Some(b) => {
                                self.io.add_mouse_button_event(b, pressed);
                            },
                            None => {},
                        }
                        proof {
                            assert(self.io.events@ =~= old(self).io.events@ + button_events(
                                button,
                                pressed,
                            ));
                        }
                    },
                }
                out
            },
        }
    }

    /// Keeps the window system's cursor in step with the GUI core's: where
    /// the shape differs from the one last applied, returns the icon the
    /// embedding must set on every window, and remembers it.
    pub fn prepare_render(&mut self, cursor: Option<MouseCursor>) -> (r: Option<CursorIcon>)
        requires
            old(self).wf(),
        ensures
            final(self).wf(),
            final(self).backend == old(self).backend,
            final(self).windows == old(self).windows,
            final(self).io == old(self).io,
            final(self).main_id == old(self).main_id,
            final(self).main_window == old(self).main_window,
            match cursor {
                Some(c) => if winit_cursor_of(c) != old(self).last_cursor {
                    r == Some(winit_cursor_of(c)) && final(self).last_cursor == winit_cursor_of(c)
                } else {
                    r is None && final(self).last_cursor == old(self).last_cursor
                },
                None => r is None && final(self).last_cursor == old(self).last_cursor,
            },
    {
        match cursor {
            Some(c) => {
                let icon = to_winit_cursor(c);
                if icon != self.last_cursor {
                    self.last_cursor = icon;
                    Some(icon)
                } else {
                    None
                }
            },
            None => None,
        }
    }
}

} // verus!
