//! The input router: resolving events to viewports and feeding the GUI
//! core's input state.

use imgui_wgpu_winit::events::ViewportEvent;
use imgui_wgpu_winit::geom::{Pos, Size};
use imgui_wgpu_winit::input::{enable_docking_and_viewports, GuiKey, IoEvent, KeyCode, MouseButtonCode, GuiMouseButton};
use imgui_wgpu_winit::platform::{PlatformEvent, Renderer, WindowEvent};
use imgui_wgpu_winit::reconciler::{GuiViewports, ViewportInfo};

const MAIN_ID: u32 = 0;
const MAIN_WINDOW: u64 = 1000;

fn fresh() -> Renderer {
    Renderer::new(MAIN_ID, MAIN_WINDOW, Pos::new(10, 20), Size::new(1280, 720))
}

/// Builds a secondary viewport with the given id and native window through
/// the real callback-and-drain path.
fn with_secondary(r: &mut Renderer, id: u32, os_window: u64, pos: Pos, size: Size) {
    r.backend.create_window(id, pos, size);
    let mut gui = GuiViewports::new();
    gui.insert(id, ViewportInfo { pos, size, no_decoration: false });
    while let Some(e) = r.backend.pop_event() {
        let _ = r.windows.plan_event(&gui, &e);
        r.windows.commit_event(&gui, &e, os_window);
    }
}

#[test]
fn main_resize_updates_display_size_and_reconfigures_exactly() {
    let mut r = fresh();
    let out = r.handle_event(&PlatformEvent::Window {
        source: MAIN_WINDOW,
        event: WindowEvent::Resized(Size::new(800, 600)),
    });
    // The next frame's display-size input is exactly the new size, and the
    // main surface is reconfigured to exactly that size.
    assert_eq!(r.io.display_size, Size::new(800, 600));
    assert_eq!(out.reconfigure, Some((MAIN_WINDOW, Size::new(800, 600))));
    assert_eq!(out.request_resize, Some(MAIN_ID));
    assert_eq!(r.backend.get_window_size(MAIN_ID), Size::new(800, 600));
}

#[test]
fn secondary_resize_reconfigures_its_surface_not_the_display() {
    let mut r = fresh();
    with_secondary(&mut r, 7, 77, Pos::new(0, 0), Size::new(300, 200));
    let out = r.handle_event(&PlatformEvent::Window {
        source: 77,
        event: WindowEvent::Resized(Size::new(400, 250)),
    });
    assert_eq!(out.target, Some(7));
    assert_eq!(out.request_resize, Some(7));
    assert_eq!(out.reconfigure, Some((77, Size::new(400, 250))));
    assert_eq!(r.io.display_size, Size::new(1280, 720));
    assert_eq!(r.windows.get(7).unwrap().surface_size, Size::new(400, 250));
    assert_eq!(r.backend.get_window_size(7), Size::new(400, 250));
}

#[test]
fn moved_and_focused_update_metadata() {
    let mut r = fresh();
    with_secondary(&mut r, 3, 33, Pos::new(0, 0), Size::new(100, 100));
    let out = r.handle_event(&PlatformEvent::Window {
        source: 33,
        event: WindowEvent::Moved(Pos::new(-5, 60)),
    });
    assert_eq!(out.request_move, Some(3));
    assert_eq!(r.backend.get_window_pos(3), Pos::new(-5, 60));
    r.handle_event(&PlatformEvent::Window { source: 33, event: WindowEvent::Focused(true) });
    assert!(r.backend.get_window_focus(3));
}

#[test]
fn close_request_flags_secondary_but_not_main() {
    let mut r = fresh();
    with_secondary(&mut r, 3, 33, Pos::new(0, 0), Size::new(100, 100));
    let out = r.handle_event(&PlatformEvent::Window {
        source: 33,
        event: WindowEvent::CloseRequested,
    });
    assert_eq!(out.request_close, Some(3));
    let out = r.handle_event(&PlatformEvent::Window {
        source: MAIN_WINDOW,
        event: WindowEvent::CloseRequested,
    });
    assert_eq!(out.request_close, None);
}

#[test]
fn modifier_key_press_reports_twice() {
    // A left-shift press reports both the generalized shift modifier and
    // the specific left-shift key, both pressed.
    let mut r = fresh();
    r.handle_event(&PlatformEvent::Window {
        source: MAIN_WINDOW,
        event: WindowEvent::KeyboardInput { key: KeyCode::LShift, pressed: true },
    });
    let events = r.io.take_events();
    assert_eq!(
        events,
        vec![
            IoEvent::Key(GuiKey::ModShift, true),
            IoEvent::Key(GuiKey::LeftShift, true),
        ]
    );
}

#[test]
fn plain_key_reports_once_and_unknown_not_at_all() {
    let mut r = fresh();
    r.handle_event(&PlatformEvent::Window {
        source: MAIN_WINDOW,
        event: WindowEvent::KeyboardInput { key: KeyCode::A, pressed: true },
    });
    r.handle_event(&PlatformEvent::Window {
        source: MAIN_WINDOW,
        event: WindowEvent::KeyboardInput { key: KeyCode::Other, pressed: true },
    });
    assert_eq!(r.io.take_events(), vec![IoEvent::Key(GuiKey::A, true)]);
}

#[test]
fn modifiers_changed_reports_all_four_bits() {
    let mut r = fresh();
    r.handle_event(&PlatformEvent::Window {
        source: MAIN_WINDOW,
        event: WindowEvent::ModifiersChanged { shift: true, ctrl: false, alt: true, logo: false },
    });
    assert_eq!(
        r.io.take_events(),
        vec![
            IoEvent::Key(GuiKey::ModShift, true),
            IoEvent::Key(GuiKey::ModCtrl, false),
            IoEvent::Key(GuiKey::ModAlt, true),
            IoEvent::Key(GuiKey::ModSuper, false),
        ]
    );
}

#[test]
fn cursor_position_is_virtual_when_viewports_are_on() {
    let mut r = fresh();
    // Window-local position while multi-viewport mode is off.
    r.handle_event(&PlatformEvent::Window {
        source: MAIN_WINDOW,
        event: WindowEvent::CursorMoved(Pos::new(5, 6)),
    });
    assert_eq!(r.io.take_events(), vec![IoEvent::MousePos(Pos::new(5, 6))]);
    // With viewports on, the window's origin is added in: the main window
    // sits at (10,20).
    enable_docking_and_viewports(&mut r.io, true, true);
    r.handle_event(&PlatformEvent::Window {
        source: MAIN_WINDOW,
        event: WindowEvent::CursorMoved(Pos::new(5, 6)),
    });
    assert_eq!(r.io.take_events(), vec![IoEvent::MousePos(Pos::new(15, 26))]);
}

#[test]
fn wheel_character_and_buttons_feed_through() {
    let mut r = fresh();
    r.handle_event(&PlatformEvent::Window {
        source: MAIN_WINDOW,
        event: WindowEvent::MouseWheel { h: 0, v: -1 },
    });
    r.handle_event(&PlatformEvent::Window {
        source: MAIN_WINDOW,
        event: WindowEvent::ReceivedCharacter('q'),
    });
    r.handle_event(&PlatformEvent::Window {
        source: MAIN_WINDOW,
        event: WindowEvent::MouseInput { button: MouseButtonCode::Other(3), pressed: true },
    });
    r.handle_event(&PlatformEvent::Window {
        source: MAIN_WINDOW,
        event: WindowEvent::MouseInput { button: MouseButtonCode::Other(9), pressed: true },
    });
    assert_eq!(
        r.io.take_events(),
        vec![
            IoEvent::MouseWheel(0, -1),
            IoEvent::Character('q'),
            IoEvent::MouseButton(GuiMouseButton::Extra1, true),
        ]
    );
}

#[test]
fn events_of_unknown_windows_are_ignored() {
    let mut r = fresh();
    let out = r.handle_event(&PlatformEvent::Window {
        source: 424242,
        event: WindowEvent::Resized(Size::new(1, 1)),
    });
    assert_eq!(out.target, None);
    assert_eq!(out.reconfigure, None);
    assert_eq!(r.io.display_size, Size::new(1280, 720));
    assert!(r.io.take_events().is_empty());
}

#[test]
fn device_key_release_reports_the_release() {
    let mut r = fresh();
    let out = r.handle_event(&PlatformEvent::DeviceKeyReleased(KeyCode::W));
    assert_eq!(out.target, None);
    assert_eq!(r.io.take_events(), vec![IoEvent::Key(GuiKey::W, false)]);
}

#[test]
fn routing_never_touches_the_queue() {
    let mut r = fresh();
    r.backend.create_window(2, Pos::new(0, 0), Size::new(8, 8));
    let before = r.backend.pending_len();
    r.handle_event(&PlatformEvent::Window {
        source: MAIN_WINDOW,
        event: WindowEvent::Resized(Size::new(640, 480)),
    });
    r.handle_event(&PlatformEvent::Window {
        source: MAIN_WINDOW,
        event: WindowEvent::KeyboardInput { key: KeyCode::A, pressed: true },
    });
    assert_eq!(r.backend.pending_len(), before);
    // The queued creation is still first out.
    assert!(matches!(r.backend.pop_event(), Some(ViewportEvent::Create(2))));
}
