//! The reconciler: draining the queue in order against the window table.

use imgui_wgpu_winit::backend::PlatformBackend;
use imgui_wgpu_winit::events::ViewportEvent;
use imgui_wgpu_winit::geom::{Pos, Size};
use imgui_wgpu_winit::reconciler::{GuiViewports, OsAction, ViewportInfo, WindowTable};

fn gui_with(id: u32, pos: Pos, size: Size) -> GuiViewports {
    let mut gui = GuiViewports::new();
    gui.insert(id, ViewportInfo { pos, size, no_decoration: false });
    gui
}

#[test]
fn create_show_destroy_then_stale_requests_drop() {
    // The full lifecycle scenario: create viewport 7 at (100,50) sized
    // 300x200, reconcile, show it, destroy it, then watch stale requests
    // for it fall through silently.
    let gui = gui_with(7, Pos::new(100, 50), Size::new(300, 200));
    let mut backend = PlatformBackend::new();
    let mut table = WindowTable::new();

    // The creation callback queues exactly one event.
    backend.create_window(7, Pos::new(100, 50), Size::new(300, 200));
    assert_eq!(backend.pending_len(), 1);
    let event = backend.pop_event().unwrap();
    assert!(matches!(event, ViewportEvent::Create(7)));

    let plan = table.plan_event(&gui, &event);
    match plan {
        Some(OsAction::CreateWindow { id, pos, size, decorated }) => {
            assert_eq!(id, 7);
            assert_eq!(pos, Pos::new(100, 50));
            assert_eq!(size, Size::new(300, 200));
            assert!(decorated);
        }
        other => panic!("expected a window creation, got {other:?}"),
    }
    table.commit_event(&gui, &event, 77);
    let entry = table.get(7).expect("entry must be live after creation");
    assert_eq!(entry.os_window, 77);
    assert!(!entry.visible, "a fresh window stays hidden until shown");
    assert!(!entry.renderer_ready, "the renderer is built lazily");
    assert_eq!(entry.surface_size, Size::new(300, 200));

    let plan = table.plan_event(&gui, &ViewportEvent::SetVisible(7));
    assert!(matches!(plan, Some(OsAction::ShowWindow { os_window: 77 })));
    table.commit_event(&gui, &ViewportEvent::SetVisible(7), 0);
    assert!(table.get(7).unwrap().visible);

    let plan = table.plan_event(&gui, &ViewportEvent::Destroy(7));
    assert!(matches!(plan, Some(OsAction::DestroyWindow { id: 7, os_window: 77 })));
    table.commit_event(&gui, &ViewportEvent::Destroy(7), 0);
    assert!(table.get(7).is_none());

    // Two stale requests for the destroyed id are dropped silently.
    let stale_pos = ViewportEvent::SetPos(7, Pos::new(1, 1));
    let stale_size = ViewportEvent::SetSize(7, Size::new(2, 2));
    assert!(table.plan_event(&gui, &stale_pos).is_none());
    table.commit_event(&gui, &stale_pos, 0);
    assert!(table.plan_event(&gui, &stale_size).is_none());
    table.commit_event(&gui, &stale_size, 0);
    assert_eq!(table.len(), 0);
}

#[test]
fn destroy_then_create_same_drain_leaves_one_fresh_entry() {
    let gui = gui_with(7, Pos::new(0, 0), Size::new(64, 64));
    let mut table = WindowTable::new();
    table.commit_event(&gui, &ViewportEvent::Create(7), 10);
    assert_eq!(table.get(7).unwrap().os_window, 10);

    // Destroy(7) then Create(7) in the same drain: the destroy releases the
    // old window, the create commits exactly one fresh entry.
    let plan = table.plan_event(&gui, &ViewportEvent::Destroy(7));
    assert!(matches!(plan, Some(OsAction::DestroyWindow { id: 7, os_window: 10 })));
    table.commit_event(&gui, &ViewportEvent::Destroy(7), 0);
    table.commit_event(&gui, &ViewportEvent::Create(7), 11);

    assert_eq!(table.len(), 1, "exactly one live entry");
    let entry = table.get(7).unwrap();
    assert_eq!(entry.os_window, 11, "the entry is the fresh one");
    assert!(!entry.renderer_ready);
}

#[test]
fn create_for_vanished_viewport_is_skipped() {
    // The viewport disappeared before the drain: the create is skipped
    // silently.
    let gui = GuiViewports::new();
    let mut table = WindowTable::new();
    assert!(table.plan_event(&gui, &ViewportEvent::Create(7)).is_none());
    table.commit_event(&gui, &ViewportEvent::Create(7), 99);
    assert!(table.get(7).is_none());
}

#[test]
fn undecorated_viewport_plans_undecorated_window() {
    let mut gui = GuiViewports::new();
    gui.insert(2, ViewportInfo { pos: Pos::new(5, 5), size: Size::new(20, 20), no_decoration: true });
    let table = WindowTable::new();
    match table.plan_event(&gui, &ViewportEvent::Create(2)) {
        Some(OsAction::CreateWindow { decorated, .. }) => assert!(!decorated),
        other => panic!("expected a window creation, got {other:?}"),
    }
}

#[test]
fn requests_plan_against_the_live_entry() {
    let gui = gui_with(1, Pos::new(0, 0), Size::new(10, 10));
    let mut table = WindowTable::new();
    table.commit_event(&gui, &ViewportEvent::Create(1), 40);
    assert!(matches!(
        table.plan_event(&gui, &ViewportEvent::SetPos(1, Pos::new(7, 8))),
        Some(OsAction::MoveWindow { os_window: 40, pos }) if pos == Pos::new(7, 8)
    ));
    assert!(matches!(
        table.plan_event(&gui, &ViewportEvent::SetSize(1, Size::new(9, 9))),
        Some(OsAction::ResizeWindow { os_window: 40, size }) if size == Size::new(9, 9)
    ));
    assert!(matches!(
        table.plan_event(&gui, &ViewportEvent::SetFocus(1)),
        Some(OsAction::FocusWindow { os_window: 40 })
    ));
    match table.plan_event(&gui, &ViewportEvent::SetTitle(1, String::from("tools"))) {
        Some(OsAction::RetitleWindow { os_window, title }) => {
            assert_eq!(os_window, 40);
            assert_eq!(title, "tools");
        }
        other => panic!("expected a retitle, got {other:?}"),
    }
}

#[test]
fn resolve_finds_the_owning_viewport() {
    let gui = gui_with(1, Pos::new(0, 0), Size::new(10, 10));
    let gui2 = gui_with(2, Pos::new(0, 0), Size::new(10, 10));
    let mut table = WindowTable::new();
    table.commit_event(&gui, &ViewportEvent::Create(1), 100);
    table.commit_event(&gui2, &ViewportEvent::Create(2), 200);
    assert_eq!(table.resolve(100), Some(1));
    assert_eq!(table.resolve(200), Some(2));
    assert_eq!(table.resolve(300), None);
    // Walking the table by index visits each live entry once.
    let mut seen = Vec::new();
    for i in 0..table.len() {
        let (id, entry) = table.at(i);
        seen.push((id, entry.os_window));
    }
    seen.sort();
    assert_eq!(seen, vec![(1, 100), (2, 200)]);
}
