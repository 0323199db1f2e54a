//! The secondary-viewport render planner and the cursor cache.

use imgui_wgpu_winit::events::ViewportEvent;
use imgui_wgpu_winit::geom::{Pos, Size};
use imgui_wgpu_winit::platform::Renderer;
use imgui_wgpu_winit::reconciler::{GuiViewports, ViewportInfo, WindowTable};
use imgui_wgpu_winit::render::{plan_secondary_render, to_winit_cursor, CursorIcon, MouseCursor};

fn table_with(id: u32, os_window: u64, size: Size) -> WindowTable {
    let mut gui = GuiViewports::new();
    gui.insert(id, ViewportInfo { pos: Pos::new(0, 0), size, no_decoration: false });
    let mut table = WindowTable::new();
    table.commit_event(&gui, &ViewportEvent::Create(id), os_window);
    table
}

#[test]
fn first_draw_builds_the_renderer_lazily() {
    let mut table = table_with(5, 50, Size::new(300, 200));
    let entry = table.get(5).unwrap();
    let step = plan_secondary_render(&entry, Size::new(300, 200), true);
    assert!(step.build_renderer);
    assert!(step.draw);
    assert_eq!(step.reconfigure, None);
    table.mark_renderer_ready(5);
    let entry = table.get(5).unwrap();
    let step = plan_secondary_render(&entry, Size::new(300, 200), true);
    assert!(!step.build_renderer, "the renderer is built once");
}

#[test]
fn missing_draw_data_skips_without_error() {
    let table = table_with(5, 50, Size::new(300, 200));
    let entry = table.get(5).unwrap();
    let step = plan_secondary_render(&entry, Size::new(300, 200), false);
    assert!(!step.draw);
    assert_eq!(step.reconfigure, None);
}

#[test]
fn size_drift_in_either_dimension_reconfigures() {
    let mut table = table_with(5, 50, Size::new(300, 200));
    let entry = table.get(5).unwrap();
    // One dimension drifting is enough.
    let step = plan_secondary_render(&entry, Size::new(300, 240), true);
    assert_eq!(step.reconfigure, Some(Size::new(300, 240)));
    let step = plan_secondary_render(&entry, Size::new(320, 200), true);
    assert_eq!(step.reconfigure, Some(Size::new(320, 200)));
    // After the embedding reconfigures and reports back, the plan settles.
    table.record_surface_size(5, Size::new(320, 200));
    let entry = table.get(5).unwrap();
    let step = plan_secondary_render(&entry, Size::new(320, 200), true);
    assert_eq!(step.reconfigure, None);
}

#[test]
fn cursor_changes_are_applied_once() {
    let mut r = Renderer::new(0, 1, Pos::new(0, 0), Size::new(100, 100));
    // The cache starts at the default icon, so the arrow changes nothing.
    assert_eq!(to_winit_cursor(MouseCursor::Arrow), CursorIcon::Default);
    assert_eq!(r.prepare_render(Some(MouseCursor::Arrow)), None);
    // A new shape is applied once, then cached.
    assert_eq!(r.prepare_render(Some(MouseCursor::TextInput)), Some(CursorIcon::Text));
    assert_eq!(r.prepare_render(Some(MouseCursor::TextInput)), None);
    // No cursor shape means nothing to apply.
    assert_eq!(r.prepare_render(None), None);
    // Back to the arrow: a change again.
    assert_eq!(r.prepare_render(Some(MouseCursor::Arrow)), Some(CursorIcon::Default));
}
