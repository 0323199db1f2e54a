//! The platform backend: metadata seeding, pure reads, and the deferred
//! queue's first-in first-out order.

use imgui_wgpu_winit::backend::PlatformBackend;
use imgui_wgpu_winit::events::ViewportEvent;
use imgui_wgpu_winit::geom::{Pos, Size};

#[test]
fn create_seeds_metadata_and_reads_return_it() {
    let mut b = PlatformBackend::new();
    b.create_window(5, Pos::new(100, 50), Size::new(300, 200));
    // The reads see the seeding values before anything is drained.
    assert_eq!(b.get_window_pos(5), Pos::new(100, 50));
    assert_eq!(b.get_window_size(5), Size::new(300, 200));
    assert!(!b.get_window_focus(5));
    assert!(!b.get_window_minimized(5));
    assert_eq!(b.pending_len(), 1);
    assert!(matches!(b.pop_event(), Some(ViewportEvent::Create(5))));
}

#[test]
fn destroy_releases_metadata_and_queues_destroy() {
    let mut b = PlatformBackend::new();
    b.create_window(3, Pos::new(0, 0), Size::new(10, 10));
    b.destroy_window(3);
    assert!(!b.is_live(3));
    assert!(matches!(b.pop_event(), Some(ViewportEvent::Create(3))));
    assert!(matches!(b.pop_event(), Some(ViewportEvent::Destroy(3))));
    assert!(b.pop_event().is_none());
}

#[test]
fn requests_only_enqueue_and_keep_metadata() {
    let mut b = PlatformBackend::new();
    b.create_window(9, Pos::new(1, 2), Size::new(30, 40));
    let _ = b.pop_event();
    b.set_window_pos(9, Pos::new(500, 500));
    b.set_window_size(9, Size::new(640, 480));
    b.set_window_focus(9);
    b.show_window(9);
    b.set_window_title(9, String::from("panel"));
    // Requests change nothing locally: the metadata still answers with the
    // seeded values.
    assert_eq!(b.get_window_pos(9), Pos::new(1, 2));
    assert_eq!(b.get_window_size(9), Size::new(30, 40));
    // The queue hands the requests back in the order they were made.
    assert!(matches!(b.pop_event(), Some(ViewportEvent::SetPos(9, p)) if p == Pos::new(500, 500)));
    assert!(
        matches!(b.pop_event(), Some(ViewportEvent::SetSize(9, s)) if s == Size::new(640, 480))
    );
    assert!(matches!(b.pop_event(), Some(ViewportEvent::SetFocus(9))));
    assert!(matches!(b.pop_event(), Some(ViewportEvent::SetVisible(9))));
    assert!(matches!(b.pop_event(), Some(ViewportEvent::SetTitle(9, t)) if t == "panel"));
    assert!(b.pop_event().is_none());
}

#[test]
fn os_reports_update_reads() {
    let mut b = PlatformBackend::new();
    b.create_window(4, Pos::new(0, 0), Size::new(100, 100));
    b.record_os_pos(4, Pos::new(-20, 35));
    b.record_os_size(4, Size::new(256, 128));
    b.record_os_focus(4, true);
    assert_eq!(b.get_window_pos(4), Pos::new(-20, 35));
    assert_eq!(b.get_window_size(4), Size::new(256, 128));
    assert!(b.get_window_focus(4));
    // The writes queued nothing: only the creation is pending.
    assert_eq!(b.pending_len(), 1);
}
