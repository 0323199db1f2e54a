//! The input vocabulary: key, button and cursor translation tables.

use imgui_wgpu_winit::input::{
    to_imgui_key, to_imgui_mouse_button, GuiKey, GuiMouseButton, KeyCode, MouseButtonCode,
};
use imgui_wgpu_winit::render::{to_winit_cursor, CursorIcon, MouseCursor};

#[test]
fn key_table_samples() {
    assert_eq!(to_imgui_key(KeyCode::Tab), Some(GuiKey::Tab));
    assert_eq!(to_imgui_key(KeyCode::Left), Some(GuiKey::LeftArrow));
    assert_eq!(to_imgui_key(KeyCode::Back), Some(GuiKey::Backspace));
    assert_eq!(to_imgui_key(KeyCode::Return), Some(GuiKey::Enter));
    assert_eq!(to_imgui_key(KeyCode::Key0), Some(GuiKey::Alpha0));
    assert_eq!(to_imgui_key(KeyCode::Key9), Some(GuiKey::Alpha9));
    assert_eq!(to_imgui_key(KeyCode::A), Some(GuiKey::A));
    assert_eq!(to_imgui_key(KeyCode::Z), Some(GuiKey::Z));
    assert_eq!(to_imgui_key(KeyCode::F1), Some(GuiKey::F1));
    assert_eq!(to_imgui_key(KeyCode::F12), Some(GuiKey::F12));
    assert_eq!(to_imgui_key(KeyCode::Equals), Some(GuiKey::Equal));
    assert_eq!(to_imgui_key(KeyCode::Grave), Some(GuiKey::GraveAccent));
    assert_eq!(to_imgui_key(KeyCode::Capital), Some(GuiKey::CapsLock));
    assert_eq!(to_imgui_key(KeyCode::Snapshot), Some(GuiKey::PrintScreen));
    assert_eq!(to_imgui_key(KeyCode::Numpad5), Some(GuiKey::Keypad5));
    assert_eq!(to_imgui_key(KeyCode::NumpadEnter), Some(GuiKey::KeypadEnter));
    assert_eq!(to_imgui_key(KeyCode::LWin), Some(GuiKey::LeftSuper));
    assert_eq!(to_imgui_key(KeyCode::RShift), Some(GuiKey::RightShift));
    assert_eq!(to_imgui_key(KeyCode::Other), None);
}

#[test]
fn mouse_button_table() {
    assert_eq!(to_imgui_mouse_button(MouseButtonCode::Left), Some(GuiMouseButton::Left));
    assert_eq!(to_imgui_mouse_button(MouseButtonCode::Right), Some(GuiMouseButton::Right));
    assert_eq!(to_imgui_mouse_button(MouseButtonCode::Middle), Some(GuiMouseButton::Middle));
    assert_eq!(to_imgui_mouse_button(MouseButtonCode::Other(0)), Some(GuiMouseButton::Left));
    assert_eq!(to_imgui_mouse_button(MouseButtonCode::Other(1)), Some(GuiMouseButton::Right));
    assert_eq!(to_imgui_mouse_button(MouseButtonCode::Other(2)), Some(GuiMouseButton::Middle));
    assert_eq!(to_imgui_mouse_button(MouseButtonCode::Other(3)), Some(GuiMouseButton::Extra1));
    assert_eq!(to_imgui_mouse_button(MouseButtonCode::Other(4)), Some(GuiMouseButton::Extra2));
    assert_eq!(to_imgui_mouse_button(MouseButtonCode::Other(5)), None);
}

#[test]
fn cursor_table() {
    assert_eq!(to_winit_cursor(MouseCursor::Arrow), CursorIcon::Default);
    assert_eq!(to_winit_cursor(MouseCursor::TextInput), CursorIcon::Text);
    assert_eq!(to_winit_cursor(MouseCursor::ResizeAll), CursorIcon::Move);
    assert_eq!(to_winit_cursor(MouseCursor::ResizeNS), CursorIcon::NsResize);
    assert_eq!(to_winit_cursor(MouseCursor::ResizeEW), CursorIcon::EwResize);
    assert_eq!(to_winit_cursor(MouseCursor::ResizeNESW), CursorIcon::NeswResize);
    assert_eq!(to_winit_cursor(MouseCursor::ResizeNWSE), CursorIcon::NwseResize);
    assert_eq!(to_winit_cursor(MouseCursor::Hand), CursorIcon::Hand);
    assert_eq!(to_winit_cursor(MouseCursor::NotAllowed), CursorIcon::NotAllowed);
}
