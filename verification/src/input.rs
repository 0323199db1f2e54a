//! The input router's key and mouse vocabulary.
//!
//! The window system reports keys and buttons in its own encoding; the GUI
//! core consumes an abstract vocabulary of its own.  The tables here
//! translate one into the other; modifier keys are reported both as the
//! specific left/right key and as the generalized modifier bit, since
//! downstream UI code may consult either.

use vstd::prelude::*;
use crate::geom::{Pos, Size};

verus! {

/// A window-system key code.  `Other` stands for every key the GUI core has
/// no use for.
#[derive(Clone, Copy, Debug, PartialEq, Eq, Structural)]
pub enum KeyCode {
    Tab,
    Left,
    Right,
    Up,
    Down,
    PageUp,
    PageDown,
    Home,
    End,
    Insert,
    Delete,
    Back,
    Space,
    Return,
    Escape,
    LControl,
    LShift,
    LAlt,
    LWin,
    RControl,
    RShift,
    RAlt,
    RWin,
    Key0,
    Key1,
    Key2,
    Key3,
    Key4,
    Key5,
    Key6,
    Key7,
    Key8,
    Key9,
    A,
    B,
    C,
    D,
    E,
    F,
    G,
    H,
    I,
    J,
    K,
    L,
    M,
    N,
    O,
    P,
    Q,
    R,
    S,
    T,
    U,
    V,
    W,
    X,
    Y,
    Z,
    F1,
    F2,
    F3,
    F4,
    F5,
    F6,
    F7,
    F8,
    F9,
    F10,
    F11,
    F12,
    Apostrophe,
    Comma,
    Minus,
    Period,
    Slash,
    Semicolon,
    Equals,
    LBracket,
    Backslash,
    RBracket,
    Grave,
    Capital,
    Scroll,
    Numlock,
    Snapshot,
    Pause,
    Numpad0,
    Numpad1,
    Numpad2,
    Numpad3,
    Numpad4,
    Numpad5,
    Numpad6,
    Numpad7,
    Numpad8,
    Numpad9,
    NumpadDecimal,
    NumpadDivide,
    NumpadMultiply,
    NumpadSubtract,
    NumpadAdd,
    NumpadEnter,
    NumpadEquals,
    Other,
}

/// A key in the GUI core's input vocabulary, including the generalized
/// modifier bits.
#[derive(Clone, Copy, Debug, PartialEq, Eq, Structural)]
pub enum GuiKey {
    Tab,
    LeftArrow,
    RightArrow,
    UpArrow,
    DownArrow,
    PageUp,
    PageDown,
    Home,
    End,
    Insert,
    Delete,
    Backspace,
    Space,
    Enter,
    Escape,
    LeftCtrl,
    LeftShift,
    LeftAlt,
    LeftSuper,
    RightCtrl,
    RightShift,
    RightAlt,
    RightSuper,
    Alpha0,
    Alpha1,
    Alpha2,
    Alpha3,
    Alpha4,
    Alpha5,
    Alpha6,
    Alpha7,
    Alpha8,
    Alpha9,
    A,
    B,
    C,
    D,
    E,
    F,
    G,
    H,
    I,
    J,
    K,
    L,
    M,
    N,
    O,
    P,
    Q,
    R,
    S,
    T,
    U,
    V,
    W,
    X,
    Y,
    Z,
    F1,
    F2,
    F3,
    F4,
    F5,
    F6,
    F7,
    F8,
    F9,
    F10,
    F11,
    F12,
    Apostrophe,
    Comma,
    Minus,
    Period,
    Slash,
    Semicolon,
    Equal,
    LeftBracket,
    Backslash,
    RightBracket,
    GraveAccent,
    CapsLock,
    ScrollLock,
    NumLock,
    PrintScreen,
    Pause,
    Keypad0,
    Keypad1,
    Keypad2,
    Keypad3,
    Keypad4,
    Keypad5,
    Keypad6,
    Keypad7,
    Keypad8,
    Keypad9,
    KeypadDecimal,
    KeypadDivide,
    KeypadMultiply,
    KeypadSubtract,
    KeypadAdd,
    KeypadEnter,
    KeypadEqual,
    ModShift,
    ModCtrl,
    ModAlt,
    ModSuper,
}

/// The GUI-core key a window-system key translates to, if any.
pub open spec fn gui_key_of(key: KeyCode) -> Option<GuiKey> {
    match key {
        KeyCode::Tab => Some(GuiKey::Tab),
        KeyCode::Left => Some(GuiKey::LeftArrow),
        KeyCode::Right => Some(GuiKey::RightArrow),
        KeyCode::Up => Some(GuiKey::UpArrow),
        KeyCode::Down => Some(GuiKey::DownArrow),
        KeyCode::PageUp => Some(GuiKey::PageUp),
        KeyCode::PageDown => Some(GuiKey::PageDown),
        KeyCode::Home => Some(GuiKey::Home),
        KeyCode::End => Some(GuiKey::End),
        KeyCode::Insert => Some(GuiKey::Insert),
        KeyCode::Delete => Some(GuiKey::Delete),
        KeyCode::Back => Some(GuiKey::Backspace),
        KeyCode::Space => Some(GuiKey::Space),
        KeyCode::Return => Some(GuiKey::Enter),
        KeyCode::Escape => Some(GuiKey::Escape),
        KeyCode::LControl => Some(GuiKey::LeftCtrl),
        KeyCode::LShift => Some(GuiKey::LeftShift),
        KeyCode::LAlt => Some(GuiKey::LeftAlt),
        KeyCode::LWin => Some(GuiKey::LeftSuper),
        KeyCode::RControl => Some(GuiKey::RightCtrl),
        KeyCode::RShift => Some(GuiKey::RightShift),
        KeyCode::RAlt => Some(GuiKey::RightAlt),
        KeyCode::RWin => Some(GuiKey::RightSuper),
        KeyCode::Key0 => Some(GuiKey::Alpha0),
        KeyCode::Key1 => Some(GuiKey::Alpha1),
        KeyCode::Key2 => Some(GuiKey::Alpha2),
        KeyCode::Key3 => Some(GuiKey::Alpha3),
        KeyCode::Key4 => Some(GuiKey::Alpha4),
        KeyCode::Key5 => Some(GuiKey::Alpha5),
        KeyCode::Key6 => Some(GuiKey::Alpha6),
        KeyCode::Key7 => Some(GuiKey::Alpha7),
        KeyCode::Key8 => Some(GuiKey::Alpha8),
        KeyCode::Key9 => Some(GuiKey::Alpha9),
        KeyCode::A => Some(GuiKey::A),
        KeyCode::B => Some(GuiKey::B),
        KeyCode::C => Some(GuiKey::C),
        KeyCode::D => Some(GuiKey::D),
        KeyCode::E => Some(GuiKey::E),
        KeyCode::F => Some(GuiKey::F),
        KeyCode::G => Some(GuiKey::G),
        KeyCode::H => Some(GuiKey::H),
        KeyCode::I => Some(GuiKey::I),
        KeyCode::J => Some(GuiKey::J),
        KeyCode::K => Some(GuiKey::K),
        KeyCode::L => Some(GuiKey::L),
        KeyCode::M => Some(GuiKey::M),
        KeyCode::N => Some(GuiKey::N),
        KeyCode::O => Some(GuiKey::O),
        KeyCode::P => Some(GuiKey::P),
        KeyCode::Q => Some(GuiKey::Q),
        KeyCode::R => Some(GuiKey::R),
        KeyCode::S => Some(GuiKey::S),
        KeyCode::T => Some(GuiKey::T),
        KeyCode::U => Some(GuiKey::U),
        KeyCode::V => Some(GuiKey::V),
        KeyCode::W => Some(GuiKey::W),
        KeyCode::X => Some(GuiKey::X),
        KeyCode::Y => Some(GuiKey::Y),
        KeyCode::Z => Some(GuiKey::Z),
        KeyCode::F1 => Some(GuiKey::F1),
        KeyCode::F2 => Some(GuiKey::F2),
        KeyCode::F3 => Some(GuiKey::F3),
        KeyCode::F4 => Some(GuiKey::F4),
        KeyCode::F5 => Some(GuiKey::F5),
        KeyCode::F6 => Some(GuiKey::F6),
        KeyCode::F7 => Some(GuiKey::F7),
        KeyCode::F8 => Some(GuiKey::F8),
        KeyCode::F9 => Some(GuiKey::F9),
        KeyCode::F10 => Some(GuiKey::F10),
        KeyCode::F11 => Some(GuiKey::F11),
        KeyCode::F12 => Some(GuiKey::F12),
        KeyCode::Apostrophe => Some(GuiKey::Apostrophe),
        KeyCode::Comma => Some(GuiKey::Comma),
        KeyCode::Minus => Some(GuiKey::Minus),
        KeyCode::Period => Some(GuiKey::Period),
        KeyCode::Slash => Some(GuiKey::Slash),
        KeyCode::Semicolon => Some(GuiKey::Semicolon),
        KeyCode::Equals => Some(GuiKey::Equal),
        KeyCode::LBracket => Some(GuiKey::LeftBracket),
        KeyCode::Backslash => Some(GuiKey::Backslash),
        KeyCode::RBracket => Some(GuiKey::RightBracket),
        KeyCode::Grave => Some(GuiKey::GraveAccent),
        KeyCode::Capital => Some(GuiKey::CapsLock),
        KeyCode::Scroll => Some(GuiKey::ScrollLock),
        KeyCode::Numlock => Some(GuiKey::NumLock),
        KeyCode::Snapshot => Some(GuiKey::PrintScreen),
        KeyCode::Pause => Some(GuiKey::Pause),
        KeyCode::Numpad0 => Some(GuiKey::Keypad0),
        KeyCode::Numpad1 => Some(GuiKey::Keypad1),
        KeyCode::Numpad2 => Some(GuiKey::Keypad2),
        KeyCode::Numpad3 => Some(GuiKey::Keypad3),
        KeyCode::Numpad4 => Some(GuiKey::Keypad4),
        KeyCode::Numpad5 => Some(GuiKey::Keypad5),
        KeyCode::Numpad6 => Some(GuiKey::Keypad6),
        KeyCode::Numpad7 => Some(GuiKey::Keypad7),
        KeyCode::Numpad8 => Some(GuiKey::Keypad8),
        KeyCode::Numpad9 => Some(GuiKey::Keypad9),
        KeyCode::NumpadDecimal => Some(GuiKey::KeypadDecimal),
        KeyCode::NumpadDivide => Some(GuiKey::KeypadDivide),
        KeyCode::NumpadMultiply => Some(GuiKey::KeypadMultiply),
        KeyCode::NumpadSubtract => Some(GuiKey::KeypadSubtract),
        KeyCode::NumpadAdd => Some(GuiKey::KeypadAdd),
        KeyCode::NumpadEnter => Some(GuiKey::KeypadEnter),
        KeyCode::NumpadEquals => Some(GuiKey::KeypadEqual),
        KeyCode::Other => None,
    }
}

/// Translates a window-system key code into the GUI core's vocabulary.
pub fn to_imgui_key(key: KeyCode) -> (r: Option<GuiKey>)
    ensures
        r == gui_key_of(key),
{
    match key {
        KeyCode::Tab => Some(GuiKey::Tab),
        KeyCode::Left => Some(GuiKey::LeftArrow),
        KeyCode::Right => Some(GuiKey::RightArrow),
        KeyCode::Up => Some(GuiKey::UpArrow),
        KeyCode::Down => Some(GuiKey::DownArrow),
        KeyCode::PageUp => Some(GuiKey::PageUp),
        KeyCode::PageDown => Some(GuiKey::PageDown),
        KeyCode::Home => Some(GuiKey::Home),
        KeyCode::End => Some(GuiKey::End),
        KeyCode::Insert => Some(GuiKey::Insert),
        KeyCode::Delete => Some(GuiKey::Delete),
        KeyCode::Back => Some(GuiKey::Backspace),
        KeyCode::Space => Some(GuiKey::Space),
        KeyCode::Return => Some(GuiKey::Enter),
        KeyCode::Escape => Some(GuiKey::Escape),
        KeyCode::LControl => Some(GuiKey::LeftCtrl),
        KeyCode::LShift => Some(GuiKey::LeftShift),
        KeyCode::LAlt => Some(GuiKey::LeftAlt),
        KeyCode::LWin => Some(GuiKey::LeftSuper),
        KeyCode::RControl => Some(GuiKey::RightCtrl),
        KeyCode::RShift => Some(GuiKey::RightShift),
        KeyCode::RAlt => Some(GuiKey::RightAlt),
        KeyCode::RWin => Some(GuiKey::RightSuper),
        KeyCode::Key0 => Some(GuiKey::Alpha0),
        KeyCode::Key1 => Some(GuiKey::Alpha1),
        KeyCode::Key2 => Some(GuiKey::Alpha2),
        KeyCode::Key3 => Some(GuiKey::Alpha3),
        KeyCode::Key4 => Some(GuiKey::Alpha4),
        KeyCode::Key5 => Some(GuiKey::Alpha5),
        KeyCode::Key6 => Some(GuiKey::Alpha6),
        KeyCode::Key7 => Some(GuiKey::Alpha7),
        KeyCode::Key8 => Some(GuiKey::Alpha8),
        KeyCode::Key9 => Some(GuiKey::Alpha9),
        KeyCode::A => Some(GuiKey::A),
        KeyCode::B => Some(GuiKey::B),
        KeyCode::C => Some(GuiKey::C),
        KeyCode::D => Some(GuiKey::D),
        KeyCode::E => Some(GuiKey::E),
        KeyCode::F => Some(GuiKey::F),
        KeyCode::G => Some(GuiKey::G),
        KeyCode::H => Some(GuiKey::H),
        KeyCode::I => Some(GuiKey::I),
        KeyCode::J => Some(GuiKey::J),
        KeyCode::K => Some(GuiKey::K),
        KeyCode::L => Some(GuiKey::L),
        KeyCode::M => Some(GuiKey::M),
        KeyCode::N => Some(GuiKey::N),
        KeyCode::O => Some(GuiKey::O),
        KeyCode::P => Some(GuiKey::P),
        KeyCode::Q => Some(GuiKey::Q),
        KeyCode::R => Some(GuiKey::R),
        KeyCode::S => Some(GuiKey::S),
        KeyCode::T => Some(GuiKey::T),
        KeyCode::U => Some(GuiKey::U),
        KeyCode::V => Some(GuiKey::V),
        KeyCode::W => Some(GuiKey::W),
        KeyCode::X => Some(GuiKey::X),
        KeyCode::Y => Some(GuiKey::Y),
        KeyCode::Z => Some(GuiKey::Z),
        KeyCode::F1 => Some(GuiKey::F1),
        KeyCode::F2 => Some(GuiKey::F2),
        KeyCode::F3 => Some(GuiKey::F3),
        KeyCode::F4 => Some(GuiKey::F4),
        KeyCode::F5 => Some(GuiKey::F5),
        KeyCode::F6 => Some(GuiKey::F6),
        KeyCode::F7 => Some(GuiKey::F7),
        KeyCode::F8 => Some(GuiKey::F8),
        KeyCode::F9 => Some(GuiKey::F9),
        KeyCode::F10 => Some(GuiKey::F10),
        KeyCode::F11 => Some(GuiKey::F11),
        KeyCode::F12 => Some(GuiKey::F12),
        KeyCode::Apostrophe => Some(GuiKey::Apostrophe),
        KeyCode::Comma => Some(GuiKey::Comma),
        KeyCode::Minus => Some(GuiKey::Minus),
        KeyCode::Period => Some(GuiKey::Period),
        KeyCode::Slash => Some(GuiKey::Slash),
        KeyCode::Semicolon => Some(GuiKey::Semicolon),
        KeyCode::Equals => Some(GuiKey::Equal),
        KeyCode::LBracket => Some(GuiKey::LeftBracket),
        KeyCode::Backslash => Some(GuiKey::Backslash),
        KeyCode::RBracket => Some(GuiKey::RightBracket),
        KeyCode::Grave => Some(GuiKey::GraveAccent),
        KeyCode::Capital => Some(GuiKey::CapsLock),
        KeyCode::Scroll => Some(GuiKey::ScrollLock),
        KeyCode::Numlock => Some(GuiKey::NumLock),
        KeyCode::Snapshot => Some(GuiKey::PrintScreen),
        KeyCode::Pause => Some(GuiKey::Pause),
        KeyCode::Numpad0 => Some(GuiKey::Keypad0),
        KeyCode::Numpad1 => Some(GuiKey::Keypad1),
        KeyCode::Numpad2 => Some(GuiKey::Keypad2),
        KeyCode::Numpad3 => Some(GuiKey::Keypad3),
        KeyCode::Numpad4 => Some(GuiKey::Keypad4),
        KeyCode::Numpad5 => Some(GuiKey::Keypad5),
        KeyCode::Numpad6 => Some(GuiKey::Keypad6),
        KeyCode::Numpad7 => Some(GuiKey::Keypad7),
        KeyCode::Numpad8 => Some(GuiKey::Keypad8),
        KeyCode::Numpad9 => Some(GuiKey::Keypad9),
        KeyCode::NumpadDecimal => Some(GuiKey::KeypadDecimal),
        KeyCode::NumpadDivide => Some(GuiKey::KeypadDivide),
        KeyCode::NumpadMultiply => Some(GuiKey::KeypadMultiply),
        KeyCode::NumpadSubtract => Some(GuiKey::KeypadSubtract),
        KeyCode::NumpadAdd => Some(GuiKey::KeypadAdd),
        KeyCode::NumpadEnter => Some(GuiKey::KeypadEnter),
        KeyCode::NumpadEquals => Some(GuiKey::KeypadEqual),
        KeyCode::Other => None,
    }
}

/// A window-system mouse button.  `Other` carries the system's extra-button
/// index.
#[derive(Clone, Copy, Debug, PartialEq, Eq, Structural)]
pub enum MouseButtonCode {
    Left,
    Right,
    Middle,
    Other(u16),
}

/// A mouse button in the GUI core's vocabulary.
#[derive(Clone, Copy, Debug, PartialEq, Eq, Structural)]
pub enum GuiMouseButton {
    Left,
    Right,
    Middle,
    Extra1,
    Extra2,
}

/// The GUI-core button a window-system button translates to, if any.  The
/// first three extra-button indices double as left, right and middle.
pub open spec fn gui_mouse_button_of(button: MouseButtonCode) -> Option<GuiMouseButton> {
    match button {
        MouseButtonCode::Left => Some(GuiMouseButton::Left),
        MouseButtonCode::Right => Some(GuiMouseButton::Right),
        MouseButtonCode::Middle => Some(GuiMouseButton::Middle),
        MouseButtonCode::Other(n) => if n == 0 {
            Some(GuiMouseButton::Left)
        } else if n == 1 {
            Some(GuiMouseButton::Right)
        } else if n == 2 {
            Some(GuiMouseButton::Middle)
        } else if n == 3 {
            Some(GuiMouseButton::Extra1)
        } else if n == 4 {
            Some(GuiMouseButton::Extra2)
        } else {
            None
        },
    }
}

/// Translates a window-system mouse button into the GUI core's vocabulary.
pub fn to_imgui_mouse_button(button: MouseButtonCode) -> (r: Option<GuiMouseButton>)
    ensures
        r == gui_mouse_button_of(button),
{
    match button {
        MouseButtonCode::Left => Some(GuiMouseButton::Left),
        MouseButtonCode::Right => Some(GuiMouseButton::Right),
        MouseButtonCode::Middle => Some(GuiMouseButton::Middle),
        MouseButtonCode::Other(n) => {
            if n == 0 {
                Some(GuiMouseButton::Left)
            } else if n == 1 {
                Some(GuiMouseButton::Right)
            } else if n == 2 {
                Some(GuiMouseButton::Middle)
            } else if n == 3 {
                Some(GuiMouseButton::Extra1)
            } else if n == 4 {
                Some(GuiMouseButton::Extra2)
            } else {
                None
            }
        },
    }
}

/// One abstract input event handed to the GUI core.
#[derive(Clone, Copy, Debug, PartialEq, Eq, Structural)]
pub enum IoEvent {
    /// A key went down or up.
    Key(GuiKey, bool),
    /// A character was typed.
    Character(char),
    /// The mouse moved to this position (virtual-desktop coordinates when
    /// multi-viewport mode is active, window-local otherwise).
    MousePos(Pos),
    /// A mouse button went down or up.
    MouseButton(GuiMouseButton, bool),
    /// The wheel scrolled by whole steps, horizontal then vertical.
    MouseWheel(i32, i32),
}

/// Whether a key is one of the eight modifier keys.
pub open spec fn is_modifier_key(key: KeyCode) -> bool {
    ||| key == KeyCode::LShift
    ||| key == KeyCode::RShift
    ||| key == KeyCode::LControl
    ||| key == KeyCode::RControl
    ||| key == KeyCode::LAlt
    ||| key == KeyCode::RAlt
    ||| key == KeyCode::LWin
    ||| key == KeyCode::RWin
}

/// The generalized modifier bit a modifier key reports.
pub open spec fn modifier_of(key: KeyCode) -> GuiKey {
    if key == KeyCode::LShift || key == KeyCode::RShift {
        GuiKey::ModShift
    } else if key == KeyCode::LControl || key == KeyCode::RControl {
        GuiKey::ModCtrl
    } else if key == KeyCode::LAlt || key == KeyCode::RAlt {
        GuiKey::ModAlt
    } else {
        GuiKey::ModSuper
    }
}

/// The events a modifier key contributes before the key's own event: the
/// generalized bit for a modifier, nothing for any other key.
pub open spec fn modifier_events(key: KeyCode, down: bool) -> Seq<IoEvent> {
    if is_modifier_key(key) {
        seq![IoEvent::Key(modifier_of(key), down)]
    } else {
        Seq::empty()
    }
}

/// Everything a key press or release reports to the GUI core: the
/// generalized modifier bit first where the key is a modifier, then the
/// translated key itself where a translation exists.
pub open spec fn key_input_events(key: KeyCode, down: bool) -> Seq<IoEvent> {
    modifier_events(key, down) + match gui_key_of(key) {
        Some(k) => seq![IoEvent::Key(k, down)],
        None => Seq::empty(),
    }
}

/// The four events a modifier-state report contributes.
pub open spec fn modifiers_changed_events(
    shift: bool,
    ctrl: bool,
    alt: bool,
    logo: bool,
) -> Seq<IoEvent> {
    seq![
        IoEvent::Key(GuiKey::ModShift, shift),
        IoEvent::Key(GuiKey::ModCtrl, ctrl),
        IoEvent::Key(GuiKey::ModAlt, alt),
        IoEvent::Key(GuiKey::ModSuper, logo),
    ]
}

/// The model of the GUI core's input state this layer writes to: the
/// display size, the two multi-window configuration flags, and the input
/// events recorded since the embedding last forwarded them.
pub struct IoState {
    pub display_size: Size,
    pub docking_enabled: bool,
    pub viewports_enabled: bool,
    pub events: Vec<IoEvent>,
}

impl IoState {
    pub fn new(display_size: Size) -> (r: IoState)
        ensures
            r.display_size == display_size,
            !r.docking_enabled,
            !r.viewports_enabled,
            r.events@ == Seq::<IoEvent>::empty(),
    {
        let r = IoState { display_size, docking_enabled: false, viewports_enabled: false, events: Vec::new() };
        proof {
            assert(r.events@ =~= Seq::<IoEvent>::empty());
        }
        r
    }

    pub fn add_key_event(&mut self, key: GuiKey, down: bool)
        ensures
            *final(self) == (IoState {
                events: final(self).events,
                ..*old(self)
            }),
            final(self).events@ == old(self).events@.push(IoEvent::Key(key, down)),
    {
        self.events.push(IoEvent::Key(key, down));
    }

    pub fn add_input_character(&mut self, c: char)
        ensures
            *final(self) == (IoState {
                events: final(self).events,
                ..*old(self)
            }),
            final(self).events@ == old(self).events@.push(IoEvent::Character(c)),
    {
        self.events.push(IoEvent::Character(c));
    }

    pub fn add_mouse_pos_event(&mut self, pos: Pos)
        ensures
            *final(self) == (IoState {
                events: final(self).events,
                ..*old(self)
            }),
            final(self).events@ == old(self).events@.push(IoEvent::MousePos(pos)),
    {
        self.events.push(IoEvent::MousePos(pos));
    }

    pub fn add_mouse_button_event(&mut self, button: GuiMouseButton, down: bool)
        ensures
            *final(self) == (IoState {
                events: final(self).events,
                ..*old(self)
            }),
            final(self).events@ == old(self).events@.push(IoEvent::MouseButton(button, down)),
    {
        self.events.push(IoEvent::MouseButton(button, down));
    }

    pub fn add_mouse_wheel_event(&mut self, h: i32, v: i32)
        ensures
            *final(self) == (IoState {
                events: final(self).events,
                ..*old(self)
            }),
            final(self).events@ == old(self).events@.push(IoEvent::MouseWheel(h, v)),
    {
        self.events.push(IoEvent::MouseWheel(h, v));
    }

    /// Hands the recorded events to the embedding, oldest first, and clears
    /// the record: each event reaches the GUI core exactly once.
    pub fn take_events(&mut self) -> (r: Vec<IoEvent>)
        ensures
            r@ == old(self).events@,
            *final(self) == (IoState {
                events: final(self).events,
                ..*old(self)
            }),
            final(self).events@ == Seq::<IoEvent>::empty(),
    {
        let mut out: Vec<IoEvent> = Vec::new();
        core::mem::swap(&mut out, &mut self.events);
        proof {
            assert(final(self).events@ =~= Seq::<IoEvent>::empty());
        }
        out
    }
}

/// Reports the modifier part then the key's own event, as
/// `key_input_events` lays them out.
pub fn handle_key_modifier(io: &mut IoState, key: KeyCode, down: bool)
    ensures
        *final(io) == (IoState {
            events: final(io).events,
            ..*old(io)
        }),
        final(io).events@ == old(io).events@ + modifier_events(key, down),
{
    if matches!(key, KeyCode::LShift | KeyCode::RShift) {
        io.add_key_event(GuiKey::ModShift, down);
    } else if matches!(key, KeyCode::LControl | KeyCode::RControl) {
        io.add_key_event(GuiKey::ModCtrl, down);
    } else if matches!(key, KeyCode::LAlt | KeyCode::RAlt) {
        io.add_key_event(GuiKey::ModAlt, down);
    } else if matches!(key, KeyCode::LWin | KeyCode::RWin) {
        io.add_key_event(GuiKey::ModSuper, down);
    }
    proof {
        assert(io.events@ =~= old(io).events@ + modifier_events(key, down));
    }
}

/// Turns on the GUI core's docking and multi-viewport configuration flags;
/// a flag already on stays on.
pub fn enable_docking_and_viewports(io: &mut IoState, docking: bool, viewports: bool)
    ensures
        final(io).docking_enabled == (old(io).docking_enabled || docking),
        final(io).viewports_enabled == (old(io).viewports_enabled || viewports),
        final(io).display_size == old(io).display_size,
        final(io).events@ == old(io).events@,
{
    if docking {
        io.docking_enabled = true;
    }
    if viewports {
        io.viewports_enabled = true;
    }
}

/// A modifier key reports twice: the generalized modifier bit and the
/// specific left or right key, both carrying the same pressed state, in that
/// order.
pub proof fn lemma_modifier_double_report(key: KeyCode, down: bool)
    requires
        is_modifier_key(key),
    ensures
        key_input_events(key, down) == seq![
            IoEvent::Key(modifier_of(key), down),
            IoEvent::Key(gui_key_of(key)->Some_0, down),
        ],
        gui_key_of(key) is Some,
{
    assert(key_input_events(key, down) =~= seq![
        IoEvent::Key(modifier_of(key), down),
        IoEvent::Key(gui_key_of(key)->Some_0, down),
    ]);
}

} // verus!
