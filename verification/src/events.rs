//! The stable, platform-independent input event vocabulary.
//!
//! Raw backend events are converted into these types once, by the
//! normalizer; an application consumes a batch of them each tick and
//! then discards them.

use vstd::prelude::*;

verus! {

/// Whether a keyboard key was pressed or released.
#[derive(Debug, Copy, Clone, PartialEq, Eq, Structural)]
pub enum KeyboardAction {
    Press,
    Release,
}

/// A physical key on a keyboard device.
#[derive(Debug, Copy, Clone, PartialEq, Eq, Structural)]
pub enum KeyboardKey {
    Num0,
    Num1,
    Num2,
    Num3,
    Num4,
    Num5,
    Num6,
    Num7,
    Num8,
    Num9,
    A,
    B,
    C,
    D,
    E,
    F,
    G,
    H,
    I,
    J,
    K,
    L,
    M,
    N,
    O,
    P,
    Q,
    R,
    S,
    T,
    U,
    V,
    W,
    X,
    Y,
    Z,
    Escape,
    F1,
    F2,
    F3,
    F4,
    F5,
    F6,
    F7,
    F8,
    F9,
    F10,
    F11,
    F12,
    F13,
    F14,
    F15,
    F16,
    F17,
    F18,
    F19,
    F20,
    F21,
    F22,
    F23,
    F24,
    Snapshot,
    Scroll,
    Pause,
    Insert,
    Home,
    Delete,
    End,
    PageDown,
    PageUp,
    Left,
    Up,
    Right,
    Down,
    Back,
    Return,
    Space,
    Compose,
    Caret,
    Numlock,
    Numpad0,
    Numpad1,
    Numpad2,
    Numpad3,
    Numpad4,
    Numpad5,
    Numpad6,
    Numpad7,
    Numpad8,
    Numpad9,
    NumpadAdd,
    NumpadDivide,
    NumpadDecimal,
    NumpadComma,
    NumpadEnter,
    NumpadEquals,
    NumpadMultiply,
    NumpadSubtract,
    AbntC1,
    AbntC2,
    Apostrophe,
    Apps,
    Asterisk,
    At,
    Ax,
    Backslash,
    Calculator,
    Capital,
    Colon,
    Comma,
    Convert,
    Equals,
    Grave,
    Kana,
    Kanji,
    LAlt,
    LBracket,
    LControl,
    LShift,
    LWin,
    Mail,
    MediaSelect,
    MediaStop,
    Minus,
    Mute,
    MyComputer,
    NavigateForward,
    NavigateBackward,
    NextTrack,
    NoConvert,
    OEM102,
    Period,
    PlayPause,
    Plus,
    Power,
    PrevTrack,
    RAlt,
    RBracket,
    RControl,
    RShift,
    RWin,
    Semicolon,
    Slash,
    Sleep,
    Stop,
    Sysrq,
    Tab,
    Underline,
    Unlabeled,
    VolumeDown,
    VolumeUp,
    Wake,
    WebBack,
    WebFavorites,
    WebForward,
    WebHome,
    WebRefresh,
    WebSearch,
    WebStop,
    Yen,
    Copy,
    Paste,
    Cut,
}

/// An interaction that was created using a keyboard.
#[derive(Debug, Copy, Clone, PartialEq, Eq, Structural)]
pub struct KeyboardEvent {
    pub device_id: u64,
    pub key: KeyboardKey,
    pub action: KeyboardAction,
}

/// A physical button on a mouse device.
#[derive(Debug, Copy, Clone, PartialEq, Eq, Structural)]
pub enum MouseButton {
    Left,
    Right,
    Middle,
    Other(u16),
}

/// Whether a mouse button was pressed or released.
#[derive(Debug, Copy, Clone, PartialEq, Eq, Structural)]
pub enum MouseButtonAction {
    Press,
    Release,
}

/// An interaction that was created using a mouse.
#[derive(Debug, Copy, Clone, PartialEq, Eq, Structural)]
pub struct MouseButtonEvent {
    pub device_id: u64,
    pub button: MouseButton,
    pub action: MouseButtonAction,
}

/// The identity and new location of a recently moved mouse device.
#[derive(Debug, Copy, Clone, PartialEq, Eq, Structural)]
pub struct CursorMovementEvent {
    pub device_id: u64,
    pub x: u32,
    pub y: u32,
}

/// The new size of the window after being resized.
#[derive(Debug, Copy, Clone, PartialEq, Eq, Structural)]
pub struct ResizeEvent {
    pub width: u32,
    pub height: u32,
}

/// An action that an end-user takes to interact with the application.
#[derive(Debug, Copy, Clone, PartialEq, Eq, Structural)]
pub enum UIEvent {
    Keyboard(KeyboardEvent),
    MouseButton(MouseButtonEvent),
    CursorMovement(CursorMovementEvent),
    Resize(ResizeEvent),
}

} // verus!
