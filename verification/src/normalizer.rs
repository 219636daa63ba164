//! Input normalization: the conversion of backend-specific device,
//! key and button identifiers into the stable `UIEvent` vocabulary.
//!
//! Device identity is a 64-bit number that the backend shell derives
//! by hashing its opaque device handle with a fixed, deterministic
//! hash; it is stable within a session. Key codes arrive as the
//! backend's numeric key code; a code with no entry in the mapping
//! table is intentionally dropped (a documented lossy mapping), not an
//! error.

use vstd::prelude::*;
use crate::events::CursorMovementEvent;
use crate::events::KeyboardAction;
use crate::events::KeyboardEvent;
use crate::events::KeyboardKey;
use crate::events::MouseButton;
use crate::events::MouseButtonAction;
use crate::events::MouseButtonEvent;
use crate::events::ResizeEvent;
use crate::events::UIEvent;

verus! {

/// The mapping table from a backend key code to the stable key
/// vocabulary: each known code maps to the key of the same name. A
/// code with no entry maps to nothing: such input is deliberately
/// dropped.
pub open spec fn key_for_code(code: u32) -> Option<KeyboardKey> {
    if code == 0 {
        Some(KeyboardKey::Num1)
    } else if code == 1 {
        Some(KeyboardKey::Num2)
    } else if code == 2 {
        Some(KeyboardKey::Num3)
    } else if code == 3 {
        Some(KeyboardKey::Num4)
    } else if code == 4 {
        Some(KeyboardKey::Num5)
    } else if code == 5 {
        Some(KeyboardKey::Num6)
    } else if code == 6 {
        Some(KeyboardKey::Num7)
    } else if code == 7 {
        Some(KeyboardKey::Num8)
    } else if code == 8 {
        Some(KeyboardKey::Num9)
    } else if code == 9 {
        Some(KeyboardKey::Num0)
    } else if code == 10 {
        Some(KeyboardKey::A)
    } else if code == 11 {
        Some(KeyboardKey::B)
    } else if code == 12 {
        Some(KeyboardKey::C)
    } else if code == 13 {
        Some(KeyboardKey::D)
    } else if code == 14 {
        Some(KeyboardKey::E)
    } else if code == 15 {
        Some(KeyboardKey::F)
    } else if code == 16 {
        Some(KeyboardKey::G)
    } else if code == 17 {
        Some(KeyboardKey::H)
    } else if code == 18 {
        Some(KeyboardKey::I)
    } else if code == 19 {
        Some(KeyboardKey::J)
    } else if code == 20 {
        Some(KeyboardKey::K)
    } else if code == 21 {
        Some(KeyboardKey::L)
    } else if code == 22 {
        Some(KeyboardKey::M)
    } else if code == 23 {
        Some(KeyboardKey::N)
    } else if code == 24 {
        Some(KeyboardKey::O)
    } else if code == 25 {
        Some(KeyboardKey::P)
    } else if code == 26 {
        Some(KeyboardKey::Q)
    } else if code == 27 {
        Some(KeyboardKey::R)
    } else if code == 28 {
        Some(KeyboardKey::S)
    } else if code == 29 {
        Some(KeyboardKey::T)
    } else if code == 30 {
        Some(KeyboardKey::U)
    } else if code == 31 {
        Some(KeyboardKey::V)
    } else if code == 32 {
        Some(KeyboardKey::W)
    } else if code == 33 {
        Some(KeyboardKey::X)
    } else if code == 34 {
        Some(KeyboardKey::Y)
    } else if code == 35 {
        Some(KeyboardKey::Z)
    } else if code == 36 {
        Some(KeyboardKey::Escape)
    } else if code == 37 {
        Some(KeyboardKey::F1)
    } else if code == 38 {
        Some(KeyboardKey::F2)
    } else if code == 39 {
        Some(KeyboardKey::F3)
    } else if code == 40 {
        Some(KeyboardKey::F4)
    } else if code == 41 {
        Some(KeyboardKey::F5)
    } else if code == 42 {
        Some(KeyboardKey::F6)
    } else if code == 43 {
        Some(KeyboardKey::F7)
    } else if code == 44 {
        Some(KeyboardKey::F8)
    } else if code == 45 {
        Some(KeyboardKey::F9)
    } else if code == 46 {
        Some(KeyboardKey::F10)
    } else if code == 47 {
        Some(KeyboardKey::F11)
    } else if code == 48 {
        Some(KeyboardKey::F12)
    } else if code == 49 {
        Some(KeyboardKey::F13)
    } else if code == 50 {
        Some(KeyboardKey::F14)
    } else if code == 51 {
        Some(KeyboardKey::F15)
    } else if code == 52 {
        Some(KeyboardKey::F16)
    } else if code == 53 {
        Some(KeyboardKey::F17)
    } else if code == 54 {
        Some(KeyboardKey::F18)
    } else if code == 55 {
        Some(KeyboardKey::F19)
    } else if code == 56 {
        Some(KeyboardKey::F20)
    } else if code == 57 {
        Some(KeyboardKey::F21)
    } else if code == 58 {
        Some(KeyboardKey::F22)
    } else if code == 59 {
        Some(KeyboardKey::F23)
    } else if code == 60 {
        Some(KeyboardKey::F24)
    } else if code == 61 {
        Some(KeyboardKey::Snapshot)
    } else if code == 62 {
        Some(KeyboardKey::Scroll)
    } else if code == 63 {
        Some(KeyboardKey::Pause)
    } else if code == 64 {
        Some(KeyboardKey::Insert)
    } else if code == 65 {
        Some(KeyboardKey::Home)
    } else if code == 66 {
        Some(KeyboardKey::Delete)
    } else if code == 67 {
        Some(KeyboardKey::End)
    } else if code == 68 {
        Some(KeyboardKey::PageDown)
    } else if code == 69 {
        Some(KeyboardKey::PageUp)
    } else if code == 70 {
        Some(KeyboardKey::Left)
    } else if code == 71 {
        Some(KeyboardKey::Up)
    } else if code == 72 {
        Some(KeyboardKey::Right)
    } else if code == 73 {
        Some(KeyboardKey::Down)
    } else if code == 74 {
        Some(KeyboardKey::Back)
    } else if code == 75 {
        Some(KeyboardKey::Return)
    } else if code == 76 {
        Some(KeyboardKey::Space)
    } else if code == 77 {
        Some(KeyboardKey::Compose)
    } else if code == 78 {
        Some(KeyboardKey::Caret)
    } else if code == 79 {
        Some(KeyboardKey::Numlock)
    } else if code == 80 {
        Some(KeyboardKey::Numpad0)
    } else if code == 81 {
        Some(KeyboardKey::Numpad1)
    } else if code == 82 {
        Some(KeyboardKey::Numpad2)
    } else if code == 83 {
        Some(KeyboardKey::Numpad3)
    } else if code == 84 {
        Some(KeyboardKey::Numpad4)
    } else if code == 85 {
        Some(KeyboardKey::Numpad5)
    } else if code == 86 {
        Some(KeyboardKey::Numpad6)
    } else if code == 87 {
        Some(KeyboardKey::Numpad7)
    } else if code == 88 {
        Some(KeyboardKey::Numpad8)
    } else if code == 89 {
        Some(KeyboardKey::Numpad9)
    } else if code == 90 {
        Some(KeyboardKey::NumpadAdd)
    } else if code == 91 {
        Some(KeyboardKey::NumpadDivide)
    } else if code == 92 {
        Some(KeyboardKey::NumpadDecimal)
    } else if code == 93 {
        Some(KeyboardKey::NumpadComma)
    } else if code == 94 {
        Some(KeyboardKey::NumpadEnter)
    } else if code == 95 {
        Some(KeyboardKey::NumpadEquals)
    } else if code == 96 {
        Some(KeyboardKey::NumpadMultiply)
    } else if code == 97 {
        Some(KeyboardKey::NumpadSubtract)
    } else if code == 98 {
        Some(KeyboardKey::AbntC1)
    } else if code == 99 {
        Some(KeyboardKey::AbntC2)
    } else if code == 100 {
        Some(KeyboardKey::Apostrophe)
    } else if code == 101 {
        Some(KeyboardKey::Apps)
    } else if code == 102 {
        Some(KeyboardKey::Asterisk)
    } else if code == 103 {
        Some(KeyboardKey::At)
    } else if code == 104 {
        Some(KeyboardKey::Ax)
    } else if code == 105 {
        Some(KeyboardKey::Backslash)
    } else if code == 106 {
        Some(KeyboardKey::Calculator)
    } else if code == 107 {
        Some(KeyboardKey::Capital)
    } else if code == 108 {
        Some(KeyboardKey::Colon)
    } else if code == 109 {
        Some(KeyboardKey::Comma)
    } else if code == 110 {
        Some(KeyboardKey::Convert)
    } else if code == 111 {
        Some(KeyboardKey::Equals)
    } else if code == 112 {
        Some(KeyboardKey::Grave)
    } else if code == 113 {
        Some(KeyboardKey::Kana)
    } else if code == 114 {
        Some(KeyboardKey::Kanji)
    } else if code == 115 {
        Some(KeyboardKey::LAlt)
    } else if code == 116 {
        Some(KeyboardKey::LBracket)
    } else if code == 117 {
        Some(KeyboardKey::LControl)
    } else if code == 118 {
        Some(KeyboardKey::LShift)
    } else if code == 119 {
        Some(KeyboardKey::LWin)
    } else if code == 120 {
        Some(KeyboardKey::Mail)
    } else if code == 121 {
        Some(KeyboardKey::MediaSelect)
    } else if code == 122 {
        Some(KeyboardKey::MediaStop)
    } else if code == 123 {
        Some(KeyboardKey::Minus)
    } else if code == 124 {
        Some(KeyboardKey::Mute)
    } else if code == 125 {
        Some(KeyboardKey::MyComputer)
    } else if code == 126 {
        Some(KeyboardKey::NavigateForward)
    } else if code == 127 {
        Some(KeyboardKey::NavigateBackward)
    } else if code == 128 {
        Some(KeyboardKey::NextTrack)
    } else if code == 129 {
        Some(KeyboardKey::NoConvert)
    } else if code == 130 {
        Some(KeyboardKey::OEM102)
    } else if code == 131 {
        Some(KeyboardKey::Period)
    } else if code == 132 {
        Some(KeyboardKey::PlayPause)
    } else if code == 133 {
        Some(KeyboardKey::Plus)
    } else if code == 134 {
        Some(KeyboardKey::Power)
    } else if code == 135 {
        Some(KeyboardKey::PrevTrack)
    } else if code == 136 {
        Some(KeyboardKey::RAlt)
    } else if code == 137 {
        Some(KeyboardKey::RBracket)
    } else if code == 138 {
        Some(KeyboardKey::RControl)
    } else if code == 139 {
        Some(KeyboardKey::RShift)
    } else if code == 140 {
        Some(KeyboardKey::RWin)
    } else if code == 141 {
        Some(KeyboardKey::Semicolon)
    } else if code == 142 {
        Some(KeyboardKey::Slash)
    } else if code == 143 {
        Some(KeyboardKey::Sleep)
    } else if code == 144 {
        Some(KeyboardKey::Stop)
    } else if code == 145 {
        Some(KeyboardKey::Sysrq)
    } else if code == 146 {
        Some(KeyboardKey::Tab)
    } else if code == 147 {
        Some(KeyboardKey::Underline)
    } else if code == 148 {
        Some(KeyboardKey::Unlabeled)
    } else if code == 149 {
        Some(KeyboardKey::VolumeDown)
    } else if code == 150 {
        Some(KeyboardKey::VolumeUp)
    } else if code == 151 {
        Some(KeyboardKey::Wake)
    } else if code == 152 {
        Some(KeyboardKey::WebBack)
    } else if code == 153 {
        Some(KeyboardKey::WebFavorites)
    } else if code == 154 {
        Some(KeyboardKey::WebForward)
    } else if code == 155 {
        Some(KeyboardKey::WebHome)
    } else if code == 156 {
        Some(KeyboardKey::WebRefresh)
    } else if code == 157 {
        Some(KeyboardKey::WebSearch)
    } else if code == 158 {
        Some(KeyboardKey::WebStop)
    } else if code == 159 {
        Some(KeyboardKey::Yen)
    } else if code == 160 {
        Some(KeyboardKey::Copy)
    } else if code == 161 {
        Some(KeyboardKey::Paste)
    } else if code == 162 {
        Some(KeyboardKey::Cut)
    } else {
        None
    }
}

/// Convert one backend key code. Returns nothing for a code with no
/// entry in the mapping table.
pub fn normalize_key_code(code: u32) -> (r: Option<KeyboardKey>)
    ensures
        r == key_for_code(code),
{
    match code {
        0 => Some(KeyboardKey::Num1),
        1 => Some(KeyboardKey::Num2),
        2 => Some(KeyboardKey::Num3),
        3 => Some(KeyboardKey::Num4),
        4 => Some(KeyboardKey::Num5),
        5 => Some(KeyboardKey::Num6),
        6 => Some(KeyboardKey::Num7),
        7 => Some(KeyboardKey::Num8),
        8 => Some(KeyboardKey::Num9),
        9 => Some(KeyboardKey::Num0),
        10 => Some(KeyboardKey::A),
        11 => Some(KeyboardKey::B),
        12 => Some(KeyboardKey::C),
        13 => Some(KeyboardKey::D),
        14 => Some(KeyboardKey::E),
        15 => Some(KeyboardKey::F),
        16 => Some(KeyboardKey::G),
        17 => Some(KeyboardKey::H),
        18 => Some(KeyboardKey::I),
        19 => Some(KeyboardKey::J),
        20 => Some(KeyboardKey::K),
        21 => Some(KeyboardKey::L),
        22 => Some(KeyboardKey::M),
        23 => Some(KeyboardKey::N),
        24 => Some(KeyboardKey::O),
        25 => Some(KeyboardKey::P),
        26 => Some(KeyboardKey::Q),
        27 => Some(KeyboardKey::R),
        28 => Some(KeyboardKey::S),
        29 => Some(KeyboardKey::T),
        30 => Some(KeyboardKey::U),
        31 => Some(KeyboardKey::V),
        32 => Some(KeyboardKey::W),
        33 => Some(KeyboardKey::X),
        34 => Some(KeyboardKey::Y),
        35 => Some(KeyboardKey::Z),
        36 => Some(KeyboardKey::Escape),
        37 => Some(KeyboardKey::F1),
        38 => Some(KeyboardKey::F2),
        39 => Some(KeyboardKey::F3),
        40 => Some(KeyboardKey::F4),
        41 => Some(KeyboardKey::F5),
        42 => Some(KeyboardKey::F6),
        43 => Some(KeyboardKey::F7),
        44 => Some(KeyboardKey::F8),
        45 => Some(KeyboardKey::F9),
        46 => Some(KeyboardKey::F10),
        47 => Some(KeyboardKey::F11),
        48 => Some(KeyboardKey::F12),
        49 => Some(KeyboardKey::F13),
        50 => Some(KeyboardKey::F14),
        51 => Some(KeyboardKey::F15),
        52 => Some(KeyboardKey::F16),
        53 => Some(KeyboardKey::F17),
        54 => Some(KeyboardKey::F18),
        55 => Some(KeyboardKey::F19),
        56 => Some(KeyboardKey::F20),
        57 => Some(KeyboardKey::F21),
        58 => Some(KeyboardKey::F22),
        59 => Some(KeyboardKey::F23),
        60 => Some(KeyboardKey::F24),
        61 => Some(KeyboardKey::Snapshot),
        62 => Some(KeyboardKey::Scroll),
        63 => Some(KeyboardKey::Pause),
        64 => Some(KeyboardKey::Insert),
        65 => Some(KeyboardKey::Home),
        66 => Some(KeyboardKey::Delete),
        67 => Some(KeyboardKey::End),
        68 => Some(KeyboardKey::PageDown),
        69 => Some(KeyboardKey::PageUp),
        70 => Some(KeyboardKey::Left),
        71 => Some(KeyboardKey::Up),
        72 => Some(KeyboardKey::Right),
        73 => Some(KeyboardKey::Down),
        74 => Some(KeyboardKey::Back),
        75 => Some(KeyboardKey::Return),
        76 => Some(KeyboardKey::Space),
        77 => Some(KeyboardKey::Compose),
        78 => Some(KeyboardKey::Caret),
        79 => Some(KeyboardKey::Numlock),
        80 => Some(KeyboardKey::Numpad0),
        81 => Some(KeyboardKey::Numpad1),
        82 => Some(KeyboardKey::Numpad2),
        83 => Some(KeyboardKey::Numpad3),
        84 => Some(KeyboardKey::Numpad4),
        85 => Some(KeyboardKey::Numpad5),
        86 => Some(KeyboardKey::Numpad6),
        87 => Some(KeyboardKey::Numpad7),
        88 => Some(KeyboardKey::Numpad8),
        89 => Some(KeyboardKey::Numpad9),
        90 => Some(KeyboardKey::NumpadAdd),
        91 => Some(KeyboardKey::NumpadDivide),
        92 => Some(KeyboardKey::NumpadDecimal),
        93 => Some(KeyboardKey::NumpadComma),
        94 => Some(KeyboardKey::NumpadEnter),
        95 => Some(KeyboardKey::NumpadEquals),
        96 => Some(KeyboardKey::NumpadMultiply),
        97 => Some(KeyboardKey::NumpadSubtract),
        98 => Some(KeyboardKey::AbntC1),
        99 => Some(KeyboardKey::AbntC2),
        100 => Some(KeyboardKey::Apostrophe),
        101 => Some(KeyboardKey::Apps),
        102 => Some(KeyboardKey::Asterisk),
        103 => Some(KeyboardKey::At),
        104 => Some(KeyboardKey::Ax),
        105 => Some(KeyboardKey::Backslash),
        106 => Some(KeyboardKey::Calculator),
        107 => Some(KeyboardKey::Capital),
        108 => Some(KeyboardKey::Colon),
        109 => Some(KeyboardKey::Comma),
        110 => Some(KeyboardKey::Convert),
        111 => Some(KeyboardKey::Equals),
        112 => Some(KeyboardKey::Grave),
        113 => Some(KeyboardKey::Kana),
        114 => Some(KeyboardKey::Kanji),
        115 => Some(KeyboardKey::LAlt),
        116 => Some(KeyboardKey::LBracket),
        117 => Some(KeyboardKey::LControl),
        118 => Some(KeyboardKey::LShift),
        119 => Some(KeyboardKey::LWin),
        120 => Some(KeyboardKey::Mail),
        121 => Some(KeyboardKey::MediaSelect),
        122 => Some(KeyboardKey::MediaStop),
        123 => Some(KeyboardKey::Minus),
        124 => Some(KeyboardKey::Mute),
        125 => Some(KeyboardKey::MyComputer),
        126 => Some(KeyboardKey::NavigateForward),
        127 => Some(KeyboardKey::NavigateBackward),
        128 => Some(KeyboardKey::NextTrack),
        129 => Some(KeyboardKey::NoConvert),
        130 => Some(KeyboardKey::OEM102),
        131 => Some(KeyboardKey::Period),
        132 => Some(KeyboardKey::PlayPause),
        133 => Some(KeyboardKey::Plus),
        134 => Some(KeyboardKey::Power),
        135 => Some(KeyboardKey::PrevTrack),
        136 => Some(KeyboardKey::RAlt),
        137 => Some(KeyboardKey::RBracket),
        138 => Some(KeyboardKey::RControl),
        139 => Some(KeyboardKey::RShift),
        140 => Some(KeyboardKey::RWin),
        141 => Some(KeyboardKey::Semicolon),
        142 => Some(KeyboardKey::Slash),
        143 => Some(KeyboardKey::Sleep),
        144 => Some(KeyboardKey::Stop),
        145 => Some(KeyboardKey::Sysrq),
        146 => Some(KeyboardKey::Tab),
        147 => Some(KeyboardKey::Underline),
        148 => Some(KeyboardKey::Unlabeled),
        149 => Some(KeyboardKey::VolumeDown),
        150 => Some(KeyboardKey::VolumeUp),
        151 => Some(KeyboardKey::Wake),
        152 => Some(KeyboardKey::WebBack),
        153 => Some(KeyboardKey::WebFavorites),
        154 => Some(KeyboardKey::WebForward),
        155 => Some(KeyboardKey::WebHome),
        156 => Some(KeyboardKey::WebRefresh),
        157 => Some(KeyboardKey::WebSearch),
        158 => Some(KeyboardKey::WebStop),
        159 => Some(KeyboardKey::Yen),
        160 => Some(KeyboardKey::Copy),
        161 => Some(KeyboardKey::Paste),
        162 => Some(KeyboardKey::Cut),
        _ => None,
    }
}

/// The keyboard action named by the backend's pressed flag.
pub open spec fn spec_keyboard_action(pressed: bool) -> KeyboardAction {
    if pressed {
        KeyboardAction::Press
    } else {
        KeyboardAction::Release
    }
}

/// The keyboard event produced for one backend key report, if its key
/// code has an entry in the mapping table.
pub open spec fn spec_keyboard_event(device_id: u64, key_code: u32, pressed: bool) -> Option<
    UIEvent,
> {
    match key_for_code(key_code) {
        Some(key) => Some(
            UIEvent::Keyboard(
                KeyboardEvent { device_id, key, action: spec_keyboard_action(pressed) },
            ),
        ),
        None => None,
    }
}

/// Normalize one keyboard report and append the resulting event, if
/// any, to the pending batch. A key code with no entry in the mapping
/// table produces no event and leaves the batch unchanged.
pub fn apply_keyboard_event(
    device_id: u64,
    key_code: u32,
    pressed: bool,
    ui_events: &mut Vec<UIEvent>,
)
    ensures
        match spec_keyboard_event(device_id, key_code, pressed) {
            Some(e) => final(ui_events)@ == old(ui_events)@.push(e),
            None => final(ui_events)@ == old(ui_events)@,
        },
{
    let key = match normalize_key_code(key_code) {
        Some(key) => key,
        None => {
            return ;
        },
    };

    let action = if pressed {
        KeyboardAction::Press
    } else {
        KeyboardAction::Release
    };

    ui_events.push(UIEvent::Keyboard(KeyboardEvent { device_id, key, action }));
}

/// The mouse-button action named by the backend's pressed flag.
pub open spec fn spec_mouse_button_action(pressed: bool) -> MouseButtonAction {
    if pressed {
        MouseButtonAction::Press
    } else {
        MouseButtonAction::Release
    }
}

/// The event produced for one backend mouse-button report.
pub open spec fn spec_mouse_button_event(device_id: u64, button: MouseButton, pressed: bool) -> UIEvent {
    UIEvent::MouseButton(
        MouseButtonEvent { device_id, button, action: spec_mouse_button_action(pressed) },
    )
}

/// Normalize one mouse-button report and append the resulting event to
/// the pending batch.
pub fn apply_mouse_button_event(
    device_id: u64,
    button: MouseButton,
    pressed: bool,
    ui_events: &mut Vec<UIEvent>,
)
    ensures
        final(ui_events)@ == old(ui_events)@.push(
            spec_mouse_button_event(device_id, button, pressed),
        ),
{
    let action = if pressed {
        MouseButtonAction::Press
    } else {
        MouseButtonAction::Release
    };

    ui_events.push(UIEvent::MouseButton(MouseButtonEvent { device_id, button, action }));
}

/// The event produced for one cursor movement, with the coordinates
/// already converted to the window's logical coordinate space.
pub open spec fn spec_cursor_movement_event(device_id: u64, x: u32, y: u32) -> UIEvent {
    UIEvent::CursorMovement(CursorMovementEvent { device_id, x, y })
}

/// Record one cursor movement in the pending batch.
pub fn apply_cursor_movement_event(device_id: u64, x: u32, y: u32, ui_events: &mut Vec<UIEvent>)
    ensures
        final(ui_events)@ == old(ui_events)@.push(spec_cursor_movement_event(device_id, x, y)),
{
    ui_events.push(UIEvent::CursorMovement(CursorMovementEvent { device_id, x, y }));
}

/// The event produced for one window resize, with the new logical
/// size.
pub open spec fn spec_resize_event(width: u32, height: u32) -> UIEvent {
    UIEvent::Resize(ResizeEvent { width, height })
}

/// Record one window resize in the pending batch.
pub fn apply_resize_event(width: u32, height: u32, ui_events: &mut Vec<UIEvent>)
    ensures
        final(ui_events)@ == old(ui_events)@.push(spec_resize_event(width, height)),
{
    ui_events.push(UIEvent::Resize(ResizeEvent { width, height }));
}

} // verus!
