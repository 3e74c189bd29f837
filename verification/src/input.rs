//! Input devices: mouse buttons, keyboard keys, and how the web backend's
//! key codes and mouse button numbers map onto them.

use vstd::prelude::*;

verus! {

/// Represents a button of a mouse
#[derive(Clone, Copy, Hash, Debug, Eq, PartialEq, Ord, PartialOrd, Structural)]
pub enum MouseButton {
    Left,
    Right,
    Middle,
    Other(u8),
}

/// Represent a key
/// Enum from winit but added an Unknown key.
#[derive(Clone, Copy, Hash, Debug, Eq, PartialEq, Ord, PartialOrd, Structural)]
pub enum KeyCode {

    /// The '1' key over the letters.
    Key1,
    /// The '2' key over the letters.
    Key2,
    /// The '3' key over the letters.
    Key3,
    /// The '4' key over the letters.
    Key4,
    /// The '5' key over the letters.
    Key5,
    /// The '6' key over the letters.
    Key6,
    /// The '7' key over the letters.
    Key7,
    /// The '8' key over the letters.
    Key8,
    /// The '9' key over the letters.
    Key9,
    /// The '0' key over the 'O' and 'P' keys.
    Key0,

    A,
    B,
    C,
    D,
    E,
    F,
    G,
    H,
    I,
    J,
    K,
    L,
    M,
    N,
    O,
    P,
    Q,
    R,
    S,
    T,
    U,
    V,
    W,
    X,
    Y,
    Z,

    /// The Escape key, next to F1.
    Escape,

    F1,
    F2,
    F3,
    F4,
    F5,
    F6,
    F7,
    F8,
    F9,
    F10,
    F11,
    F12,
    F13,
    F14,
    F15,
    F16,
    F17,
    F18,
    F19,
    F20,
    F21,
    F22,
    F23,
    F24,

    /// Print Screen/SysRq.
    Snapshot,
    /// Scroll Lock.
    Scroll,
    /// Pause/Break key, next to Scroll lock.
    Pause,

    /// `Insert`, next to Backspace.
    Insert,
    Home,
    Delete,
    End,
    PageDown,
    PageUp,

    Left,
    Up,
    Right,
    Down,

    /// The Backspace key, right over Enter.
    Back,
    /// The Enter key.
    Return,
    /// The space bar.
    Space,

    /// The "Compose" key on Linux.
    Compose,

    Caret,

    Numlock,
    Numpad0,
    Numpad1,
    Numpad2,
    Numpad3,
    Numpad4,
    Numpad5,
    Numpad6,
    Numpad7,
    Numpad8,
    Numpad9,

    AbntC1,
    AbntC2,
    Add,
    Apostrophe,
    Apps,
    At,
    Ax,
    Backslash,
    Calculator,
    Capital,
    Colon,
    Comma,
    Convert,
    Decimal,
    Divide,
    Equals,
    Grave,
    Kana,
    Kanji,
    LAlt,
    LBracket,
    LControl,
    LShift,
    LWin,
    Mail,
    MediaSelect,
    MediaStop,
    Minus,
    Multiply,
    Mute,
    MyComputer,
    NavigateForward,
    NavigateBackward,
    NextTrack,
    NoConvert,
    NumpadComma,
    NumpadEnter,
    NumpadEquals,
    OEM102,
    Period,
    PlayPause,
    Power,
    PrevTrack,
    RAlt,
    RBracket,
    RControl,
    RShift,
    RWin,
    Semicolon,
    Slash,
    Sleep,
    Stop,
    Subtract,
    Sysrq,
    Tab,
    Underline,
    Unlabeled,
    VolumeDown,
    VolumeUp,
    Wake,
    WebBack,
    WebFavorites,
    WebForward,
    WebHome,
    WebRefresh,
    WebSearch,
    WebStop,
    Yen,
    Copy,
    Paste,
    Cut,

    Unknown,
}

/// Whether two strings hold the same characters.
pub fn str_eq(a: &str, b: &str) -> (r: bool)
    ensures
        r == (a@ == b@),
{
    let n = a.unicode_len();
    if n != b.unicode_len() {
        return false;
    }
    let mut i: usize = 0;
    while i < n
        invariant
            n == a@.len(),
            n == b@.len(),
            i <= n,
            forall|j: int| 0 <= j < i ==> a@[j] == b@[j],
        decreases n - i,
    {
        if a.get_char(i) != b.get_char(i) {
            return false;
        }
        i = i + 1;
    }
    assert(a@ =~= b@);
    true
}

/// The key named by a web `KeyboardEvent.code`, if it is one this layer knows.
pub open spec fn web_key_code(code: Seq<char>) -> Option<KeyCode> {
    if code == "Digit1"@ {
        Some(KeyCode::Key1)
    } else if code == "Digit2"@ {
        Some(KeyCode::Key2)
    } else if code == "Digit3"@ {
        Some(KeyCode::Key3)
    } else if code == "Digit4"@ {
        Some(KeyCode::Key4)
    } else if code == "Digit5"@ {
        Some(KeyCode::Key5)
    } else if code == "Digit6"@ {
        Some(KeyCode::Key6)
    } else if code == "Digit7"@ {
        Some(KeyCode::Key7)
    } else if code == "Digit8"@ {
        Some(KeyCode::Key8)
    } else if code == "Digit9"@ {
        Some(KeyCode::Key9)
    } else if code == "Digit0"@ {
        Some(KeyCode::Key0)
    } else if code == "KeyA"@ {
        Some(KeyCode::A)
    } else if code == "KeyB"@ {
        Some(KeyCode::B)
    } else if code == "KeyC"@ {
        Some(KeyCode::C)
    } else if code == "KeyD"@ {
        Some(KeyCode::D)
    } else if code == "KeyE"@ {
        Some(KeyCode::E)
    } else if code == "KeyF"@ {
        Some(KeyCode::F)
    } else if code == "KeyG"@ {
        Some(KeyCode::G)
    } else if code == "KeyH"@ {
        Some(KeyCode::H)
    } else if code == "KeyI"@ {
        Some(KeyCode::I)
    } else if code == "KeyJ"@ {
        Some(KeyCode::J)
    } else if code == "KeyK"@ {
        Some(KeyCode::K)
    } else if code == "KeyL"@ {
        Some(KeyCode::L)
    } else if code == "KeyM"@ {
        Some(KeyCode::M)
    } else if code == "KeyN"@ {
        Some(KeyCode::N)
    } else if code == "KeyO"@ {
        Some(KeyCode::O)
    } else if code == "KeyP"@ {
        Some(KeyCode::P)
    } else if code == "KeyQ"@ {
        Some(KeyCode::Q)
    } else if code == "KeyR"@ {
        Some(KeyCode::R)
    } else if code == "KeyS"@ {
        Some(KeyCode::S)
    } else if code == "KeyT"@ {
        Some(KeyCode::T)
    } else if code == "KeyU"@ {
        Some(KeyCode::U)
    } else if code == "KeyV"@ {
        Some(KeyCode::V)
    } else if code == "KeyW"@ {
        Some(KeyCode::W)
    } else if code == "KeyX"@ {
        Some(KeyCode::X)
    } else if code == "KeyY"@ {
        Some(KeyCode::Y)
    } else if code == "KeyZ"@ {
        Some(KeyCode::Z)
    } else if code == "Escape"@ {
        Some(KeyCode::Escape)
    } else if code == "F1"@ {
        Some(KeyCode::F1)
    } else if code == "F2"@ {
        Some(KeyCode::F2)
    } else if code == "F3"@ {
        Some(KeyCode::F3)
    } else if code == "F4"@ {
        Some(KeyCode::F4)
    } else if code == "F5"@ {
        Some(KeyCode::F5)
    } else if code == "F6"@ {
        Some(KeyCode::F6)
    } else if code == "F7"@ {
        Some(KeyCode::F7)
    } else if code == "F8"@ {
        Some(KeyCode::F8)
    } else if code == "F9"@ {
        Some(KeyCode::F9)
    } else if code == "F10"@ {
        Some(KeyCode::F10)
    } else if code == "F11"@ {
        Some(KeyCode::F11)
    } else if code == "F12"@ {
        Some(KeyCode::F12)
    } else if code == "F13"@ {
        Some(KeyCode::F13)
    } else if code == "F14"@ {
        Some(KeyCode::F14)
    } else if code == "F15"@ {
        Some(KeyCode::F15)
    } else if code == "F16"@ {
        Some(KeyCode::F16)
    } else if code == "F17"@ {
        Some(KeyCode::F17)
    } else if code == "F18"@ {
        Some(KeyCode::F18)
    } else if code == "F19"@ {
        Some(KeyCode::F19)
    } else if code == "F20"@ {
        Some(KeyCode::F20)
    } else if code == "F21"@ {
        Some(KeyCode::F21)
    } else if code == "F22"@ {
        Some(KeyCode::F22)
    } else if code == "F23"@ {
        Some(KeyCode::F23)
    } else if code == "F24"@ {
        Some(KeyCode::F24)
    } else if code == "PrintScreen"@ {
        Some(KeyCode::Snapshot)
    } else if code == "ScrollLock"@ {
        Some(KeyCode::Scroll)
    } else if code == "Pause"@ {
        Some(KeyCode::Pause)
    } else if code == "Insert"@ {
        Some(KeyCode::Insert)
    } else if code == "Home"@ {
        Some(KeyCode::Home)
    } else if code == "Delete"@ {
        Some(KeyCode::Delete)
    } else if code == "End"@ {
        Some(KeyCode::End)
    } else if code == "PageDown"@ {
        Some(KeyCode::PageDown)
    } else if code == "PageUp"@ {
        Some(KeyCode::PageUp)
    } else if code == "ArrowLeft"@ {
        Some(KeyCode::Left)
    } else if code == "ArrowUp"@ {
        Some(KeyCode::Up)
    } else if code == "ArrowRight"@ {
        Some(KeyCode::Right)
    } else if code == "ArrowDown"@ {
        Some(KeyCode::Down)
    } else if code == "Backspace"@ {
        Some(KeyCode::Back)
    } else if code == "Enter"@ {
        Some(KeyCode::Return)
    } else if code == "Space"@ {
        Some(KeyCode::Space)
    } else if code == "Compose"@ {
        Some(KeyCode::Compose)
    } else if code == "Caret"@ {
        Some(KeyCode::Caret)
    } else if code == "NumLock"@ {
        Some(KeyCode::Numlock)
    } else if code == "Numpad0"@ {
        Some(KeyCode::Numpad0)
    } else if code == "Numpad1"@ {
        Some(KeyCode::Numpad1)
    } else if code == "Numpad2"@ {
        Some(KeyCode::Numpad2)
    } else if code == "Numpad3"@ {
        Some(KeyCode::Numpad3)
    } else if code == "Numpad4"@ {
        Some(KeyCode::Numpad4)
    } else if code == "Numpad5"@ {
        Some(KeyCode::Numpad5)
    } else if code == "Numpad6"@ {
        Some(KeyCode::Numpad6)
    } else if code == "Numpad7"@ {
        Some(KeyCode::Numpad7)
    } else if code == "Numpad8"@ {
        Some(KeyCode::Numpad8)
    } else if code == "Numpad9"@ {
        Some(KeyCode::Numpad9)
    } else if code == "AbntC1"@ {
        Some(KeyCode::AbntC1)
    } else if code == "AbntC2"@ {
        Some(KeyCode::AbntC2)
    } else if code == "NumpadAdd"@ {
        Some(KeyCode::Add)
    } else if code == "Quote"@ {
        Some(KeyCode::Apostrophe)
    } else if code == "Apps"@ {
        Some(KeyCode::Apps)
    } else if code == "At"@ {
        Some(KeyCode::At)
    } else if code == "Ax"@ {
        Some(KeyCode::Ax)
    } else if code == "Backslash"@ {
        Some(KeyCode::Backslash)
    } else if code == "Calculator"@ {
        Some(KeyCode::Calculator)
    } else if code == "Capital"@ {
        Some(KeyCode::Capital)
    } else if code == "Semicolon"@ {
        Some(KeyCode::Semicolon)
    } else if code == "Comma"@ {
        Some(KeyCode::Comma)
    } else if code == "Convert"@ {
        Some(KeyCode::Convert)
    } else if code == "NumpadDecimal"@ {
        Some(KeyCode::Decimal)
    } else if code == "NumpadDivide"@ {
        Some(KeyCode::Divide)
    } else if code == "Equal"@ {
        Some(KeyCode::Equals)
    } else if code == "Backquote"@ {
        Some(KeyCode::Grave)
    } else if code == "Kana"@ {
        Some(KeyCode::Kana)
    } else if code == "Kanji"@ {
        Some(KeyCode::Kanji)
    } else if code == "AltLeft"@ {
        Some(KeyCode::LAlt)
    } else if code == "BracketLeft"@ {
        Some(KeyCode::LBracket)
    } else if code == "ControlLeft"@ {
        Some(KeyCode::LControl)
    } else if code == "ShiftLeft"@ {
        Some(KeyCode::LShift)
    } else if code == "MetaLeft"@ {
        Some(KeyCode::LWin)
    } else if code == "Mail"@ {
        Some(KeyCode::Mail)
    } else if code == "MediaSelect"@ {
        Some(KeyCode::MediaSelect)
    } else if code == "MediaStop"@ {
        Some(KeyCode::MediaStop)
    } else if code == "Minus"@ {
        Some(KeyCode::Minus)
    } else if code == "NumpadMultiply"@ {
        Some(KeyCode::Multiply)
    } else if code == "Mute"@ {
        Some(KeyCode::Mute)
    } else if code == "LaunchMyComputer"@ {
        Some(KeyCode::MyComputer)
    } else if code == "NavigateForward"@ {
        Some(KeyCode::NavigateForward)
    } else if code == "NavigateBackward"@ {
        Some(KeyCode::NavigateBackward)
    } else if code == "NextTrack"@ {
        Some(KeyCode::NextTrack)
    } else if code == "NoConvert"@ {
        Some(KeyCode::NoConvert)
    } else if code == "NumpadComma"@ {
        Some(KeyCode::NumpadComma)
    } else if code == "NumpadEnter"@ {
        Some(KeyCode::NumpadEnter)
    } else if code == "NumpadEquals"@ {
        Some(KeyCode::NumpadEquals)
    } else if code == "OEM102"@ {
        Some(KeyCode::OEM102)
    } else if code == "Period"@ {
        Some(KeyCode::Period)
    } else if code == "PlayPause"@ {
        Some(KeyCode::PlayPause)
    } else if code == "Power"@ {
        Some(KeyCode::Power)
    } else if code == "PrevTrack"@ {
        Some(KeyCode::PrevTrack)
    } else if code == "AltRight"@ {
        Some(KeyCode::RAlt)
    } else if code == "BracketRight"@ {
        Some(KeyCode::RBracket)
    } else if code == "ControlRight"@ {
        Some(KeyCode::RControl)
    } else if code == "ShiftRight"@ {
        Some(KeyCode::RShift)
    } else if code == "MetaRight"@ {
        Some(KeyCode::RWin)
    } else if code == "Slash"@ {
        Some(KeyCode::Slash)
    } else if code == "Sleep"@ {
        Some(KeyCode::Sleep)
    } else if code == "Stop"@ {
        Some(KeyCode::Stop)
    } else if code == "NumpadSubtract"@ {
        Some(KeyCode::Subtract)
    } else if code == "Sysrq"@ {
        Some(KeyCode::Sysrq)
    } else if code == "Tab"@ {
        Some(KeyCode::Tab)
    } else if code == "Underline"@ {
        Some(KeyCode::Underline)
    } else if code == "Unlabeled"@ {
        Some(KeyCode::Unlabeled)
    } else if code == "AudioVolumeDown"@ {
        Some(KeyCode::VolumeDown)
    } else if code == "AudioVolumeUp"@ {
        Some(KeyCode::VolumeUp)
    } else if code == "Wake"@ {
        Some(KeyCode::Wake)
    } else if code == "WebBack"@ {
        Some(KeyCode::WebBack)
    } else if code == "WebFavorites"@ {
        Some(KeyCode::WebFavorites)
    } else if code == "WebForward"@ {
        Some(KeyCode::WebForward)
    } else if code == "WebHome"@ {
        Some(KeyCode::WebHome)
    } else if code == "WebRefresh"@ {
        Some(KeyCode::WebRefresh)
    } else if code == "WebSearch"@ {
        Some(KeyCode::WebSearch)
    } else if code == "WebStop"@ {
        Some(KeyCode::WebStop)
    } else if code == "Yen"@ {
        Some(KeyCode::Yen)
    } else {
        None
    }
}

/// The web `KeyboardEvent.code` that names `key`, for the keys the web
/// backend knows; `None` for `Colon`, `Copy`, `Paste`, `Cut` and `Unknown`.
pub open spec fn web_code_of(key: KeyCode) -> Option<Seq<char>> {
    match key {
        KeyCode::Key1 => Some("Digit1"@),
        KeyCode::Key2 => Some("Digit2"@),
        KeyCode::Key3 => Some("Digit3"@),
        KeyCode::Key4 => Some("Digit4"@),
        KeyCode::Key5 => Some("Digit5"@),
        KeyCode::Key6 => Some("Digit6"@),
        KeyCode::Key7 => Some("Digit7"@),
        KeyCode::Key8 => Some("Digit8"@),
        KeyCode::Key9 => Some("Digit9"@),
        KeyCode::Key0 => Some("Digit0"@),
        KeyCode::A => Some("KeyA"@),
        KeyCode::B => Some("KeyB"@),
        KeyCode::C => Some("KeyC"@),
        KeyCode::D => Some("KeyD"@),
        KeyCode::E => Some("KeyE"@),
        KeyCode::F => Some("KeyF"@),
        KeyCode::G => Some("KeyG"@),
        KeyCode::H => Some("KeyH"@),
        KeyCode::I => Some("KeyI"@),
        KeyCode::J => Some("KeyJ"@),
        KeyCode::K => Some("KeyK"@),
        KeyCode::L => Some("KeyL"@),
        KeyCode::M => Some("KeyM"@),
        KeyCode::N => Some("KeyN"@),
        KeyCode::O => Some("KeyO"@),
        KeyCode::P => Some("KeyP"@),
        KeyCode::Q => Some("KeyQ"@),
        KeyCode::R => Some("KeyR"@),
        KeyCode::S => Some("KeyS"@),
        KeyCode::T => Some("KeyT"@),
        KeyCode::U => Some("KeyU"@),
        KeyCode::V => Some("KeyV"@),
        KeyCode::W => Some("KeyW"@),
        KeyCode::X => Some("KeyX"@),
        KeyCode::Y => Some("KeyY"@),
        KeyCode::Z => Some("KeyZ"@),
        KeyCode::Escape => Some("Escape"@),
        KeyCode::F1 => Some("F1"@),
        KeyCode::F2 => Some("F2"@),
        KeyCode::F3 => Some("F3"@),
        KeyCode::F4 => Some("F4"@),
        KeyCode::F5 => Some("F5"@),
        KeyCode::F6 => Some("F6"@),
        KeyCode::F7 => Some("F7"@),
        KeyCode::F8 => Some("F8"@),
        KeyCode::F9 => Some("F9"@),
        KeyCode::F10 => Some("F10"@),
        KeyCode::F11 => Some("F11"@),
        KeyCode::F12 => Some("F12"@),
        KeyCode::F13 => Some("F13"@),
        KeyCode::F14 => Some("F14"@),
        KeyCode::F15 => Some("F15"@),
        KeyCode::F16 => Some("F16"@),
        KeyCode::F17 => Some("F17"@),
        KeyCode::F18 => Some("F18"@),
        KeyCode::F19 => Some("F19"@),
        KeyCode::F20 => Some("F20"@),
        KeyCode::F21 => Some("F21"@),
        KeyCode::F22 => Some("F22"@),
        KeyCode::F23 => Some("F23"@),
        KeyCode::F24 => Some("F24"@),
        KeyCode::Snapshot => Some("PrintScreen"@),
        KeyCode::Scroll => Some("ScrollLock"@),
        KeyCode::Pause => Some("Pause"@),
        KeyCode::Insert => Some("Insert"@),
        KeyCode::Home => Some("Home"@),
        KeyCode::Delete => Some("Delete"@),
        KeyCode::End => Some("End"@),
        KeyCode::PageDown => Some("PageDown"@),
        KeyCode::PageUp => Some("PageUp"@),
        KeyCode::Left => Some("ArrowLeft"@),
        KeyCode::Up => Some("ArrowUp"@),
        KeyCode::Right => Some("ArrowRight"@),
        KeyCode::Down => Some("ArrowDown"@),
        KeyCode::Back => Some("Backspace"@),
        KeyCode::Return => Some("Enter"@),
        KeyCode::Space => Some("Space"@),
        KeyCode::Compose => Some("Compose"@),
        KeyCode::Caret => Some("Caret"@),
        KeyCode::Numlock => Some("NumLock"@),
        KeyCode::Numpad0 => Some("Numpad0"@),
        KeyCode::Numpad1 => Some("Numpad1"@),
        KeyCode::Numpad2 => Some("Numpad2"@),
        KeyCode::Numpad3 => Some("Numpad3"@),
        KeyCode::Numpad4 => Some("Numpad4"@),
        KeyCode::Numpad5 => Some("Numpad5"@),
        KeyCode::Numpad6 => Some("Numpad6"@),
        KeyCode::Numpad7 => Some("Numpad7"@),
        KeyCode::Numpad8 => Some("Numpad8"@),
        KeyCode::Numpad9 => Some("Numpad9"@),
        KeyCode::AbntC1 => Some("AbntC1"@),
        KeyCode::AbntC2 => Some("AbntC2"@),
        KeyCode::Add => Some("NumpadAdd"@),
        KeyCode::Apostrophe => Some("Quote"@),
        KeyCode::Apps => Some("Apps"@),
        KeyCode::At => Some("At"@),
        KeyCode::Ax => Some("Ax"@),
        KeyCode::Backslash => Some("Backslash"@),
        KeyCode::Calculator => Some("Calculator"@),
        KeyCode::Capital => Some("Capital"@),
        KeyCode::Comma => Some("Comma"@),
        KeyCode::Convert => Some("Convert"@),
        KeyCode::Decimal => Some("NumpadDecimal"@),
        KeyCode::Divide => Some("NumpadDivide"@),
        KeyCode::Equals => Some("Equal"@),
        KeyCode::Grave => Some("Backquote"@),
        KeyCode::Kana => Some("Kana"@),
        KeyCode::Kanji => Some("Kanji"@),
        KeyCode::LAlt => Some("AltLeft"@),
        KeyCode::LBracket => Some("BracketLeft"@),
        KeyCode::LControl => Some("ControlLeft"@),
        KeyCode::LShift => Some("ShiftLeft"@),
        KeyCode::LWin => Some("MetaLeft"@),
        KeyCode::Mail => Some("Mail"@),
        KeyCode::MediaSelect => Some("MediaSelect"@),
        KeyCode::MediaStop => Some("MediaStop"@),
        KeyCode::Minus => Some("Minus"@),
        KeyCode::Multiply => Some("NumpadMultiply"@),
        KeyCode::Mute => Some("Mute"@),
        KeyCode::MyComputer => Some("LaunchMyComputer"@),
        KeyCode::NavigateForward => Some("NavigateForward"@),
        KeyCode::NavigateBackward => Some("NavigateBackward"@),
        KeyCode::NextTrack => Some("NextTrack"@),
        KeyCode::NoConvert => Some("NoConvert"@),
        KeyCode::NumpadComma => Some("NumpadComma"@),
        KeyCode::NumpadEnter => Some("NumpadEnter"@),
        KeyCode::NumpadEquals => Some("NumpadEquals"@),
        KeyCode::OEM102 => Some("OEM102"@),
        KeyCode::Period => Some("Period"@),
        KeyCode::PlayPause => Some("PlayPause"@),
        KeyCode::Power => Some("Power"@),
        KeyCode::PrevTrack => Some("PrevTrack"@),
        KeyCode::RAlt => Some("AltRight"@),
        KeyCode::RBracket => Some("BracketRight"@),
        KeyCode::RControl => Some("ControlRight"@),
        KeyCode::RShift => Some("ShiftRight"@),
        KeyCode::RWin => Some("MetaRight"@),
        KeyCode::Semicolon => Some("Semicolon"@),
        KeyCode::Slash => Some("Slash"@),
        KeyCode::Sleep => Some("Sleep"@),
        KeyCode::Stop => Some("Stop"@),
        KeyCode::Subtract => Some("NumpadSubtract"@),
        KeyCode::Sysrq => Some("Sysrq"@),
        KeyCode::Tab => Some("Tab"@),
        KeyCode::Underline => Some("Underline"@),
        KeyCode::Unlabeled => Some("Unlabeled"@),
        KeyCode::VolumeDown => Some("AudioVolumeDown"@),
        KeyCode::VolumeUp => Some("AudioVolumeUp"@),
        KeyCode::Wake => Some("Wake"@),
        KeyCode::WebBack => Some("WebBack"@),
        KeyCode::WebFavorites => Some("WebFavorites"@),
        KeyCode::WebForward => Some("WebForward"@),
        KeyCode::WebHome => Some("WebHome"@),
        KeyCode::WebRefresh => Some("WebRefresh"@),
        KeyCode::WebSearch => Some("WebSearch"@),
        KeyCode::WebStop => Some("WebStop"@),
        KeyCode::Yen => Some("Yen"@),
        _ => None,
    }
}

/// Each web code names at most one key and each key has at most one web
/// code: a code that `keyboard_code` maps to `key` is the code of `key`, so
/// no two codes give the same key, and `Colon`, `Copy`, `Paste`, `Cut` and
/// `Unknown` are never given.
#[verifier::rlimit(100)]
pub proof fn law_web_codes_name_one_key(code: Seq<char>)
    ensures
        web_key_code(code) matches Some(key) ==> web_code_of(key) == Some(code),
{
}

/// Two web codes that give the same key are the same code.
pub proof fn law_web_codes_distinct(a: Seq<char>, b: Seq<char>)
    requires
        web_key_code(a).is_some(),
        web_key_code(a) == web_key_code(b),
    ensures
        a == b,
{
    law_web_codes_name_one_key(a);
    law_web_codes_name_one_key(b);
}

/// `keyboard_code` never gives a key the web has no code for.
pub proof fn law_web_codes_skip_keys_without_code(code: Seq<char>)
    ensures
        web_key_code(code) != Some(KeyCode::Unknown),
        web_key_code(code) != Some(KeyCode::Colon),
        web_key_code(code) != Some(KeyCode::Copy),
        web_key_code(code) != Some(KeyCode::Paste),
        web_key_code(code) != Some(KeyCode::Cut),
{
    law_web_codes_name_one_key(code);
}

/// Maps a web `KeyboardEvent.code` to a key; `None` for codes this layer
/// does not know.
#[verifier::rlimit(50)]
pub fn keyboard_code(code: &str) -> (r: Option<KeyCode>)
    ensures
        r == web_key_code(code@),
{
    if str_eq(code, "Digit1") {
        return Some(KeyCode::Key1);
    }
    if str_eq(code, "Digit2") {
        return Some(KeyCode::Key2);
    }
    if str_eq(code, "Digit3") {
        return Some(KeyCode::Key3);
    }
    if str_eq(code, "Digit4") {
        return Some(KeyCode::Key4);
    }
    if str_eq(code, "Digit5") {
        return Some(KeyCode::Key5);
    }
    if str_eq(code, "Digit6") {
        return Some(KeyCode::Key6);
    }
    if str_eq(code, "Digit7") {
        return Some(KeyCode::Key7);
    }
    if str_eq(code, "Digit8") {
        return Some(KeyCode::Key8);
    }
    if str_eq(code, "Digit9") {
        return Some(KeyCode::Key9);
    }
    if str_eq(code, "Digit0") {
        return Some(KeyCode::Key0);
    }
    if str_eq(code, "KeyA") {
        return Some(KeyCode::A);
    }
    if str_eq(code, "KeyB") {
        return Some(KeyCode::B);
    }
    if str_eq(code, "KeyC") {
        return Some(KeyCode::C);
    }
    if str_eq(code, "KeyD") {
        return Some(KeyCode::D);
    }
    if str_eq(code, "KeyE") {
        return Some(KeyCode::E);
    }
    if str_eq(code, "KeyF") {
        return Some(KeyCode::F);
    }
    if str_eq(code, "KeyG") {
        return Some(KeyCode::G);
    }
    if str_eq(code, "KeyH") {
        return Some(KeyCode::H);
    }
    if str_eq(code, "KeyI") {
        return Some(KeyCode::I);
    }
    if str_eq(code, "KeyJ") {
        return Some(KeyCode::J);
    }
    if str_eq(code, "KeyK") {
        return Some(KeyCode::K);
    }
    if str_eq(code, "KeyL") {
        return Some(KeyCode::L);
    }
    if str_eq(code, "KeyM") {
        return Some(KeyCode::M);
    }
    if str_eq(code, "KeyN") {
        return Some(KeyCode::N);
    }
    if str_eq(code, "KeyO") {
        return Some(KeyCode::O);
    }
    if str_eq(code, "KeyP") {
        return Some(KeyCode::P);
    }
    if str_eq(code, "KeyQ") {
        return Some(KeyCode::Q);
    }
    if str_eq(code, "KeyR") {
        return Some(KeyCode::R);
    }
    if str_eq(code, "KeyS") {
        return Some(KeyCode::S);
    }
    if str_eq(code, "KeyT") {
        return Some(KeyCode::T);
    }
    if str_eq(code, "KeyU") {
        return Some(KeyCode::U);
    }
    if str_eq(code, "KeyV") {
        return Some(KeyCode::V);
    }
    if str_eq(code, "KeyW") {
        return Some(KeyCode::W);
    }
    if str_eq(code, "KeyX") {
        return Some(KeyCode::X);
    }
    if str_eq(code, "KeyY") {
        return Some(KeyCode::Y);
    }
    if str_eq(code, "KeyZ") {
        return Some(KeyCode::Z);
    }
    if str_eq(code, "Escape") {
        return Some(KeyCode::Escape);
    }
    if str_eq(code, "F1") {
        return Some(KeyCode::F1);
    }
    if str_eq(code, "F2") {
        return Some(KeyCode::F2);
    }
    if str_eq(code, "F3") {
        return Some(KeyCode::F3);
    }
    if str_eq(code, "F4") {
        return Some(KeyCode::F4);
    }
    if str_eq(code, "F5") {
        return Some(KeyCode::F5);
    }
    if str_eq(code, "F6") {
        return Some(KeyCode::F6);
    }
    if str_eq(code, "F7") {
        return Some(KeyCode::F7);
    }
    if str_eq(code, "F8") {
        return Some(KeyCode::F8);
    }
    if str_eq(code, "F9") {
        return Some(KeyCode::F9);
    }
    if str_eq(code, "F10") {
        return Some(KeyCode::F10);
    }
    if str_eq(code, "F11") {
        return Some(KeyCode::F11);
    }
    if str_eq(code, "F12") {
        return Some(KeyCode::F12);
    }
    if str_eq(code, "F13") {
        return Some(KeyCode::F13);
    }
    if str_eq(code, "F14") {
        return Some(KeyCode::F14);
    }
    if str_eq(code, "F15") {
        return Some(KeyCode::F15);
    }
    if str_eq(code, "F16") {
        return Some(KeyCode::F16);
    }
    if str_eq(code, "F17") {
        return Some(KeyCode::F17);
    }
    if str_eq(code, "F18") {
        return Some(KeyCode::F18);
    }
    if str_eq(code, "F19") {
        return Some(KeyCode::F19);
    }
    if str_eq(code, "F20") {
        return Some(KeyCode::F20);
    }
    if str_eq(code, "F21") {
        return Some(KeyCode::F21);
    }
    if str_eq(code, "F22") {
        return Some(KeyCode::F22);
    }
    if str_eq(code, "F23") {
        return Some(KeyCode::F23);
    }
    if str_eq(code, "F24") {
        return Some(KeyCode::F24);
    }
    if str_eq(code, "PrintScreen") {
        return Some(KeyCode::Snapshot);
    }
    if str_eq(code, "ScrollLock") {
        return Some(KeyCode::Scroll);
    }
    if str_eq(code, "Pause") {
        return Some(KeyCode::Pause);
    }
    if str_eq(code, "Insert") {
        return Some(KeyCode::Insert);
    }
    if str_eq(code, "Home") {
        return Some(KeyCode::Home);
    }
    if str_eq(code, "Delete") {
        return Some(KeyCode::Delete);
    }
    if str_eq(code, "End") {
        return Some(KeyCode::End);
    }
    if str_eq(code, "PageDown") {
        return Some(KeyCode::PageDown);
    }
    if str_eq(code, "PageUp") {
        return Some(KeyCode::PageUp);
    }
    if str_eq(code, "ArrowLeft") {
        return Some(KeyCode::Left);
    }
    if str_eq(code, "ArrowUp") {
        return Some(KeyCode::Up);
    }
    if str_eq(code, "ArrowRight") {
        return Some(KeyCode::Right);
    }
    if str_eq(code, "ArrowDown") {
        return Some(KeyCode::Down);
    }
    if str_eq(code, "Backspace") {
        return Some(KeyCode::Back);
    }
    if str_eq(code, "Enter") {
        return Some(KeyCode::Return);
    }
    if str_eq(code, "Space") {
        return Some(KeyCode::Space);
    }
    if str_eq(code, "Compose") {
        return Some(KeyCode::Compose);
    }
    if str_eq(code, "Caret") {
        return Some(KeyCode::Caret);
    }
    if str_eq(code, "NumLock") {
        return Some(KeyCode::Numlock);
    }
    if str_eq(code, "Numpad0") {
        return Some(KeyCode::Numpad0);
    }
    if str_eq(code, "Numpad1") {
        return Some(KeyCode::Numpad1);
    }
    if str_eq(code, "Numpad2") {
        return Some(KeyCode::Numpad2);
    }
    if str_eq(code, "Numpad3") {
        return Some(KeyCode::Numpad3);
    }
    if str_eq(code, "Numpad4") {
        return Some(KeyCode::Numpad4);
    }
    if str_eq(code, "Numpad5") {
        return Some(KeyCode::Numpad5);
    }
    if str_eq(code, "Numpad6") {
        return Some(KeyCode::Numpad6);
    }
    if str_eq(code, "Numpad7") {
        return Some(KeyCode::Numpad7);
    }
    if str_eq(code, "Numpad8") {
        return Some(KeyCode::Numpad8);
    }
    if str_eq(code, "Numpad9") {
        return Some(KeyCode::Numpad9);
    }
    if str_eq(code, "AbntC1") {
        return Some(KeyCode::AbntC1);
    }
    if str_eq(code, "AbntC2") {
        return Some(KeyCode::AbntC2);
    }
    if str_eq(code, "NumpadAdd") {
        return Some(KeyCode::Add);
    }
    if str_eq(code, "Quote") {
        return Some(KeyCode::Apostrophe);
    }
    if str_eq(code, "Apps") {
        return Some(KeyCode::Apps);
    }
    if str_eq(code, "At") {
        return Some(KeyCode::At);
    }
    if str_eq(code, "Ax") {
        return Some(KeyCode::Ax);
    }
    if str_eq(code, "Backslash") {
        return Some(KeyCode::Backslash);
    }
    if str_eq(code, "Calculator") {
        return Some(KeyCode::Calculator);
    }
    if str_eq(code, "Capital") {
        return Some(KeyCode::Capital);
    }
    if str_eq(code, "Semicolon") {
        return Some(KeyCode::Semicolon);
    }
    if str_eq(code, "Comma") {
        return Some(KeyCode::Comma);
    }
    if str_eq(code, "Convert") {
        return Some(KeyCode::Convert);
    }
    if str_eq(code, "NumpadDecimal") {
        return Some(KeyCode::Decimal);
    }
    if str_eq(code, "NumpadDivide") {
        return Some(KeyCode::Divide);
    }
    if str_eq(code, "Equal") {
        return Some(KeyCode::Equals);
    }
    if str_eq(code, "Backquote") {
        return Some(KeyCode::Grave);
    }
    if str_eq(code, "Kana") {
        return Some(KeyCode::Kana);
    }
    if str_eq(code, "Kanji") {
        return Some(KeyCode::Kanji);
    }
    if str_eq(code, "AltLeft") {
        return Some(KeyCode::LAlt);
    }
    if str_eq(code, "BracketLeft") {
        return Some(KeyCode::LBracket);
    }
    if str_eq(code, "ControlLeft") {
        return Some(KeyCode::LControl);
    }
    if str_eq(code, "ShiftLeft") {
        return Some(KeyCode::LShift);
    }
    if str_eq(code, "MetaLeft") {
        return Some(KeyCode::LWin);
    }
    if str_eq(code, "Mail") {
        return Some(KeyCode::Mail);
    }
    if str_eq(code, "MediaSelect") {
        return Some(KeyCode::MediaSelect);
    }
    if str_eq(code, "MediaStop") {
        return Some(KeyCode::MediaStop);
    }
    if str_eq(code, "Minus") {
        return Some(KeyCode::Minus);
    }
    if str_eq(code, "NumpadMultiply") {
        return Some(KeyCode::Multiply);
    }
    if str_eq(code, "Mute") {
        return Some(KeyCode::Mute);
    }
    if str_eq(code, "LaunchMyComputer") {
        return Some(KeyCode::MyComputer);
    }
    if str_eq(code, "NavigateForward") {
        return Some(KeyCode::NavigateForward);
    }
    if str_eq(code, "NavigateBackward") {
        return Some(KeyCode::NavigateBackward);
    }
    if str_eq(code, "NextTrack") {
        return Some(KeyCode::NextTrack);
    }
    if str_eq(code, "NoConvert") {
        return Some(KeyCode::NoConvert);
    }
    if str_eq(code, "NumpadComma") {
        return Some(KeyCode::NumpadComma);
    }
    if str_eq(code, "NumpadEnter") {
        return Some(KeyCode::NumpadEnter);
    }
    if str_eq(code, "NumpadEquals") {
        return Some(KeyCode::NumpadEquals);
    }
    if str_eq(code, "OEM102") {
        return Some(KeyCode::OEM102);
    }
    if str_eq(code, "Period") {
        return Some(KeyCode::Period);
    }
    if str_eq(code, "PlayPause") {
        return Some(KeyCode::PlayPause);
    }
    if str_eq(code, "Power") {
        return Some(KeyCode::Power);
    }
    if str_eq(code, "PrevTrack") {
        return Some(KeyCode::PrevTrack);
    }
    if str_eq(code, "AltRight") {
        return Some(KeyCode::RAlt);
    }
    if str_eq(code, "BracketRight") {
        return Some(KeyCode::RBracket);
    }
    if str_eq(code, "ControlRight") {
        return Some(KeyCode::RControl);
    }
    if str_eq(code, "ShiftRight") {
        return Some(KeyCode::RShift);
    }
    if str_eq(code, "MetaRight") {
        return Some(KeyCode::RWin);
    }
    if str_eq(code, "Slash") {
        return Some(KeyCode::Slash);
    }
    if str_eq(code, "Sleep") {
        return Some(KeyCode::Sleep);
    }
    if str_eq(code, "Stop") {
        return Some(KeyCode::Stop);
    }
    if str_eq(code, "NumpadSubtract") {
        return Some(KeyCode::Subtract);
    }
    if str_eq(code, "Sysrq") {
        return Some(KeyCode::Sysrq);
    }
    if str_eq(code, "Tab") {
        return Some(KeyCode::Tab);
    }
    if str_eq(code, "Underline") {
        return Some(KeyCode::Underline);
    }
    if str_eq(code, "Unlabeled") {
        return Some(KeyCode::Unlabeled);
    }
    if str_eq(code, "AudioVolumeDown") {
        return Some(KeyCode::VolumeDown);
    }
    if str_eq(code, "AudioVolumeUp") {
        return Some(KeyCode::VolumeUp);
    }
    if str_eq(code, "Wake") {
        return Some(KeyCode::Wake);
    }
    if str_eq(code, "WebBack") {
        return Some(KeyCode::WebBack);
    }
    if str_eq(code, "WebFavorites") {
        return Some(KeyCode::WebFavorites);
    }
    if str_eq(code, "WebForward") {
        return Some(KeyCode::WebForward);
    }
    if str_eq(code, "WebHome") {
        return Some(KeyCode::WebHome);
    }
    if str_eq(code, "WebRefresh") {
        return Some(KeyCode::WebRefresh);
    }
    if str_eq(code, "WebSearch") {
        return Some(KeyCode::WebSearch);
    }
    if str_eq(code, "WebStop") {
        return Some(KeyCode::WebStop);
    }
    if str_eq(code, "Yen") {
        return Some(KeyCode::Yen);
    }
    None
}

/// The button named by a web `MouseEvent.button` number: `0`, `1` and `2`
/// are the left, middle and right buttons; any other number `n` is
/// `Other(n as u8)`.
pub open spec fn web_mouse_button(btn: i16) -> MouseButton {
    if btn == 0 {
        MouseButton::Left
    } else if btn == 1 {
        MouseButton::Middle
    } else if btn == 2 {
        MouseButton::Right
    } else {
        MouseButton::Other(btn as u8)
    }
}

/// Maps a web `MouseEvent.button` number to a mouse button.
pub fn mouse_button_to_nae(btn: i16) -> (r: MouseButton)
    ensures
        r == web_mouse_button(btn),
{
    match btn {
        0 => MouseButton::Left,
        1 => MouseButton::Middle,
        2 => MouseButton::Right,
        n => MouseButton::Other(n as u8),
    }
}

spec fn web_codes_spelled_0() -> bool {
    &&& "Digit1"@.len() == 6
    &&& "Digit1"@[0] == 'D'
    &&& "Digit1"@[1] == 'i'
    &&& "Digit1"@[2] == 'g'
    &&& "Digit1"@[3] == 'i'
    &&& "Digit1"@[4] == 't'
    &&& "Digit1"@[5] == '1'
    &&& "Digit2"@.len() == 6
    &&& "Digit2"@[0] == 'D'
    &&& "Digit2"@[1] == 'i'
    &&& "Digit2"@[2] == 'g'
    &&& "Digit2"@[3] == 'i'
    &&& "Digit2"@[4] == 't'
    &&& "Digit2"@[5] == '2'
    &&& "Digit3"@.len() == 6
    &&& "Digit3"@[0] == 'D'
    &&& "Digit3"@[1] == 'i'
    &&& "Digit3"@[2] == 'g'
    &&& "Digit3"@[3] == 'i'
    &&& "Digit3"@[4] == 't'
    &&& "Digit3"@[5] == '3'
    &&& "Digit4"@.len() == 6
    &&& "Digit4"@[0] == 'D'
    &&& "Digit4"@[1] == 'i'
    &&& "Digit4"@[2] == 'g'
    &&& "Digit4"@[3] == 'i'
    &&& "Digit4"@[4] == 't'
    &&& "Digit4"@[5] == '4'
    &&& "Digit5"@.len() == 6
    &&& "Digit5"@[0] == 'D'
    &&& "Digit5"@[1] == 'i'
    &&& "Digit5"@[2] == 'g'
    &&& "Digit5"@[3] == 'i'
    &&& "Digit5"@[4] == 't'
    &&& "Digit5"@[5] == '5'
    &&& "Digit6"@.len() == 6
    &&& "Digit6"@[0] == 'D'
    &&& "Digit6"@[1] == 'i'
    &&& "Digit6"@[2] == 'g'
    &&& "Digit6"@[3] == 'i'
    &&& "Digit6"@[4] == 't'
    &&& "Digit6"@[5] == '6'
    &&& "Digit7"@.len() == 6
    &&& "Digit7"@[0] == 'D'
    &&& "Digit7"@[1] == 'i'
    &&& "Digit7"@[2] == 'g'
    &&& "Digit7"@[3] == 'i'
    &&& "Digit7"@[4] == 't'
    &&& "Digit7"@[5] == '7'
    &&& "Digit8"@.len() == 6
    &&& "Digit8"@[0] == 'D'
    &&& "Digit8"@[1] == 'i'
    &&& "Digit8"@[2] == 'g'
    &&& "Digit8"@[3] == 'i'
    &&& "Digit8"@[4] == 't'
    &&& "Digit8"@[5] == '8'
}

proof fn lemma_web_codes_spelled_0()
    ensures
        web_codes_spelled_0(),
{
    reveal_strlit("Digit1");
    reveal_strlit("Digit2");
    reveal_strlit("Digit3");
    reveal_strlit("Digit4");
    reveal_strlit("Digit5");
    reveal_strlit("Digit6");
    reveal_strlit("Digit7");
    reveal_strlit("Digit8");
}

spec fn web_codes_spelled_1() -> bool {
    &&& "Digit9"@.len() == 6
    &&& "Digit9"@[0] == 'D'
    &&& "Digit9"@[1] == 'i'
    &&& "Digit9"@[2] == 'g'
    &&& "Digit9"@[3] == 'i'
    &&& "Digit9"@[4] == 't'
    &&& "Digit9"@[5] == '9'
    &&& "Digit0"@.len() == 6
    &&& "Digit0"@[0] == 'D'
    &&& "Digit0"@[1] == 'i'
    &&& "Digit0"@[2] == 'g'
    &&& "Digit0"@[3] == 'i'
    &&& "Digit0"@[4] == 't'
    &&& "Digit0"@[5] == '0'
    &&& "KeyA"@.len() == 4
    &&& "KeyA"@[0] == 'K'
    &&& "KeyA"@[1] == 'e'
    &&& "KeyA"@[2] == 'y'
    &&& "KeyA"@[3] == 'A'
    &&& "KeyB"@.len() == 4
    &&& "KeyB"@[0] == 'K'
    &&& "KeyB"@[1] == 'e'
    &&& "KeyB"@[2] == 'y'
    &&& "KeyB"@[3] == 'B'
    &&& "KeyC"@.len() == 4
    &&& "KeyC"@[0] == 'K'
    &&& "KeyC"@[1] == 'e'
    &&& "KeyC"@[2] == 'y'
    &&& "KeyC"@[3] == 'C'
    &&& "KeyD"@.len() == 4
    &&& "KeyD"@[0] == 'K'
    &&& "KeyD"@[1] == 'e'
    &&& "KeyD"@[2] == 'y'
    &&& "KeyD"@[3] == 'D'
    &&& "KeyE"@.len() == 4
    &&& "KeyE"@[0] == 'K'
    &&& "KeyE"@[1] == 'e'
    &&& "KeyE"@[2] == 'y'
    &&& "KeyE"@[3] == 'E'
    &&& "KeyF"@.len() == 4
    &&& "KeyF"@[0] == 'K'
    &&& "KeyF"@[1] == 'e'
    &&& "KeyF"@[2] == 'y'
    &&& "KeyF"@[3] == 'F'
}

proof fn lemma_web_codes_spelled_1()
    ensures
        web_codes_spelled_1(),
{
    reveal_strlit("Digit9");
    reveal_strlit("Digit0");
    reveal_strlit("KeyA");
    reveal_strlit("KeyB");
    reveal_strlit("KeyC");
    reveal_strlit("KeyD");
    reveal_strlit("KeyE");
    reveal_strlit("KeyF");
}

spec fn web_codes_spelled_2() -> bool {
    &&& "KeyG"@.len() == 4
    &&& "KeyG"@[0] == 'K'
    &&& "KeyG"@[1] == 'e'
    &&& "KeyG"@[2] == 'y'
    &&& "KeyG"@[3] == 'G'
    &&& "KeyH"@.len() == 4
    &&& "KeyH"@[0] == 'K'
    &&& "KeyH"@[1] == 'e'
    &&& "KeyH"@[2] == 'y'
    &&& "KeyH"@[3] == 'H'
    &&& "KeyI"@.len() == 4
    &&& "KeyI"@[0] == 'K'
    &&& "KeyI"@[1] == 'e'
    &&& "KeyI"@[2] == 'y'
    &&& "KeyI"@[3] == 'I'
    &&& "KeyJ"@.len() == 4
    &&& "KeyJ"@[0] == 'K'
    &&& "KeyJ"@[1] == 'e'
    &&& "KeyJ"@[2] == 'y'
    &&& "KeyJ"@[3] == 'J'
    &&& "KeyK"@.len() == 4
    &&& "KeyK"@[0] == 'K'
    &&& "KeyK"@[1] == 'e'
    &&& "KeyK"@[2] == 'y'
    &&& "KeyK"@[3] == 'K'
    &&& "KeyL"@.len() == 4
    &&& "KeyL"@[0] == 'K'
    &&& "KeyL"@[1] == 'e'
    &&& "KeyL"@[2] == 'y'
    &&& "KeyL"@[3] == 'L'
    &&& "KeyM"@.len() == 4
    &&& "KeyM"@[0] == 'K'
    &&& "KeyM"@[1] == 'e'
    &&& "KeyM"@[2] == 'y'
    &&& "KeyM"@[3] == 'M'
    &&& "KeyN"@.len() == 4
    &&& "KeyN"@[0] == 'K'
    &&& "KeyN"@[1] == 'e'
    &&& "KeyN"@[2] == 'y'
    &&& "KeyN"@[3] == 'N'
}

proof fn lemma_web_codes_spelled_2()
    ensures
        web_codes_spelled_2(),
{
    reveal_strlit("KeyG");
    reveal_strlit("KeyH");
    reveal_strlit("KeyI");
    reveal_strlit("KeyJ");
    reveal_strlit("KeyK");
    reveal_strlit("KeyL");
    reveal_strlit("KeyM");
    reveal_strlit("KeyN");
}

spec fn web_codes_spelled_3() -> bool {
    &&& "KeyO"@.len() == 4
    &&& "KeyO"@[0] == 'K'
    &&& "KeyO"@[1] == 'e'
    &&& "KeyO"@[2] == 'y'
    &&& "KeyO"@[3] == 'O'
    &&& "KeyP"@.len() == 4
    &&& "KeyP"@[0] == 'K'
    &&& "KeyP"@[1] == 'e'
    &&& "KeyP"@[2] == 'y'
    &&& "KeyP"@[3] == 'P'
    &&& "KeyQ"@.len() == 4
    &&& "KeyQ"@[0] == 'K'
    &&& "KeyQ"@[1] == 'e'
    &&& "KeyQ"@[2] == 'y'
    &&& "KeyQ"@[3] == 'Q'
    &&& "KeyR"@.len() == 4
    &&& "KeyR"@[0] == 'K'
    &&& "KeyR"@[1] == 'e'
    &&& "KeyR"@[2] == 'y'
    &&& "KeyR"@[3] == 'R'
    &&& "KeyS"@.len() == 4
    &&& "KeyS"@[0] == 'K'
    &&& "KeyS"@[1] == 'e'
    &&& "KeyS"@[2] == 'y'
    &&& "KeyS"@[3] == 'S'
    &&& "KeyT"@.len() == 4
    &&& "KeyT"@[0] == 'K'
    &&& "KeyT"@[1] == 'e'
    &&& "KeyT"@[2] == 'y'
    &&& "KeyT"@[3] == 'T'
    &&& "KeyU"@.len() == 4
    &&& "KeyU"@[0] == 'K'
    &&& "KeyU"@[1] == 'e'
    &&& "KeyU"@[2] == 'y'
    &&& "KeyU"@[3] == 'U'
    &&& "KeyV"@.len() == 4
    &&& "KeyV"@[0] == 'K'
    &&& "KeyV"@[1] == 'e'
    &&& "KeyV"@[2] == 'y'
    &&& "KeyV"@[3] == 'V'
}

proof fn lemma_web_codes_spelled_3()
    ensures
        web_codes_spelled_3(),
{
    reveal_strlit("KeyO");
    reveal_strlit("KeyP");
    reveal_strlit("KeyQ");
    reveal_strlit("KeyR");
    reveal_strlit("KeyS");
    reveal_strlit("KeyT");
    reveal_strlit("KeyU");
    reveal_strlit("KeyV");
}

spec fn web_codes_spelled_4() -> bool {
    &&& "KeyW"@.len() == 4
    &&& "KeyW"@[0] == 'K'
    &&& "KeyW"@[1] == 'e'
    &&& "KeyW"@[2] == 'y'
    &&& "KeyW"@[3] == 'W'
    &&& "KeyX"@.len() == 4
    &&& "KeyX"@[0] == 'K'
    &&& "KeyX"@[1] == 'e'
    &&& "KeyX"@[2] == 'y'
    &&& "KeyX"@[3] == 'X'
    &&& "KeyY"@.len() == 4
    &&& "KeyY"@[0] == 'K'
    &&& "KeyY"@[1] == 'e'
    &&& "KeyY"@[2] == 'y'
    &&& "KeyY"@[3] == 'Y'
    &&& "KeyZ"@.len() == 4
    &&& "KeyZ"@[0] == 'K'
    &&& "KeyZ"@[1] == 'e'
    &&& "KeyZ"@[2] == 'y'
    &&& "KeyZ"@[3] == 'Z'
    &&& "Escape"@.len() == 6
    &&& "Escape"@[0] == 'E'
    &&& "Escape"@[1] == 's'
    &&& "Escape"@[2] == 'c'
    &&& "Escape"@[3] == 'a'
    &&& "Escape"@[4] == 'p'
    &&& "Escape"@[5] == 'e'
    &&& "F1"@.len() == 2
    &&& "F1"@[0] == 'F'
    &&& "F1"@[1] == '1'
    &&& "F2"@.len() == 2
    &&& "F2"@[0] == 'F'
    &&& "F2"@[1] == '2'
    &&& "F3"@.len() == 2
    &&& "F3"@[0] == 'F'
    &&& "F3"@[1] == '3'
}

proof fn lemma_web_codes_spelled_4()
    ensures
        web_codes_spelled_4(),
{
    reveal_strlit("KeyW");
    reveal_strlit("KeyX");
    reveal_strlit("KeyY");
    reveal_strlit("KeyZ");
    reveal_strlit("Escape");
    reveal_strlit("F1");
    reveal_strlit("F2");
    reveal_strlit("F3");
}

spec fn web_codes_spelled_5() -> bool {
    &&& "F4"@.len() == 2
    &&& "F4"@[0] == 'F'
    &&& "F4"@[1] == '4'
    &&& "F5"@.len() == 2
    &&& "F5"@[0] == 'F'
    &&& "F5"@[1] == '5'
    &&& "F6"@.len() == 2
    &&& "F6"@[0] == 'F'
    &&& "F6"@[1] == '6'
    &&& "F7"@.len() == 2
    &&& "F7"@[0] == 'F'
    &&& "F7"@[1] == '7'
    &&& "F8"@.len() == 2
    &&& "F8"@[0] == 'F'
    &&& "F8"@[1] == '8'
    &&& "F9"@.len() == 2
    &&& "F9"@[0] == 'F'
    &&& "F9"@[1] == '9'
    &&& "F10"@.len() == 3
    &&& "F10"@[0] == 'F'
    &&& "F10"@[1] == '1'
    &&& "F10"@[2] == '0'
    &&& "F11"@.len() == 3
    &&& "F11"@[0] == 'F'
    &&& "F11"@[1] == '1'
    &&& "F11"@[2] == '1'
}

proof fn lemma_web_codes_spelled_5()
    ensures
        web_codes_spelled_5(),
{
    reveal_strlit("F4");
    reveal_strlit("F5");
    reveal_strlit("F6");
    reveal_strlit("F7");
    reveal_strlit("F8");
    reveal_strlit("F9");
    reveal_strlit("F10");
    reveal_strlit("F11");
}

spec fn web_codes_spelled_6() -> bool {
    &&& "F12"@.len() == 3
    &&& "F12"@[0] == 'F'
    &&& "F12"@[1] == '1'
    &&& "F12"@[2] == '2'
    &&& "F13"@.len() == 3
    &&& "F13"@[0] == 'F'
    &&& "F13"@[1] == '1'
    &&& "F13"@[2] == '3'
    &&& "F14"@.len() == 3
    &&& "F14"@[0] == 'F'
    &&& "F14"@[1] == '1'
    &&& "F14"@[2] == '4'
    &&& "F15"@.len() == 3
    &&& "F15"@[0] == 'F'
    &&& "F15"@[1] == '1'
    &&& "F15"@[2] == '5'
    &&& "F16"@.len() == 3
    &&& "F16"@[0] == 'F'
    &&& "F16"@[1] == '1'
    &&& "F16"@[2] == '6'
    &&& "F17"@.len() == 3
    &&& "F17"@[0] == 'F'
    &&& "F17"@[1] == '1'
    &&& "F17"@[2] == '7'
    &&& "F18"@.len() == 3
    &&& "F18"@[0] == 'F'
    &&& "F18"@[1] == '1'
    &&& "F18"@[2] == '8'
    &&& "F19"@.len() == 3
    &&& "F19"@[0] == 'F'
    &&& "F19"@[1] == '1'
    &&& "F19"@[2] == '9'
}

proof fn lemma_web_codes_spelled_6()
    ensures
        web_codes_spelled_6(),
{
    reveal_strlit("F12");
    reveal_strlit("F13");
    reveal_strlit("F14");
    reveal_strlit("F15");
    reveal_strlit("F16");
    reveal_strlit("F17");
    reveal_strlit("F18");
    reveal_strlit("F19");
}

spec fn web_codes_spelled_7() -> bool {
    &&& "F20"@.len() == 3
    &&& "F20"@[0] == 'F'
    &&& "F20"@[1] == '2'
    &&& "F20"@[2] == '0'
    &&& "F21"@.len() == 3
    &&& "F21"@[0] == 'F'
    &&& "F21"@[1] == '2'
    &&& "F21"@[2] == '1'
    &&& "F22"@.len() == 3
    &&& "F22"@[0] == 'F'
    &&& "F22"@[1] == '2'
    &&& "F22"@[2] == '2'
    &&& "F23"@.len() == 3
    &&& "F23"@[0] == 'F'
    &&& "F23"@[1] == '2'
    &&& "F23"@[2] == '3'
    &&& "F24"@.len() == 3
    &&& "F24"@[0] == 'F'
    &&& "F24"@[1] == '2'
    &&& "F24"@[2] == '4'
    &&& "PrintScreen"@.len() == 11
    &&& "PrintScreen"@[0] == 'P'
    &&& "PrintScreen"@[1] == 'r'
    &&& "PrintScreen"@[2] == 'i'
    &&& "PrintScreen"@[3] == 'n'
    &&& "PrintScreen"@[4] == 't'
    &&& "PrintScreen"@[5] == 'S'
    &&& "PrintScreen"@[6] == 'c'
    &&& "PrintScreen"@[7] == 'r'
    &&& "PrintScreen"@[8] == 'e'
    &&& "PrintScreen"@[9] == 'e'
    &&& "PrintScreen"@[10] == 'n'
    &&& "ScrollLock"@.len() == 10
    &&& "ScrollLock"@[0] == 'S'
    &&& "ScrollLock"@[1] == 'c'
    &&& "ScrollLock"@[2] == 'r'
    &&& "ScrollLock"@[3] == 'o'
    &&& "ScrollLock"@[4] == 'l'
    &&& "ScrollLock"@[5] == 'l'
    &&& "ScrollLock"@[6] == 'L'
    &&& "ScrollLock"@[7] == 'o'
    &&& "ScrollLock"@[8] == 'c'
    &&& "ScrollLock"@[9] == 'k'
    &&& "Pause"@.len() == 5
    &&& "Pause"@[0] == 'P'
    &&& "Pause"@[1] == 'a'
    &&& "Pause"@[2] == 'u'
    &&& "Pause"@[3] == 's'
    &&& "Pause"@[4] == 'e'
}

proof fn lemma_web_codes_spelled_7()
    ensures
        web_codes_spelled_7(),
{
    reveal_strlit("F20");
    reveal_strlit("F21");
    reveal_strlit("F22");
    reveal_strlit("F23");
    reveal_strlit("F24");
    reveal_strlit("PrintScreen");
    reveal_strlit("ScrollLock");
    reveal_strlit("Pause");
}

spec fn web_codes_spelled_8() -> bool {
    &&& "Insert"@.len() == 6
    &&& "Insert"@[0] == 'I'
    &&& "Insert"@[1] == 'n'
    &&& "Insert"@[2] == 's'
    &&& "Insert"@[3] == 'e'
    &&& "Insert"@[4] == 'r'
    &&& "Insert"@[5] == 't'
    &&& "Home"@.len() == 4
    &&& "Home"@[0] == 'H'
    &&& "Home"@[1] == 'o'
    &&& "Home"@[2] == 'm'
    &&& "Home"@[3] == 'e'
    &&& "Delete"@.len() == 6
    &&& "Delete"@[0] == 'D'
    &&& "Delete"@[1] == 'e'
    &&& "Delete"@[2] == 'l'
    &&& "Delete"@[3] == 'e'
    &&& "Delete"@[4] == 't'
    &&& "Delete"@[5] == 'e'
    &&& "End"@.len() == 3
    &&& "End"@[0] == 'E'
    &&& "End"@[1] == 'n'
    &&& "End"@[2] == 'd'
    &&& "PageDown"@.len() == 8
    &&& "PageDown"@[0] == 'P'
    &&& "PageDown"@[1] == 'a'
    &&& "PageDown"@[2] == 'g'
    &&& "PageDown"@[3] == 'e'
    &&& "PageDown"@[4] == 'D'
    &&& "PageDown"@[5] == 'o'
    &&& "PageDown"@[6] == 'w'
    &&& "PageDown"@[7] == 'n'
    &&& "PageUp"@.len() == 6
    &&& "PageUp"@[0] == 'P'
    &&& "PageUp"@[1] == 'a'
    &&& "PageUp"@[2] == 'g'
    &&& "PageUp"@[3] == 'e'
    &&& "PageUp"@[4] == 'U'
    &&& "PageUp"@[5] == 'p'
    &&& "ArrowLeft"@.len() == 9
    &&& "ArrowLeft"@[0] == 'A'
    &&& "ArrowLeft"@[1] == 'r'
    &&& "ArrowLeft"@[2] == 'r'
    &&& "ArrowLeft"@[3] == 'o'
    &&& "ArrowLeft"@[4] == 'w'
    &&& "ArrowLeft"@[5] == 'L'
    &&& "ArrowLeft"@[6] == 'e'
    &&& "ArrowLeft"@[7] == 'f'
    &&& "ArrowLeft"@[8] == 't'
    &&& "ArrowUp"@.len() == 7
    &&& "ArrowUp"@[0] == 'A'
    &&& "ArrowUp"@[1] == 'r'
    &&& "ArrowUp"@[2] == 'r'
    &&& "ArrowUp"@[3] == 'o'
    &&& "ArrowUp"@[4] == 'w'
    &&& "ArrowUp"@[5] == 'U'
    &&& "ArrowUp"@[6] == 'p'
}

proof fn lemma_web_codes_spelled_8()
    ensures
        web_codes_spelled_8(),
{
    reveal_strlit("Insert");
    reveal_strlit("Home");
    reveal_strlit("Delete");
    reveal_strlit("End");
    reveal_strlit("PageDown");
    reveal_strlit("PageUp");
    reveal_strlit("ArrowLeft");
    reveal_strlit("ArrowUp");
}

spec fn web_codes_spelled_9() -> bool {
    &&& "ArrowRight"@.len() == 10
    &&& "ArrowRight"@[0] == 'A'
    &&& "ArrowRight"@[1] == 'r'
    &&& "ArrowRight"@[2] == 'r'
    &&& "ArrowRight"@[3] == 'o'
    &&& "ArrowRight"@[4] == 'w'
    &&& "ArrowRight"@[5] == 'R'
    &&& "ArrowRight"@[6] == 'i'
    &&& "ArrowRight"@[7] == 'g'
    &&& "ArrowRight"@[8] == 'h'
    &&& "ArrowRight"@[9] == 't'
    &&& "ArrowDown"@.len() == 9
    &&& "ArrowDown"@[0] == 'A'
    &&& "ArrowDown"@[1] == 'r'
    &&& "ArrowDown"@[2] == 'r'
    &&& "ArrowDown"@[3] == 'o'
    &&& "ArrowDown"@[4] == 'w'
    &&& "ArrowDown"@[5] == 'D'
    &&& "ArrowDown"@[6] == 'o'
    &&& "ArrowDown"@[7] == 'w'
    &&& "ArrowDown"@[8] == 'n'
    &&& "Backspace"@.len() == 9
    &&& "Backspace"@[0] == 'B'
    &&& "Backspace"@[1] == 'a'
    &&& "Backspace"@[2] == 'c'
    &&& "Backspace"@[3] == 'k'
    &&& "Backspace"@[4] == 's'
    &&& "Backspace"@[5] == 'p'
    &&& "Backspace"@[6] == 'a'
    &&& "Backspace"@[7] == 'c'
    &&& "Backspace"@[8] == 'e'
    &&& "Enter"@.len() == 5
    &&& "Enter"@[0] == 'E'
    &&& "Enter"@[1] == 'n'
    &&& "Enter"@[2] == 't'
    &&& "Enter"@[3] == 'e'
    &&& "Enter"@[4] == 'r'
    &&& "Space"@.len() == 5
    &&& "Space"@[0] == 'S'
    &&& "Space"@[1] == 'p'
    &&& "Space"@[2] == 'a'
    &&& "Space"@[3] == 'c'
    &&& "Space"@[4] == 'e'
    &&& "Compose"@.len() == 7
    &&& "Compose"@[0] == 'C'
    &&& "Compose"@[1] == 'o'
    &&& "Compose"@[2] == 'm'
    &&& "Compose"@[3] == 'p'
    &&& "Compose"@[4] == 'o'
    &&& "Compose"@[5] == 's'
    &&& "Compose"@[6] == 'e'
    &&& "Caret"@.len() == 5
    &&& "Caret"@[0] == 'C'
    &&& "Caret"@[1] == 'a'
    &&& "Caret"@[2] == 'r'
    &&& "Caret"@[3] == 'e'
    &&& "Caret"@[4] == 't'
    &&& "NumLock"@.len() == 7
    &&& "NumLock"@[0] == 'N'
    &&& "NumLock"@[1] == 'u'
    &&& "NumLock"@[2] == 'm'
    &&& "NumLock"@[3] == 'L'
    &&& "NumLock"@[4] == 'o'
    &&& "NumLock"@[5] == 'c'
    &&& "NumLock"@[6] == 'k'
}

proof fn lemma_web_codes_spelled_9()
    ensures
        web_codes_spelled_9(),
{
    reveal_strlit("ArrowRight");
    reveal_strlit("ArrowDown");
    reveal_strlit("Backspace");
    reveal_strlit("Enter");
    reveal_strlit("Space");
    reveal_strlit("Compose");
    reveal_strlit("Caret");
    reveal_strlit("NumLock");
}

spec fn web_codes_spelled_10() -> bool {
    &&& "Numpad0"@.len() == 7
    &&& "Numpad0"@[0] == 'N'
    &&& "Numpad0"@[1] == 'u'
    &&& "Numpad0"@[2] == 'm'
    &&& "Numpad0"@[3] == 'p'
    &&& "Numpad0"@[4] == 'a'
    &&& "Numpad0"@[5] == 'd'
    &&& "Numpad0"@[6] == '0'
    &&& "Numpad1"@.len() == 7
    &&& "Numpad1"@[0] == 'N'
    &&& "Numpad1"@[1] == 'u'
    &&& "Numpad1"@[2] == 'm'
    &&& "Numpad1"@[3] == 'p'
    &&& "Numpad1"@[4] == 'a'
    &&& "Numpad1"@[5] == 'd'
    &&& "Numpad1"@[6] == '1'
    &&& "Numpad2"@.len() == 7
    &&& "Numpad2"@[0] == 'N'
    &&& "Numpad2"@[1] == 'u'
    &&& "Numpad2"@[2] == 'm'
    &&& "Numpad2"@[3] == 'p'
    &&& "Numpad2"@[4] == 'a'
    &&& "Numpad2"@[5] == 'd'
    &&& "Numpad2"@[6] == '2'
    &&& "Numpad3"@.len() == 7
    &&& "Numpad3"@[0] == 'N'
    &&& "Numpad3"@[1] == 'u'
    &&& "Numpad3"@[2] == 'm'
    &&& "Numpad3"@[3] == 'p'
    &&& "Numpad3"@[4] == 'a'
    &&& "Numpad3"@[5] == 'd'
    &&& "Numpad3"@[6] == '3'
    &&& "Numpad4"@.len() == 7
    &&& "Numpad4"@[0] == 'N'
    &&& "Numpad4"@[1] == 'u'
    &&& "Numpad4"@[2] == 'm'
    &&& "Numpad4"@[3] == 'p'
    &&& "Numpad4"@[4] == 'a'
    &&& "Numpad4"@[5] == 'd'
    &&& "Numpad4"@[6] == '4'
    &&& "Numpad5"@.len() == 7
    &&& "Numpad5"@[0] == 'N'
    &&& "Numpad5"@[1] == 'u'
    &&& "Numpad5"@[2] == 'm'
    &&& "Numpad5"@[3] == 'p'
    &&& "Numpad5"@[4] == 'a'
    &&& "Numpad5"@[5] == 'd'
    &&& "Numpad5"@[6] == '5'
    &&& "Numpad6"@.len() == 7
    &&& "Numpad6"@[0] == 'N'
    &&& "Numpad6"@[1] == 'u'
    &&& "Numpad6"@[2] == 'm'
    &&& "Numpad6"@[3] == 'p'
    &&& "Numpad6"@[4] == 'a'
    &&& "Numpad6"@[5] == 'd'
    &&& "Numpad6"@[6] == '6'
    &&& "Numpad7"@.len() == 7
    &&& "Numpad7"@[0] == 'N'
    &&& "Numpad7"@[1] == 'u'
    &&& "Numpad7"@[2] == 'm'
    &&& "Numpad7"@[3] == 'p'
    &&& "Numpad7"@[4] == 'a'
    &&& "Numpad7"@[5] == 'd'
    &&& "Numpad7"@[6] == '7'
}

proof fn lemma_web_codes_spelled_10()
    ensures
        web_codes_spelled_10(),
{
    reveal_strlit("Numpad0");
    reveal_strlit("Numpad1");
    reveal_strlit("Numpad2");
    reveal_strlit("Numpad3");
    reveal_strlit("Numpad4");
    reveal_strlit("Numpad5");
    reveal_strlit("Numpad6");
    reveal_strlit("Numpad7");
}

spec fn web_codes_spelled_11() -> bool {
    &&& "Numpad8"@.len() == 7
    &&& "Numpad8"@[0] == 'N'
    &&& "Numpad8"@[1] == 'u'
    &&& "Numpad8"@[2] == 'm'
    &&& "Numpad8"@[3] == 'p'
    &&& "Numpad8"@[4] == 'a'
    &&& "Numpad8"@[5] == 'd'
    &&& "Numpad8"@[6] == '8'
    &&& "Numpad9"@.len() == 7
    &&& "Numpad9"@[0] == 'N'
    &&& "Numpad9"@[1] == 'u'
    &&& "Numpad9"@[2] == 'm'
    &&& "Numpad9"@[3] == 'p'
    &&& "Numpad9"@[4] == 'a'
    &&& "Numpad9"@[5] == 'd'
    &&& "Numpad9"@[6] == '9'
    &&& "AbntC1"@.len() == 6
    &&& "AbntC1"@[0] == 'A'
    &&& "AbntC1"@[1] == 'b'
    &&& "AbntC1"@[2] == 'n'
    &&& "AbntC1"@[3] == 't'
    &&& "AbntC1"@[4] == 'C'
    &&& "AbntC1"@[5] == '1'
    &&& "AbntC2"@.len() == 6
    &&& "AbntC2"@[0] == 'A'
    &&& "AbntC2"@[1] == 'b'
    &&& "AbntC2"@[2] == 'n'
    &&& "AbntC2"@[3] == 't'
    &&& "AbntC2"@[4] == 'C'
    &&& "AbntC2"@[5] == '2'
    &&& "NumpadAdd"@.len() == 9
    &&& "NumpadAdd"@[0] == 'N'
    &&& "NumpadAdd"@[1] == 'u'
    &&& "NumpadAdd"@[2] == 'm'
    &&& "NumpadAdd"@[3] == 'p'
    &&& "NumpadAdd"@[4] == 'a'
    &&& "NumpadAdd"@[5] == 'd'
    &&& "NumpadAdd"@[6] == 'A'
    &&& "NumpadAdd"@[7] == 'd'
    &&& "NumpadAdd"@[8] == 'd'
    &&& "Quote"@.len() == 5
    &&& "Quote"@[0] == 'Q'
    &&& "Quote"@[1] == 'u'
    &&& "Quote"@[2] == 'o'
    &&& "Quote"@[3] == 't'
    &&& "Quote"@[4] == 'e'
    &&& "Apps"@.len() == 4
    &&& "Apps"@[0] == 'A'
    &&& "Apps"@[1] == 'p'
    &&& "Apps"@[2] == 'p'
    &&& "Apps"@[3] == 's'
    &&& "At"@.len() == 2
    &&& "At"@[0] == 'A'
    &&& "At"@[1] == 't'
}

proof fn lemma_web_codes_spelled_11()
    ensures
        web_codes_spelled_11(),
{
    reveal_strlit("Numpad8");
    reveal_strlit("Numpad9");
    reveal_strlit("AbntC1");
    reveal_strlit("AbntC2");
    reveal_strlit("NumpadAdd");
    reveal_strlit("Quote");
    reveal_strlit("Apps");
    reveal_strlit("At");
}

spec fn web_codes_spelled_12() -> bool {
    &&& "Ax"@.len() == 2
    &&& "Ax"@[0] == 'A'
    &&& "Ax"@[1] == 'x'
    &&& "Backslash"@.len() == 9
    &&& "Backslash"@[0] == 'B'
    &&& "Backslash"@[1] == 'a'
    &&& "Backslash"@[2] == 'c'
    &&& "Backslash"@[3] == 'k'
    &&& "Backslash"@[4] == 's'
    &&& "Backslash"@[5] == 'l'
    &&& "Backslash"@[6] == 'a'
    &&& "Backslash"@[7] == 's'
    &&& "Backslash"@[8] == 'h'
    &&& "Calculator"@.len() == 10
    &&& "Calculator"@[0] == 'C'
    &&& "Calculator"@[1] == 'a'
    &&& "Calculator"@[2] == 'l'
    &&& "Calculator"@[3] == 'c'
    &&& "Calculator"@[4] == 'u'
    &&& "Calculator"@[5] == 'l'
    &&& "Calculator"@[6] == 'a'
    &&& "Calculator"@[7] == 't'
    &&& "Calculator"@[8] == 'o'
    &&& "Calculator"@[9] == 'r'
    &&& "Capital"@.len() == 7
    &&& "Capital"@[0] == 'C'
    &&& "Capital"@[1] == 'a'
    &&& "Capital"@[2] == 'p'
    &&& "Capital"@[3] == 'i'
    &&& "Capital"@[4] == 't'
    &&& "Capital"@[5] == 'a'
    &&& "Capital"@[6] == 'l'
    &&& "Semicolon"@.len() == 9
    &&& "Semicolon"@[0] == 'S'
    &&& "Semicolon"@[1] == 'e'
    &&& "Semicolon"@[2] == 'm'
    &&& "Semicolon"@[3] == 'i'
    &&& "Semicolon"@[4] == 'c'
    &&& "Semicolon"@[5] == 'o'
    &&& "Semicolon"@[6] == 'l'
    &&& "Semicolon"@[7] == 'o'
    &&& "Semicolon"@[8] == 'n'
    &&& "Comma"@.len() == 5
    &&& "Comma"@[0] == 'C'
    &&& "Comma"@[1] == 'o'
    &&& "Comma"@[2] == 'm'
    &&& "Comma"@[3] == 'm'
    &&& "Comma"@[4] == 'a'
    &&& "Convert"@.len() == 7
    &&& "Convert"@[0] == 'C'
    &&& "Convert"@[1] == 'o'
    &&& "Convert"@[2] == 'n'
    &&& "Convert"@[3] == 'v'
    &&& "Convert"@[4] == 'e'
    &&& "Convert"@[5] == 'r'
    &&& "Convert"@[6] == 't'
    &&& "NumpadDecimal"@.len() == 13
    &&& "NumpadDecimal"@[0] == 'N'
    &&& "NumpadDecimal"@[1] == 'u'
    &&& "NumpadDecimal"@[2] == 'm'
    &&& "NumpadDecimal"@[3] == 'p'
    &&& "NumpadDecimal"@[4] == 'a'
    &&& "NumpadDecimal"@[5] == 'd'
    &&& "NumpadDecimal"@[6] == 'D'
    &&& "NumpadDecimal"@[7] == 'e'
    &&& "NumpadDecimal"@[8] == 'c'
    &&& "NumpadDecimal"@[9] == 'i'
    &&& "NumpadDecimal"@[10] == 'm'
    &&& "NumpadDecimal"@[11] == 'a'
    &&& "NumpadDecimal"@[12] == 'l'
}

proof fn lemma_web_codes_spelled_12()
    ensures
        web_codes_spelled_12(),
{
    reveal_strlit("Ax");
    reveal_strlit("Backslash");
    reveal_strlit("Calculator");
    reveal_strlit("Capital");
    reveal_strlit("Semicolon");
    reveal_strlit("Comma");
    reveal_strlit("Convert");
    reveal_strlit("NumpadDecimal");
}

spec fn web_codes_spelled_13() -> bool {
    &&& "NumpadDivide"@.len() == 12
    &&& "NumpadDivide"@[0] == 'N'
    &&& "NumpadDivide"@[1] == 'u'
    &&& "NumpadDivide"@[2] == 'm'
    &&& "NumpadDivide"@[3] == 'p'
    &&& "NumpadDivide"@[4] == 'a'
    &&& "NumpadDivide"@[5] == 'd'
    &&& "NumpadDivide"@[6] == 'D'
    &&& "NumpadDivide"@[7] == 'i'
    &&& "NumpadDivide"@[8] == 'v'
    &&& "NumpadDivide"@[9] == 'i'
    &&& "NumpadDivide"@[10] == 'd'
    &&& "NumpadDivide"@[11] == 'e'
    &&& "Equal"@.len() == 5
    &&& "Equal"@[0] == 'E'
    &&& "Equal"@[1] == 'q'
    &&& "Equal"@[2] == 'u'
    &&& "Equal"@[3] == 'a'
    &&& "Equal"@[4] == 'l'
    &&& "Backquote"@.len() == 9
    &&& "Backquote"@[0] == 'B'
    &&& "Backquote"@[1] == 'a'
    &&& "Backquote"@[2] == 'c'
    &&& "Backquote"@[3] == 'k'
    &&& "Backquote"@[4] == 'q'
    &&& "Backquote"@[5] == 'u'
    &&& "Backquote"@[6] == 'o'
    &&& "Backquote"@[7] == 't'
    &&& "Backquote"@[8] == 'e'
    &&& "Kana"@.len() == 4
    &&& "Kana"@[0] == 'K'
    &&& "Kana"@[1] == 'a'
    &&& "Kana"@[2] == 'n'
    &&& "Kana"@[3] == 'a'
    &&& "Kanji"@.len() == 5
    &&& "Kanji"@[0] == 'K'
    &&& "Kanji"@[1] == 'a'
    &&& "Kanji"@[2] == 'n'
    &&& "Kanji"@[3] == 'j'
    &&& "Kanji"@[4] == 'i'
    &&& "AltLeft"@.len() == 7
    &&& "AltLeft"@[0] == 'A'
    &&& "AltLeft"@[1] == 'l'
    &&& "AltLeft"@[2] == 't'
    &&& "AltLeft"@[3] == 'L'
    &&& "AltLeft"@[4] == 'e'
    &&& "AltLeft"@[5] == 'f'
    &&& "AltLeft"@[6] == 't'
    &&& "BracketLeft"@.len() == 11
    &&& "BracketLeft"@[0] == 'B'
    &&& "BracketLeft"@[1] == 'r'
    &&& "BracketLeft"@[2] == 'a'
    &&& "BracketLeft"@[3] == 'c'
    &&& "BracketLeft"@[4] == 'k'
    &&& "BracketLeft"@[5] == 'e'
    &&& "BracketLeft"@[6] == 't'
    &&& "BracketLeft"@[7] == 'L'
    &&& "BracketLeft"@[8] == 'e'
    &&& "BracketLeft"@[9] == 'f'
    &&& "BracketLeft"@[10] == 't'
    &&& "ControlLeft"@.len() == 11
    &&& "ControlLeft"@[0] == 'C'
    &&& "ControlLeft"@[1] == 'o'
    &&& "ControlLeft"@[2] == 'n'
    &&& "ControlLeft"@[3] == 't'
    &&& "ControlLeft"@[4] == 'r'
    &&& "ControlLeft"@[5] == 'o'
    &&& "ControlLeft"@[6] == 'l'
    &&& "ControlLeft"@[7] == 'L'
    &&& "ControlLeft"@[8] == 'e'
    &&& "ControlLeft"@[9] == 'f'
    &&& "ControlLeft"@[10] == 't'
}

proof fn lemma_web_codes_spelled_13()
    ensures
        web_codes_spelled_13(),
{
    reveal_strlit("NumpadDivide");
    reveal_strlit("Equal");
    reveal_strlit("Backquote");
    reveal_strlit("Kana");
    reveal_strlit("Kanji");
    reveal_strlit("AltLeft");
    reveal_strlit("BracketLeft");
    reveal_strlit("ControlLeft");
}

spec fn web_codes_spelled_14() -> bool {
    &&& "ShiftLeft"@.len() == 9
    &&& "ShiftLeft"@[0] == 'S'
    &&& "ShiftLeft"@[1] == 'h'
    &&& "ShiftLeft"@[2] == 'i'
    &&& "ShiftLeft"@[3] == 'f'
    &&& "ShiftLeft"@[4] == 't'
    &&& "ShiftLeft"@[5] == 'L'
    &&& "ShiftLeft"@[6] == 'e'
    &&& "ShiftLeft"@[7] == 'f'
    &&& "ShiftLeft"@[8] == 't'
    &&& "MetaLeft"@.len() == 8
    &&& "MetaLeft"@[0] == 'M'
    &&& "MetaLeft"@[1] == 'e'
    &&& "MetaLeft"@[2] == 't'
    &&& "MetaLeft"@[3] == 'a'
    &&& "MetaLeft"@[4] == 'L'
    &&& "MetaLeft"@[5] == 'e'
    &&& "MetaLeft"@[6] == 'f'
    &&& "MetaLeft"@[7] == 't'
    &&& "Mail"@.len() == 4
    &&& "Mail"@[0] == 'M'
    &&& "Mail"@[1] == 'a'
    &&& "Mail"@[2] == 'i'
    &&& "Mail"@[3] == 'l'
    &&& "MediaSelect"@.len() == 11
    &&& "MediaSelect"@[0] == 'M'
    &&& "MediaSelect"@[1] == 'e'
    &&& "MediaSelect"@[2] == 'd'
    &&& "MediaSelect"@[3] == 'i'
    &&& "MediaSelect"@[4] == 'a'
    &&& "MediaSelect"@[5] == 'S'
    &&& "MediaSelect"@[6] == 'e'
    &&& "MediaSelect"@[7] == 'l'
    &&& "MediaSelect"@[8] == 'e'
    &&& "MediaSelect"@[9] == 'c'
    &&& "MediaSelect"@[10] == 't'
    &&& "MediaStop"@.len() == 9
    &&& "MediaStop"@[0] == 'M'
    &&& "MediaStop"@[1] == 'e'
    &&& "MediaStop"@[2] == 'd'
    &&& "MediaStop"@[3] == 'i'
    &&& "MediaStop"@[4] == 'a'
    &&& "MediaStop"@[5] == 'S'
    &&& "MediaStop"@[6] == 't'
    &&& "MediaStop"@[7] == 'o'
    &&& "MediaStop"@[8] == 'p'
    &&& "Minus"@.len() == 5
    &&& "Minus"@[0] == 'M'
    &&& "Minus"@[1] == 'i'
    &&& "Minus"@[2] == 'n'
    &&& "Minus"@[3] == 'u'
    &&& "Minus"@[4] == 's'
    &&& "NumpadMultiply"@.len() == 14
    &&& "NumpadMultiply"@[0] == 'N'
    &&& "NumpadMultiply"@[1] == 'u'
    &&& "NumpadMultiply"@[2] == 'm'
    &&& "NumpadMultiply"@[3] == 'p'
    &&& "NumpadMultiply"@[4] == 'a'
    &&& "NumpadMultiply"@[5] == 'd'
    &&& "NumpadMultiply"@[6] == 'M'
    &&& "NumpadMultiply"@[7] == 'u'
    &&& "NumpadMultiply"@[8] == 'l'
    &&& "NumpadMultiply"@[9] == 't'
    &&& "NumpadMultiply"@[10] == 'i'
    &&& "NumpadMultiply"@[11] == 'p'
    &&& "NumpadMultiply"@[12] == 'l'
    &&& "NumpadMultiply"@[13] == 'y'
    &&& "Mute"@.len() == 4
    &&& "Mute"@[0] == 'M'
    &&& "Mute"@[1] == 'u'
    &&& "Mute"@[2] == 't'
    &&& "Mute"@[3] == 'e'
}

proof fn lemma_web_codes_spelled_14()
    ensures
        web_codes_spelled_14(),
{
    reveal_strlit("ShiftLeft");
    reveal_strlit("MetaLeft");
    reveal_strlit("Mail");
    reveal_strlit("MediaSelect");
    reveal_strlit("MediaStop");
    reveal_strlit("Minus");
    reveal_strlit("NumpadMultiply");
    reveal_strlit("Mute");
}

spec fn web_codes_spelled_15() -> bool {
    &&& "LaunchMyComputer"@.len() == 16
    &&& "LaunchMyComputer"@[0] == 'L'
    &&& "LaunchMyComputer"@[1] == 'a'
    &&& "LaunchMyComputer"@[2] == 'u'
    &&& "LaunchMyComputer"@[3] == 'n'
    &&& "LaunchMyComputer"@[4] == 'c'
    &&& "LaunchMyComputer"@[5] == 'h'
    &&& "LaunchMyComputer"@[6] == 'M'
    &&& "LaunchMyComputer"@[7] == 'y'
    &&& "LaunchMyComputer"@[8] == 'C'
    &&& "LaunchMyComputer"@[9] == 'o'
    &&& "LaunchMyComputer"@[10] == 'm'
    &&& "LaunchMyComputer"@[11] == 'p'
    &&& "LaunchMyComputer"@[12] == 'u'
    &&& "LaunchMyComputer"@[13] == 't'
    &&& "LaunchMyComputer"@[14] == 'e'
    &&& "LaunchMyComputer"@[15] == 'r'
    &&& "NavigateForward"@.len() == 15
    &&& "NavigateForward"@[0] == 'N'
    &&& "NavigateForward"@[1] == 'a'
    &&& "NavigateForward"@[2] == 'v'
    &&& "NavigateForward"@[3] == 'i'
    &&& "NavigateForward"@[4] == 'g'
    &&& "NavigateForward"@[5] == 'a'
    &&& "NavigateForward"@[6] == 't'
    &&& "NavigateForward"@[7] == 'e'
    &&& "NavigateForward"@[8] == 'F'
    &&& "NavigateForward"@[9] == 'o'
    &&& "NavigateForward"@[10] == 'r'
    &&& "NavigateForward"@[11] == 'w'
    &&& "NavigateForward"@[12] == 'a'
    &&& "NavigateForward"@[13] == 'r'
    &&& "NavigateForward"@[14] == 'd'
    &&& "NavigateBackward"@.len() == 16
    &&& "NavigateBackward"@[0] == 'N'
    &&& "NavigateBackward"@[1] == 'a'
    &&& "NavigateBackward"@[2] == 'v'
    &&& "NavigateBackward"@[3] == 'i'
    &&& "NavigateBackward"@[4] == 'g'
    &&& "NavigateBackward"@[5] == 'a'
    &&& "NavigateBackward"@[6] == 't'
    &&& "NavigateBackward"@[7] == 'e'
    &&& "NavigateBackward"@[8] == 'B'
    &&& "NavigateBackward"@[9] == 'a'
    &&& "NavigateBackward"@[10] == 'c'
    &&& "NavigateBackward"@[11] == 'k'
    &&& "NavigateBackward"@[12] == 'w'
    &&& "NavigateBackward"@[13] == 'a'
    &&& "NavigateBackward"@[14] == 'r'
    &&& "NavigateBackward"@[15] == 'd'
    &&& "NextTrack"@.len() == 9
    &&& "NextTrack"@[0] == 'N'
    &&& "NextTrack"@[1] == 'e'
    &&& "NextTrack"@[2] == 'x'
    &&& "NextTrack"@[3] == 't'
    &&& "NextTrack"@[4] == 'T'
    &&& "NextTrack"@[5] == 'r'
    &&& "NextTrack"@[6] == 'a'
    &&& "NextTrack"@[7] == 'c'
    &&& "NextTrack"@[8] == 'k'
    &&& "NoConvert"@.len() == 9
    &&& "NoConvert"@[0] == 'N'
    &&& "NoConvert"@[1] == 'o'
    &&& "NoConvert"@[2] == 'C'
    &&& "NoConvert"@[3] == 'o'
    &&& "NoConvert"@[4] == 'n'
    &&& "NoConvert"@[5] == 'v'
    &&& "NoConvert"@[6] == 'e'
    &&& "NoConvert"@[7] == 'r'
    &&& "NoConvert"@[8] == 't'
    &&& "NumpadComma"@.len() == 11
    &&& "NumpadComma"@[0] == 'N'
    &&& "NumpadComma"@[1] == 'u'
    &&& "NumpadComma"@[2] == 'm'
    &&& "NumpadComma"@[3] == 'p'
    &&& "NumpadComma"@[4] == 'a'
    &&& "NumpadComma"@[5] == 'd'
    &&& "NumpadComma"@[6] == 'C'
    &&& "NumpadComma"@[7] == 'o'
    &&& "NumpadComma"@[8] == 'm'
    &&& "NumpadComma"@[9] == 'm'
    &&& "NumpadComma"@[10] == 'a'
    &&& "NumpadEnter"@.len() == 11
    &&& "NumpadEnter"@[0] == 'N'
    &&& "NumpadEnter"@[1] == 'u'
    &&& "NumpadEnter"@[2] == 'm'
    &&& "NumpadEnter"@[3] == 'p'
    &&& "NumpadEnter"@[4] == 'a'
    &&& "NumpadEnter"@[5] == 'd'
    &&& "NumpadEnter"@[6] == 'E'
    &&& "NumpadEnter"@[7] == 'n'
    &&& "NumpadEnter"@[8] == 't'
    &&& "NumpadEnter"@[9] == 'e'
    &&& "NumpadEnter"@[10] == 'r'
    &&& "NumpadEquals"@.len() == 12
    &&& "NumpadEquals"@[0] == 'N'
    &&& "NumpadEquals"@[1] == 'u'
    &&& "NumpadEquals"@[2] == 'm'
    &&& "NumpadEquals"@[3] == 'p'
    &&& "NumpadEquals"@[4] == 'a'
    &&& "NumpadEquals"@[5] == 'd'
    &&& "NumpadEquals"@[6] == 'E'
    &&& "NumpadEquals"@[7] == 'q'
    &&& "NumpadEquals"@[8] == 'u'
    &&& "NumpadEquals"@[9] == 'a'
    &&& "NumpadEquals"@[10] == 'l'
    &&& "NumpadEquals"@[11] == 's'
}

proof fn lemma_web_codes_spelled_15()
    ensures
        web_codes_spelled_15(),
{
    reveal_strlit("LaunchMyComputer");
    reveal_strlit("NavigateForward");
    reveal_strlit("NavigateBackward");
    reveal_strlit("NextTrack");
    reveal_strlit("NoConvert");
    reveal_strlit("NumpadComma");
    reveal_strlit("NumpadEnter");
    reveal_strlit("NumpadEquals");
}

spec fn web_codes_spelled_16() -> bool {
    &&& "OEM102"@.len() == 6
    &&& "OEM102"@[0] == 'O'
    &&& "OEM102"@[1] == 'E'
    &&& "OEM102"@[2] == 'M'
    &&& "OEM102"@[3] == '1'
    &&& "OEM102"@[4] == '0'
    &&& "OEM102"@[5] == '2'
    &&& "Period"@.len() == 6
    &&& "Period"@[0] == 'P'
    &&& "Period"@[1] == 'e'
    &&& "Period"@[2] == 'r'
    &&& "Period"@[3] == 'i'
    &&& "Period"@[4] == 'o'
    &&& "Period"@[5] == 'd'
    &&& "PlayPause"@.len() == 9
    &&& "PlayPause"@[0] == 'P'
    &&& "PlayPause"@[1] == 'l'
    &&& "PlayPause"@[2] == 'a'
    &&& "PlayPause"@[3] == 'y'
    &&& "PlayPause"@[4] == 'P'
    &&& "PlayPause"@[5] == 'a'
    &&& "PlayPause"@[6] == 'u'
    &&& "PlayPause"@[7] == 's'
    &&& "PlayPause"@[8] == 'e'
    &&& "Power"@.len() == 5
    &&& "Power"@[0] == 'P'
    &&& "Power"@[1] == 'o'
    &&& "Power"@[2] == 'w'
    &&& "Power"@[3] == 'e'
    &&& "Power"@[4] == 'r'
    &&& "PrevTrack"@.len() == 9
    &&& "PrevTrack"@[0] == 'P'
    &&& "PrevTrack"@[1] == 'r'
    &&& "PrevTrack"@[2] == 'e'
    &&& "PrevTrack"@[3] == 'v'
    &&& "PrevTrack"@[4] == 'T'
    &&& "PrevTrack"@[5] == 'r'
    &&& "PrevTrack"@[6] == 'a'
    &&& "PrevTrack"@[7] == 'c'
    &&& "PrevTrack"@[8] == 'k'
    &&& "AltRight"@.len() == 8
    &&& "AltRight"@[0] == 'A'
    &&& "AltRight"@[1] == 'l'
    &&& "AltRight"@[2] == 't'
    &&& "AltRight"@[3] == 'R'
    &&& "AltRight"@[4] == 'i'
    &&& "AltRight"@[5] == 'g'
    &&& "AltRight"@[6] == 'h'
    &&& "AltRight"@[7] == 't'
    &&& "BracketRight"@.len() == 12
    &&& "BracketRight"@[0] == 'B'
    &&& "BracketRight"@[1] == 'r'
    &&& "BracketRight"@[2] == 'a'
    &&& "BracketRight"@[3] == 'c'
    &&& "BracketRight"@[4] == 'k'
    &&& "BracketRight"@[5] == 'e'
    &&& "BracketRight"@[6] == 't'
    &&& "BracketRight"@[7] == 'R'
    &&& "BracketRight"@[8] == 'i'
    &&& "BracketRight"@[9] == 'g'
    &&& "BracketRight"@[10] == 'h'
    &&& "BracketRight"@[11] == 't'
    &&& "ControlRight"@.len() == 12
    &&& "ControlRight"@[0] == 'C'
    &&& "ControlRight"@[1] == 'o'
    &&& "ControlRight"@[2] == 'n'
    &&& "ControlRight"@[3] == 't'
    &&& "ControlRight"@[4] == 'r'
    &&& "ControlRight"@[5] == 'o'
    &&& "ControlRight"@[6] == 'l'
    &&& "ControlRight"@[7] == 'R'
    &&& "ControlRight"@[8] == 'i'
    &&& "ControlRight"@[9] == 'g'
    &&& "ControlRight"@[10] == 'h'
    &&& "ControlRight"@[11] == 't'
}

proof fn lemma_web_codes_spelled_16()
    ensures
        web_codes_spelled_16(),
{
    reveal_strlit("OEM102");
    reveal_strlit("Period");
    reveal_strlit("PlayPause");
    reveal_strlit("Power");
    reveal_strlit("PrevTrack");
    reveal_strlit("AltRight");
    reveal_strlit("BracketRight");
    reveal_strlit("ControlRight");
}

spec fn web_codes_spelled_17() -> bool {
    &&& "ShiftRight"@.len() == 10
    &&& "ShiftRight"@[0] == 'S'
    &&& "ShiftRight"@[1] == 'h'
    &&& "ShiftRight"@[2] == 'i'
    &&& "ShiftRight"@[3] == 'f'
    &&& "ShiftRight"@[4] == 't'
    &&& "ShiftRight"@[5] == 'R'
    &&& "ShiftRight"@[6] == 'i'
    &&& "ShiftRight"@[7] == 'g'
    &&& "ShiftRight"@[8] == 'h'
    &&& "ShiftRight"@[9] == 't'
    &&& "MetaRight"@.len() == 9
    &&& "MetaRight"@[0] == 'M'
    &&& "MetaRight"@[1] == 'e'
    &&& "MetaRight"@[2] == 't'
    &&& "MetaRight"@[3] == 'a'
    &&& "MetaRight"@[4] == 'R'
    &&& "MetaRight"@[5] == 'i'
    &&& "MetaRight"@[6] == 'g'
    &&& "MetaRight"@[7] == 'h'
    &&& "MetaRight"@[8] == 't'
    &&& "Slash"@.len() == 5
    &&& "Slash"@[0] == 'S'
    &&& "Slash"@[1] == 'l'
    &&& "Slash"@[2] == 'a'
    &&& "Slash"@[3] == 's'
    &&& "Slash"@[4] == 'h'
    &&& "Sleep"@.len() == 5
    &&& "Sleep"@[0] == 'S'
    &&& "Sleep"@[1] == 'l'
    &&& "Sleep"@[2] == 'e'
    &&& "Sleep"@[3] == 'e'
    &&& "Sleep"@[4] == 'p'
    &&& "Stop"@.len() == 4
    &&& "Stop"@[0] == 'S'
    &&& "Stop"@[1] == 't'
    &&& "Stop"@[2] == 'o'
    &&& "Stop"@[3] == 'p'
    &&& "NumpadSubtract"@.len() == 14
    &&& "NumpadSubtract"@[0] == 'N'
    &&& "NumpadSubtract"@[1] == 'u'
    &&& "NumpadSubtract"@[2] == 'm'
    &&& "NumpadSubtract"@[3] == 'p'
    &&& "NumpadSubtract"@[4] == 'a'
    &&& "NumpadSubtract"@[5] == 'd'
    &&& "NumpadSubtract"@[6] == 'S'
    &&& "NumpadSubtract"@[7] == 'u'
    &&& "NumpadSubtract"@[8] == 'b'
    &&& "NumpadSubtract"@[9] == 't'
    &&& "NumpadSubtract"@[10] == 'r'
    &&& "NumpadSubtract"@[11] == 'a'
    &&& "NumpadSubtract"@[12] == 'c'
    &&& "NumpadSubtract"@[13] == 't'
    &&& "Sysrq"@.len() == 5
    &&& "Sysrq"@[0] == 'S'
    &&& "Sysrq"@[1] == 'y'
    &&& "Sysrq"@[2] == 's'
    &&& "Sysrq"@[3] == 'r'
    &&& "Sysrq"@[4] == 'q'
    &&& "Tab"@.len() == 3
    &&& "Tab"@[0] == 'T'
    &&& "Tab"@[1] == 'a'
    &&& "Tab"@[2] == 'b'
}

proof fn lemma_web_codes_spelled_17()
    ensures
        web_codes_spelled_17(),
{
    reveal_strlit("ShiftRight");
    reveal_strlit("MetaRight");
    reveal_strlit("Slash");
    reveal_strlit("Sleep");
    reveal_strlit("Stop");
    reveal_strlit("NumpadSubtract");
    reveal_strlit("Sysrq");
    reveal_strlit("Tab");
}

spec fn web_codes_spelled_18() -> bool {
    &&& "Underline"@.len() == 9
    &&& "Underline"@[0] == 'U'
    &&& "Underline"@[1] == 'n'
    &&& "Underline"@[2] == 'd'
    &&& "Underline"@[3] == 'e'
    &&& "Underline"@[4] == 'r'
    &&& "Underline"@[5] == 'l'
    &&& "Underline"@[6] == 'i'
    &&& "Underline"@[7] == 'n'
    &&& "Underline"@[8] == 'e'
    &&& "Unlabeled"@.len() == 9
    &&& "Unlabeled"@[0] == 'U'
    &&& "Unlabeled"@[1] == 'n'
    &&& "Unlabeled"@[2] == 'l'
    &&& "Unlabeled"@[3] == 'a'
    &&& "Unlabeled"@[4] == 'b'
    &&& "Unlabeled"@[5] == 'e'
    &&& "Unlabeled"@[6] == 'l'
    &&& "Unlabeled"@[7] == 'e'
    &&& "Unlabeled"@[8] == 'd'
    &&& "AudioVolumeDown"@.len() == 15
    &&& "AudioVolumeDown"@[0] == 'A'
    &&& "AudioVolumeDown"@[1] == 'u'
    &&& "AudioVolumeDown"@[2] == 'd'
    &&& "AudioVolumeDown"@[3] == 'i'
    &&& "AudioVolumeDown"@[4] == 'o'
    &&& "AudioVolumeDown"@[5] == 'V'
    &&& "AudioVolumeDown"@[6] == 'o'
    &&& "AudioVolumeDown"@[7] == 'l'
    &&& "AudioVolumeDown"@[8] == 'u'
    &&& "AudioVolumeDown"@[9] == 'm'
    &&& "AudioVolumeDown"@[10] == 'e'
    &&& "AudioVolumeDown"@[11] == 'D'
    &&& "AudioVolumeDown"@[12] == 'o'
    &&& "AudioVolumeDown"@[13] == 'w'
    &&& "AudioVolumeDown"@[14] == 'n'
    &&& "AudioVolumeUp"@.len() == 13
    &&& "AudioVolumeUp"@[0] == 'A'
    &&& "AudioVolumeUp"@[1] == 'u'
    &&& "AudioVolumeUp"@[2] == 'd'
    &&& "AudioVolumeUp"@[3] == 'i'
    &&& "AudioVolumeUp"@[4] == 'o'
    &&& "AudioVolumeUp"@[5] == 'V'
    &&& "AudioVolumeUp"@[6] == 'o'
    &&& "AudioVolumeUp"@[7] == 'l'
    &&& "AudioVolumeUp"@[8] == 'u'
    &&& "AudioVolumeUp"@[9] == 'm'
    &&& "AudioVolumeUp"@[10] == 'e'
    &&& "AudioVolumeUp"@[11] == 'U'
    &&& "AudioVolumeUp"@[12] == 'p'
    &&& "Wake"@.len() == 4
    &&& "Wake"@[0] == 'W'
    &&& "Wake"@[1] == 'a'
    &&& "Wake"@[2] == 'k'
    &&& "Wake"@[3] == 'e'
    &&& "WebBack"@.len() == 7
    &&& "WebBack"@[0] == 'W'
    &&& "WebBack"@[1] == 'e'
    &&& "WebBack"@[2] == 'b'
    &&& "WebBack"@[3] == 'B'
    &&& "WebBack"@[4] == 'a'
    &&& "WebBack"@[5] == 'c'
    &&& "WebBack"@[6] == 'k'
    &&& "WebFavorites"@.len() == 12
    &&& "WebFavorites"@[0] == 'W'
    &&& "WebFavorites"@[1] == 'e'
    &&& "WebFavorites"@[2] == 'b'
    &&& "WebFavorites"@[3] == 'F'
    &&& "WebFavorites"@[4] == 'a'
    &&& "WebFavorites"@[5] == 'v'
    &&& "WebFavorites"@[6] == 'o'
    &&& "WebFavorites"@[7] == 'r'
    &&& "WebFavorites"@[8] == 'i'
    &&& "WebFavorites"@[9] == 't'
    &&& "WebFavorites"@[10] == 'e'
    &&& "WebFavorites"@[11] == 's'
    &&& "WebForward"@.len() == 10
    &&& "WebForward"@[0] == 'W'
    &&& "WebForward"@[1] == 'e'
    &&& "WebForward"@[2] == 'b'
    &&& "WebForward"@[3] == 'F'
    &&& "WebForward"@[4] == 'o'
    &&& "WebForward"@[5] == 'r'
    &&& "WebForward"@[6] == 'w'
    &&& "WebForward"@[7] == 'a'
    &&& "WebForward"@[8] == 'r'
    &&& "WebForward"@[9] == 'd'
}

proof fn lemma_web_codes_spelled_18()
    ensures
        web_codes_spelled_18(),
{
    reveal_strlit("Underline");
    reveal_strlit("Unlabeled");
    reveal_strlit("AudioVolumeDown");
    reveal_strlit("AudioVolumeUp");
    reveal_strlit("Wake");
    reveal_strlit("WebBack");
    reveal_strlit("WebFavorites");
    reveal_strlit("WebForward");
}

spec fn web_codes_spelled_19() -> bool {
    &&& "WebHome"@.len() == 7
    &&& "WebHome"@[0] == 'W'
    &&& "WebHome"@[1] == 'e'
    &&& "WebHome"@[2] == 'b'
    &&& "WebHome"@[3] == 'H'
    &&& "WebHome"@[4] == 'o'
    &&& "WebHome"@[5] == 'm'
    &&& "WebHome"@[6] == 'e'
    &&& "WebRefresh"@.len() == 10
    &&& "WebRefresh"@[0] == 'W'
    &&& "WebRefresh"@[1] == 'e'
    &&& "WebRefresh"@[2] == 'b'
    &&& "WebRefresh"@[3] == 'R'
    &&& "WebRefresh"@[4] == 'e'
    &&& "WebRefresh"@[5] == 'f'
    &&& "WebRefresh"@[6] == 'r'
    &&& "WebRefresh"@[7] == 'e'
    &&& "WebRefresh"@[8] == 's'
    &&& "WebRefresh"@[9] == 'h'
    &&& "WebSearch"@.len() == 9
    &&& "WebSearch"@[0] == 'W'
    &&& "WebSearch"@[1] == 'e'
    &&& "WebSearch"@[2] == 'b'
    &&& "WebSearch"@[3] == 'S'
    &&& "WebSearch"@[4] == 'e'
    &&& "WebSearch"@[5] == 'a'
    &&& "WebSearch"@[6] == 'r'
    &&& "WebSearch"@[7] == 'c'
    &&& "WebSearch"@[8] == 'h'
    &&& "WebStop"@.len() == 7
    &&& "WebStop"@[0] == 'W'
    &&& "WebStop"@[1] == 'e'
    &&& "WebStop"@[2] == 'b'
    &&& "WebStop"@[3] == 'S'
    &&& "WebStop"@[4] == 't'
    &&& "WebStop"@[5] == 'o'
    &&& "WebStop"@[6] == 'p'
    &&& "Yen"@.len() == 3
    &&& "Yen"@[0] == 'Y'
    &&& "Yen"@[1] == 'e'
    &&& "Yen"@[2] == 'n'
}

proof fn lemma_web_codes_spelled_19()
    ensures
        web_codes_spelled_19(),
{
    reveal_strlit("WebHome");
    reveal_strlit("WebRefresh");
    reveal_strlit("WebSearch");
    reveal_strlit("WebStop");
    reveal_strlit("Yen");
}

proof fn lemma_web_codes_spelled()
    ensures
        web_codes_spelled_0(),
        web_codes_spelled_1(),
        web_codes_spelled_2(),
        web_codes_spelled_3(),
        web_codes_spelled_4(),
        web_codes_spelled_5(),
        web_codes_spelled_6(),
        web_codes_spelled_7(),
        web_codes_spelled_8(),
        web_codes_spelled_9(),
        web_codes_spelled_10(),
        web_codes_spelled_11(),
        web_codes_spelled_12(),
        web_codes_spelled_13(),
        web_codes_spelled_14(),
        web_codes_spelled_15(),
        web_codes_spelled_16(),
        web_codes_spelled_17(),
        web_codes_spelled_18(),
        web_codes_spelled_19(),
{
    lemma_web_codes_spelled_0();
    lemma_web_codes_spelled_1();
    lemma_web_codes_spelled_2();
    lemma_web_codes_spelled_3();
    lemma_web_codes_spelled_4();
    lemma_web_codes_spelled_5();
    lemma_web_codes_spelled_6();
    lemma_web_codes_spelled_7();
    lemma_web_codes_spelled_8();
    lemma_web_codes_spelled_9();
    lemma_web_codes_spelled_10();
    lemma_web_codes_spelled_11();
    lemma_web_codes_spelled_12();
    lemma_web_codes_spelled_13();
    lemma_web_codes_spelled_14();
    lemma_web_codes_spelled_15();
    lemma_web_codes_spelled_16();
    lemma_web_codes_spelled_17();
    lemma_web_codes_spelled_18();
    lemma_web_codes_spelled_19();
}

/// Every key that has a web code is recognised from it: `keyboard_code`
/// maps the code of `key` back to `key`.  With `law_web_codes_name_one_key`,
/// the web codes and the keys that have one correspond one to one.
#[verifier::rlimit(100)]
pub proof fn law_web_codes_recognised(key: KeyCode)
    ensures
        web_code_of(key) matches Some(code) ==> web_key_code(code) == Some(key),
{
    lemma_web_codes_spelled();
}
/// Web mouse button numbers name buttons one to one: `0` is the left
/// button, `1` the middle one, `2` the right one, and two numbers from 0 to
/// 255 give the same button only when they are equal.
pub proof fn law_mouse_buttons_distinct(a: i16, b: i16)
    requires
        0 <= a < 256,
        0 <= b < 256,
    ensures
        (web_mouse_button(a) == web_mouse_button(b)) == (a == b),
        web_mouse_button(0) == MouseButton::Left,
        web_mouse_button(1) == MouseButton::Middle,
        web_mouse_button(2) == MouseButton::Right,
{
    if a >= 3 && b >= 3 && a != b {
        assert((a as u8) != (b as u8)) by (bit_vector)
            requires
                0 <= a < 256,
                0 <= b < 256,
                a != b,
        ;
    }
}

} // verus!
