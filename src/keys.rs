use vstd::prelude::*;

verus! {

/// A physical key position, named after the key at that position on a US layout.
#[derive(Clone, Copy, Debug, PartialEq, Eq, Structural)]
pub enum KeyCode {
    Backquote,
    Backslash,
    BracketLeft,
    BracketRight,
    Comma,
    Digit0,
    Digit1,
    Digit2,
    Digit3,
    Digit4,
    Digit5,
    Digit6,
    Digit7,
    Digit8,
    Digit9,
    Equal,
    IntlBackslash,
    IntlRo,
    IntlYen,
    KeyA,
    KeyB,
    KeyC,
    KeyD,
    KeyE,
    KeyF,
    KeyG,
    KeyH,
    KeyI,
    KeyJ,
    KeyK,
    KeyL,
    KeyM,
    KeyN,
    KeyO,
    KeyP,
    KeyQ,
    KeyR,
    KeyS,
    KeyT,
    KeyU,
    KeyV,
    KeyW,
    KeyX,
    KeyY,
    KeyZ,
    Minus,
    Period,
    Quote,
    Semicolon,
    Slash,
    AltLeft,
    AltRight,
    Backspace,
    CapsLock,
    ContextMenu,
    ControlLeft,
    ControlRight,
    Enter,
    SuperLeft,
    SuperRight,
    ShiftLeft,
    ShiftRight,
    Space,
    Tab,
    Convert,
    KanaMode,
    Lang1,
    Lang2,
    Lang3,
    Lang4,
    Lang5,
    NonConvert,
    Delete,
    End,
    Help,
    Home,
    Insert,
    PageDown,
    PageUp,
    ArrowDown,
    ArrowLeft,
    ArrowRight,
    ArrowUp,
    NumLock,
    Numpad0,
    Numpad1,
    Numpad2,
    Numpad3,
    Numpad4,
    Numpad5,
    Numpad6,
    Numpad7,
    Numpad8,
    Numpad9,
    NumpadAdd,
    NumpadBackspace,
    NumpadClear,
    NumpadClearEntry,
    NumpadComma,
    NumpadDecimal,
    NumpadDivide,
    NumpadEnter,
    NumpadEqual,
    NumpadHash,
    NumpadMemoryAdd,
    NumpadMemoryClear,
    NumpadMemoryRecall,
    NumpadMemoryStore,
    NumpadMemorySubtract,
    NumpadMultiply,
    NumpadParenLeft,
    NumpadParenRight,
    NumpadStar,
    NumpadSubtract,
    Escape,
    Fn,
    FnLock,
    PrintScreen,
    ScrollLock,
    Pause,
    BrowserBack,
    BrowserFavorites,
    BrowserForward,
    BrowserHome,
    BrowserRefresh,
    BrowserSearch,
    BrowserStop,
    Eject,
    LaunchApp1,
    LaunchApp2,
    LaunchMail,
    MediaPlayPause,
    MediaSelect,
    MediaStop,
    MediaTrackNext,
    MediaTrackPrevious,
    Power,
    Sleep,
    AudioVolumeDown,
    AudioVolumeMute,
    AudioVolumeUp,
    WakeUp,
    Meta,
    Hyper,
    Turbo,
    Abort,
    Resume,
    Suspend,
    Again,
    Copy,
    Cut,
    Find,
    Open,
    Paste,
    Props,
    Select,
    Undo,
    Hiragana,
    Katakana,
    F1,
    F2,
    F3,
    F4,
    F5,
    F6,
    F7,
    F8,
    F9,
    F10,
    F11,
    F12,
    F13,
    F14,
    F15,
    F16,
    F17,
    F18,
    F19,
    F20,
    F21,
    F22,
    F23,
    F24,
    F25,
    F26,
    F27,
    F28,
    F29,
    F30,
    F31,
    F32,
    F33,
    F34,
    F35,
}

/// A key of the closed semantic key set that applications see.
#[derive(Clone, Copy, Debug, PartialEq, Eq, Structural)]
pub enum Key {
    Key0,
    Key1,
    Key2,
    Key3,
    Key4,
    Key5,
    Key6,
    Key7,
    Key8,
    Key9,
    A,
    B,
    C,
    D,
    E,
    F,
    G,
    H,
    I,
    J,
    K,
    L,
    M,
    N,
    O,
    P,
    Q,
    R,
    S,
    T,
    U,
    V,
    W,
    X,
    Y,
    Z,
    Escape,
    F1,
    F2,
    F3,
    F4,
    F5,
    F6,
    F7,
    F8,
    F9,
    F10,
    F11,
    F12,
    F13,
    F14,
    F15,
    F16,
    F17,
    F18,
    F19,
    F20,
    F21,
    F22,
    F23,
    F24,
    Pause,
    Insert,
    Home,
    Delete,
    End,
    PageDown,
    PageUp,
    Left,
    Up,
    Right,
    Down,
    Back,
    Return,
    Space,
    Numlock,
    Numpad0,
    Numpad1,
    Numpad2,
    Numpad3,
    Numpad4,
    Numpad5,
    Numpad6,
    Numpad7,
    Numpad8,
    Numpad9,
    NumpadAdd,
    NumpadDivide,
    NumpadDecimal,
    NumpadComma,
    NumpadEnter,
    NumpadEquals,
    NumpadMultiply,
    NumpadSubtract,
    LAlt,
    LControl,
    LShift,
    RAlt,
    RControl,
    RShift,
    Tab,
}

/// The key table: the semantic key that a physical key stands for, if any.
#[verifier::opaque]
pub open spec fn key_of(code: KeyCode) -> Option<Key> {
    match code {
        KeyCode::Digit0 => Some(Key::Key0),
        KeyCode::Digit1 => Some(Key::Key1),
        KeyCode::Digit2 => Some(Key::Key2),
        KeyCode::Digit3 => Some(Key::Key3),
        KeyCode::Digit4 => Some(Key::Key4),
        KeyCode::Digit5 => Some(Key::Key5),
        KeyCode::Digit6 => Some(Key::Key6),
        KeyCode::Digit7 => Some(Key::Key7),
        KeyCode::Digit8 => Some(Key::Key8),
        KeyCode::Digit9 => Some(Key::Key9),
        KeyCode::KeyA => Some(Key::A),
        KeyCode::KeyB => Some(Key::B),
        KeyCode::KeyC => Some(Key::C),
        KeyCode::KeyD => Some(Key::D),
        KeyCode::KeyE => Some(Key::E),
        KeyCode::KeyF => Some(Key::F),
        KeyCode::KeyG => Some(Key::G),
        KeyCode::KeyH => Some(Key::H),
        KeyCode::KeyI => Some(Key::I),
        KeyCode::KeyJ => Some(Key::J),
        KeyCode::KeyK => Some(Key::K),
        KeyCode::KeyL => Some(Key::L),
        KeyCode::KeyM => Some(Key::M),
        KeyCode::KeyN => Some(Key::N),
        KeyCode::KeyO => Some(Key::O),
        KeyCode::KeyP => Some(Key::P),
        KeyCode::KeyQ => Some(Key::Q),
        KeyCode::KeyR => Some(Key::R),
        KeyCode::KeyS => Some(Key::S),
        KeyCode::KeyT => Some(Key::T),
        KeyCode::KeyU => Some(Key::U),
        KeyCode::KeyV => Some(Key::V),
        KeyCode::KeyW => Some(Key::W),
        KeyCode::KeyX => Some(Key::X),
        KeyCode::KeyY => Some(Key::Y),
        KeyCode::KeyZ => Some(Key::Z),
        KeyCode::AltLeft => Some(Key::LAlt),
        KeyCode::AltRight => Some(Key::RAlt),
        KeyCode::Backspace => Some(Key::Back),
        KeyCode::ControlLeft => Some(Key::LControl),
        KeyCode::ControlRight => Some(Key::RControl),
        KeyCode::Enter => Some(Key::Return),
        KeyCode::ShiftLeft => Some(Key::LShift),
        KeyCode::ShiftRight => Some(Key::RShift),
        KeyCode::Space => Some(Key::Space),
        KeyCode::Tab => Some(Key::Tab),
        KeyCode::Delete => Some(Key::Delete),
        KeyCode::End => Some(Key::End),
        KeyCode::Home => Some(Key::Home),
        KeyCode::Insert => Some(Key::Insert),
        KeyCode::PageDown => Some(Key::PageDown),
        KeyCode::PageUp => Some(Key::PageUp),
        KeyCode::ArrowDown => Some(Key::Down),
        KeyCode::ArrowLeft => Some(Key::Left),
        KeyCode::ArrowRight => Some(Key::Right),
        KeyCode::ArrowUp => Some(Key::Up),
        KeyCode::NumLock => Some(Key::Numlock),
        KeyCode::Numpad0 => Some(Key::Numpad0),
        KeyCode::Numpad1 => Some(Key::Numpad1),
        KeyCode::Numpad2 => Some(Key::Numpad2),
        KeyCode::Numpad3 => Some(Key::Numpad3),
        KeyCode::Numpad4 => Some(Key::Numpad4),
        KeyCode::Numpad5 => Some(Key::Numpad5),
        KeyCode::Numpad6 => Some(Key::Numpad6),
        KeyCode::Numpad7 => Some(Key::Numpad7),
        KeyCode::Numpad8 => Some(Key::Numpad8),
        KeyCode::Numpad9 => Some(Key::Numpad9),
        KeyCode::NumpadAdd => Some(Key::NumpadAdd),
        KeyCode::NumpadComma => Some(Key::NumpadComma),
        KeyCode::NumpadDecimal => Some(Key::NumpadDecimal),
        KeyCode::NumpadDivide => Some(Key::NumpadDivide),
        KeyCode::NumpadEnter => Some(Key::NumpadEnter),
        KeyCode::NumpadEqual => Some(Key::NumpadEquals),
        KeyCode::NumpadMultiply => Some(Key::NumpadMultiply),
        KeyCode::NumpadSubtract => Some(Key::NumpadSubtract),
        KeyCode::Escape => Some(Key::Escape),
        KeyCode::Pause => Some(Key::Pause),
        KeyCode::F1 => Some(Key::F1),
        KeyCode::F2 => Some(Key::F2),
        KeyCode::F3 => Some(Key::F3),
        KeyCode::F4 => Some(Key::F4),
        KeyCode::F5 => Some(Key::F5),
        KeyCode::F6 => Some(Key::F6),
        KeyCode::F7 => Some(Key::F7),
        KeyCode::F8 => Some(Key::F8),
        KeyCode::F9 => Some(Key::F9),
        KeyCode::F10 => Some(Key::F10),
        KeyCode::F11 => Some(Key::F11),
        KeyCode::F12 => Some(Key::F12),
        KeyCode::F13 => Some(Key::F13),
        KeyCode::F14 => Some(Key::F14),
        KeyCode::F15 => Some(Key::F15),
        KeyCode::F16 => Some(Key::F16),
        KeyCode::F17 => Some(Key::F17),
        KeyCode::F18 => Some(Key::F18),
        KeyCode::F19 => Some(Key::F19),
        KeyCode::F20 => Some(Key::F20),
        KeyCode::F21 => Some(Key::F21),
        KeyCode::F22 => Some(Key::F22),
        KeyCode::F23 => Some(Key::F23),
        KeyCode::F24 => Some(Key::F24),
        _ => None,
    }
}

/// Looks a physical key up in the key table.
pub fn map_key(code: KeyCode) -> (r: Option<Key>)
    ensures
        r == key_of(code),
{
    reveal(key_of);
    match code {
        KeyCode::Digit0 => Some(Key::Key0),
        KeyCode::Digit1 => Some(Key::Key1),
        KeyCode::Digit2 => Some(Key::Key2),
        KeyCode::Digit3 => Some(Key::Key3),
        KeyCode::Digit4 => Some(Key::Key4),
        KeyCode::Digit5 => Some(Key::Key5),
        KeyCode::Digit6 => Some(Key::Key6),
        KeyCode::Digit7 => Some(Key::Key7),
        KeyCode::Digit8 => Some(Key::Key8),
        KeyCode::Digit9 => Some(Key::Key9),
        KeyCode::KeyA => Some(Key::A),
        KeyCode::KeyB => Some(Key::B),
        KeyCode::KeyC => Some(Key::C),
        KeyCode::KeyD => Some(Key::D),
        KeyCode::KeyE => Some(Key::E),
        KeyCode::KeyF => Some(Key::F),
        KeyCode::KeyG => Some(Key::G),
        KeyCode::KeyH => Some(Key::H),
        KeyCode::KeyI => Some(Key::I),
        KeyCode::KeyJ => Some(Key::J),
        KeyCode::KeyK => Some(Key::K),
        KeyCode::KeyL => Some(Key::L),
        KeyCode::KeyM => Some(Key::M),
        KeyCode::KeyN => Some(Key::N),
        KeyCode::KeyO => Some(Key::O),
        KeyCode::KeyP => Some(Key::P),
        KeyCode::KeyQ => Some(Key::Q),
        KeyCode::KeyR => Some(Key::R),
        KeyCode::KeyS => Some(Key::S),
        KeyCode::KeyT => Some(Key::T),
        KeyCode::KeyU => Some(Key::U),
        KeyCode::KeyV => Some(Key::V),
        KeyCode::KeyW => Some(Key::W),
        KeyCode::KeyX => Some(Key::X),
        KeyCode::KeyY => Some(Key::Y),
        KeyCode::KeyZ => Some(Key::Z),
        KeyCode::AltLeft => Some(Key::LAlt),
        KeyCode::AltRight => Some(Key::RAlt),
        KeyCode::Backspace => Some(Key::Back),
        KeyCode::ControlLeft => Some(Key::LControl),
        KeyCode::ControlRight => Some(Key::RControl),
        KeyCode::Enter => Some(Key::Return),
        KeyCode::ShiftLeft => Some(Key::LShift),
        KeyCode::ShiftRight => Some(Key::RShift),
        KeyCode::Space => Some(Key::Space),
        KeyCode::Tab => Some(Key::Tab),
        KeyCode::Delete => Some(Key::Delete),
        KeyCode::End => Some(Key::End),
        KeyCode::Home => Some(Key::Home),
        KeyCode::Insert => Some(Key::Insert),
        KeyCode::PageDown => Some(Key::PageDown),
        KeyCode::PageUp => Some(Key::PageUp),
        KeyCode::ArrowDown => Some(Key::Down),
        KeyCode::ArrowLeft => Some(Key::Left),
        KeyCode::ArrowRight => Some(Key::Right),
        KeyCode::ArrowUp => Some(Key::Up),
        KeyCode::NumLock => Some(Key::Numlock),
        KeyCode::Numpad0 => Some(Key::Numpad0),
        KeyCode::Numpad1 => Some(Key::Numpad1),
        KeyCode::Numpad2 => Some(Key::Numpad2),
        KeyCode::Numpad3 => Some(Key::Numpad3),
        KeyCode::Numpad4 => Some(Key::Numpad4),
        KeyCode::Numpad5 => Some(Key::Numpad5),
        KeyCode::Numpad6 => Some(Key::Numpad6),
        KeyCode::Numpad7 => Some(Key::Numpad7),
        KeyCode::Numpad8 => Some(Key::Numpad8),
        KeyCode::Numpad9 => Some(Key::Numpad9),
        KeyCode::NumpadAdd => Some(Key::NumpadAdd),
        KeyCode::NumpadComma => Some(Key::NumpadComma),
        KeyCode::NumpadDecimal => Some(Key::NumpadDecimal),
        KeyCode::NumpadDivide => Some(Key::NumpadDivide),
        KeyCode::NumpadEnter => Some(Key::NumpadEnter),
        KeyCode::NumpadEqual => Some(Key::NumpadEquals),
        KeyCode::NumpadMultiply => Some(Key::NumpadMultiply),
        KeyCode::NumpadSubtract => Some(Key::NumpadSubtract),
        KeyCode::Escape => Some(Key::Escape),
        KeyCode::Pause => Some(Key::Pause),
        KeyCode::F1 => Some(Key::F1),
        KeyCode::F2 => Some(Key::F2),
        KeyCode::F3 => Some(Key::F3),
        KeyCode::F4 => Some(Key::F4),
        KeyCode::F5 => Some(Key::F5),
        KeyCode::F6 => Some(Key::F6),
        KeyCode::F7 => Some(Key::F7),
        KeyCode::F8 => Some(Key::F8),
        KeyCode::F9 => Some(Key::F9),
        KeyCode::F10 => Some(Key::F10),
        KeyCode::F11 => Some(Key::F11),
        KeyCode::F12 => Some(Key::F12),
        KeyCode::F13 => Some(Key::F13),
        KeyCode::F14 => Some(Key::F14),
        KeyCode::F15 => Some(Key::F15),
        KeyCode::F16 => Some(Key::F16),
        KeyCode::F17 => Some(Key::F17),
        KeyCode::F18 => Some(Key::F18),
        KeyCode::F19 => Some(Key::F19),
        KeyCode::F20 => Some(Key::F20),
        KeyCode::F21 => Some(Key::F21),
        KeyCode::F22 => Some(Key::F22),
        KeyCode::F23 => Some(Key::F23),
        KeyCode::F24 => Some(Key::F24),
        _ => None,
    }
}

} // verus!
