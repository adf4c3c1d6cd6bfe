//! Key identifiers: the application-facing key codes and the identifiers
//! that the host reports, with the table that maps the second to the first.

use vstd::prelude::*;

verus! {

/// A named modifier or lock key.
#[derive(Debug, Clone, Copy, PartialEq, Eq, Structural, Hash, PartialOrd, Ord)]
pub enum NamedKey {
    Alt,
    AltGraph,
    CapsLock,
    Control,
    Fn,
    FnLock,
    NumLock,
    ScrollLock,
    Shift,
    Symbol,
    SymbolLock,
    Meta,
    Hyper,
    Super,
}

/// A key as the active layout interprets it.
#[derive(Debug, Clone, PartialEq, Eq, Hash, PartialOrd, Ord)]
pub enum Key {
    /// A key with a name and no text.
    Named(NamedKey),
    /// A dead key, with the character it would combine, when known.
    Dead(Option<char>),
}

/// A key by its position on the keyboard, independent of the layout.
#[derive(Debug, Clone, Copy, PartialEq, Eq, Structural, PartialOrd, Ord, Hash)]
pub enum PhysicalKey {
    /// A key with a known code.
    Code(KeyCode),
}

/// The code of a physical key, named after the key that a US keyboard has
/// in that position.
#[non_exhaustive]
#[derive(Debug, Clone, Copy, PartialEq, Eq, Structural, PartialOrd, Ord, Hash)]
pub enum KeyCode {
    Backquote,
    Backslash,
    BracketLeft,
    BracketRight,
    Comma,
    Digit0,
    Digit1,
    Digit2,
    Digit3,
    Digit4,
    Digit5,
    Digit6,
    Digit7,
    Digit8,
    Digit9,
    Equal,
    IntlBackslash,
    IntlRo,
    IntlYen,
    KeyA,
    KeyB,
    KeyC,
    KeyD,
    KeyE,
    KeyF,
    KeyG,
    KeyH,
    KeyI,
    KeyJ,
    KeyK,
    KeyL,
    KeyM,
    KeyN,
    KeyO,
    KeyP,
    KeyQ,
    KeyR,
    KeyS,
    KeyT,
    KeyU,
    KeyV,
    KeyW,
    KeyX,
    KeyY,
    KeyZ,
    Minus,
    Period,
    Quote,
    Semicolon,
    Slash,
    AltLeft,
    AltRight,
    Backspace,
    CapsLock,
    ContextMenu,
    ControlLeft,
    ControlRight,
    Enter,
    SuperLeft,
    SuperRight,
    ShiftLeft,
    ShiftRight,
    Space,
    Tab,
    Convert,
    KanaMode,
    Lang1,
    Lang2,
    Lang3,
    Lang4,
    Lang5,
    NonConvert,
    Delete,
    End,
    Help,
    Home,
    Insert,
    PageDown,
    PageUp,
    ArrowDown,
    ArrowLeft,
    ArrowRight,
    ArrowUp,
    NumLock,
    Numpad0,
    Numpad1,
    Numpad2,
    Numpad3,
    Numpad4,
    Numpad5,
    Numpad6,
    Numpad7,
    Numpad8,
    Numpad9,
    NumpadAdd,
    NumpadBackspace,
    NumpadClear,
    NumpadClearEntry,
    NumpadComma,
    NumpadDecimal,
    NumpadDivide,
    NumpadEnter,
    NumpadEqual,
    NumpadHash,
    NumpadMemoryAdd,
    NumpadMemoryClear,
    NumpadMemoryRecall,
    NumpadMemoryStore,
    NumpadMemorySubtract,
    NumpadMultiply,
    NumpadParenLeft,
    NumpadParenRight,
    NumpadStar,
    NumpadSubtract,
    Escape,
    Fn,
    FnLock,
    PrintScreen,
    ScrollLock,
    Pause,
    BrowserBack,
    BrowserFavorites,
    BrowserForward,
    BrowserHome,
    BrowserRefresh,
    BrowserSearch,
    BrowserStop,
    Eject,
    LaunchApp1,
    LaunchApp2,
    LaunchMail,
    MediaPlayPause,
    MediaSelect,
    MediaStop,
    MediaTrackNext,
    MediaTrackPrevious,
    Power,
    Sleep,
    AudioVolumeDown,
    AudioVolumeMute,
    AudioVolumeUp,
    WakeUp,
    Meta,
    Hyper,
    Turbo,
    Abort,
    Resume,
    Suspend,
    Again,
    Copy,
    Cut,
    Find,
    Open,
    Paste,
    Props,
    Select,
    Undo,
    Hiragana,
    Katakana,
    F1,
    F2,
    F3,
    F4,
    F5,
    F6,
    F7,
    F8,
    F9,
    F10,
    F11,
    F12,
    F13,
    F14,
    F15,
    F16,
    F17,
    F18,
    F19,
    F20,
    F21,
    F22,
    F23,
    F24,
    F25,
    F26,
    F27,
    F28,
    F29,
    F30,
    F31,
    F32,
    F33,
    F34,
    F35,
}

/// A key identifier as the host reports it. The host knows more keys than
/// the table below maps; all of those are `Other`.
#[derive(Debug, Clone, Copy, PartialEq, Eq, Structural, Hash)]
pub enum HostKey {
    ArrowLeft,
    ArrowRight,
    Other,
}

/// What the host hands out for one key transition. The identifier may be
/// missing when the host could not name the key.
#[derive(Debug, Clone, Copy, PartialEq, Eq, Structural, Hash)]
pub struct HostKeyEvent {
    pub key: Option<HostKey>,
}

/// The mapping table from host key identifiers to key codes: the two arrow
/// keys are mapped, nothing else is.
pub open spec fn mapped_code(key: HostKey) -> Option<KeyCode> {
    match key {
        HostKey::ArrowLeft => Some(KeyCode::ArrowLeft),
        HostKey::ArrowRight => Some(KeyCode::ArrowRight),
        HostKey::Other => None,
    }
}

/// The key code that a host key event stands for, if its identifier is
/// present and mapped.
pub open spec fn event_code(event: HostKeyEvent) -> Option<KeyCode> {
    match event.key {
        Some(key) => mapped_code(key),
        None => None,
    }
}

/// Looks a host key identifier up in the mapping table.
pub fn map_host_key(key: HostKey) -> (code: Option<KeyCode>)
    ensures
        code == mapped_code(key),
{
    match key {
        HostKey::ArrowLeft => Some(KeyCode::ArrowLeft),
        HostKey::ArrowRight => Some(KeyCode::ArrowRight),
        HostKey::Other => None,
    }
}

/// The key code of a host key event; `None` when the identifier is absent
/// or unmapped.
pub fn key_code_of(event: HostKeyEvent) -> (code: Option<KeyCode>)
    ensures
        code == event_code(event),
{
    match event.key {
        Some(key) => map_host_key(key),
        None => None,
    }
}

/// The table maps exactly the two arrow keys, each to the code of the same
/// name, and distinct identifiers never share a code.
pub proof fn lemma_mapping_table(a: HostKey, b: HostKey)
    ensures
        mapped_code(HostKey::ArrowLeft) == Some(KeyCode::ArrowLeft),
        mapped_code(HostKey::ArrowRight) == Some(KeyCode::ArrowRight),
        mapped_code(a) is Some <==> (a == HostKey::ArrowLeft || a == HostKey::ArrowRight),
        mapped_code(a) is Some && mapped_code(a) == mapped_code(b) ==> a == b,
{
}

} // verus!
