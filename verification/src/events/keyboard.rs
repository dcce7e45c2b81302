//! Keys of the keyboard and the states a key can be in.

use vstd::prelude::*;

verus! {

/// What a key or a button is doing at the moment an event reports it.
#[derive(Debug, PartialEq, Eq, Clone, Copy, Hash, Structural)]
pub enum KeyState {
    /// The key went down.
    Down,
    /// The key is held and the platform repeats it.
    Repeat,
    /// The key was released.
    Up,
}

/// A physical key, named by its position on the keyboard and not by the
/// character the active layout produces. The names are those of the W3C
/// UI Events `code` values.
#[derive(Debug, PartialEq, Eq, Clone, Copy, Hash, Structural)]
pub enum Keycode {
    // Writing-system keys
    Backquote,
    Backslash,
    BracketLeft,
    BracketRight,
    Comma,
    Digit0,
    Digit1,
    Digit2,
    Digit3,
    Digit4,
    Digit5,
    Digit6,
    Digit7,
    Digit8,
    Digit9,
    Equal,
    IntlBackslash,
    IntlRo,
    IntlYen,
    KeyA,
    KeyB,
    KeyC,
    KeyD,
    KeyE,
    KeyF,
    KeyG,
    KeyH,
    KeyI,
    KeyJ,
    KeyK,
    KeyL,
    KeyM,
    KeyN,
    KeyO,
    KeyP,
    KeyQ,
    KeyR,
    KeyS,
    KeyT,
    KeyU,
    KeyV,
    KeyW,
    KeyX,
    KeyY,
    KeyZ,
    Minus,
    Period,
    Quote,
    Semicolon,
    Slash,
    // Functional keys
    AltLeft,
    AltRight,
    Backspace,
    CapsLock,
    ContextMenu,
    ControlLeft,
    ControlRight,
    Enter,
    SuperLeft,
    SuperRight,
    ShiftLeft,
    ShiftRight,
    Space,
    Tab,
    Convert,
    KanaMode,
    Lang1,
    Lang2,
    Lang3,
    Lang4,
    Lang5,
    NonConvert,
    // Control pad and arrow pad
    Delete,
    End,
    Help,
    Home,
    Insert,
    PageDown,
    PageUp,
    ArrowDown,
    ArrowLeft,
    ArrowRight,
    ArrowUp,
    // Numeric keypad
    NumLock,
    Numpad0,
    Numpad1,
    Numpad2,
    Numpad3,
    Numpad4,
    Numpad5,
    Numpad6,
    Numpad7,
    Numpad8,
    Numpad9,
    NumpadAdd,
    NumpadBackspace,
    NumpadClear,
    NumpadClearEntry,
    NumpadComma,
    NumpadDecimal,
    NumpadDivide,
    NumpadEnter,
    NumpadEqual,
    NumpadHash,
    NumpadMemoryAdd,
    NumpadMemoryClear,
    NumpadMemoryRecall,
    NumpadMemoryStore,
    NumpadMemorySubtract,
    NumpadMultiply,
    NumpadParenLeft,
    NumpadParenRight,
    NumpadStar,
    NumpadSubtract,
    // Function section
    Escape,
    Fn,
    FnLock,
    PrintScreen,
    ScrollLock,
    Pause,
    // Media keys
    BrowserBack,
    BrowserFavorites,
    BrowserForward,
    BrowserHome,
    BrowserRefresh,
    BrowserSearch,
    BrowserStop,
    Eject,
    LaunchApp1,
    LaunchApp2,
    LaunchMail,
    MediaPlayPause,
    MediaSelect,
    MediaStop,
    MediaTrackNext,
    MediaTrackPrevious,
    Power,
    Sleep,
    AudioVolumeDown,
    AudioVolumeMute,
    AudioVolumeUp,
    WakeUp,
    // Legacy, non-standard and special keys
    Meta,
    Hyper,
    Turbo,
    Abort,
    Resume,
    Suspend,
    Again,
    Copy,
    Cut,
    Find,
    Open,
    Paste,
    Props,
    Select,
    Undo,
    Hiragana,
    Katakana,
    // Function keys
    F1,
    F2,
    F3,
    F4,
    F5,
    F6,
    F7,
    F8,
    F9,
    F10,
    F11,
    F12,
    F13,
    F14,
    F15,
    F16,
    F17,
    F18,
    F19,
    F20,
    F21,
    F22,
    F23,
    F24,
    F25,
    F26,
    F27,
    F28,
    F29,
    F30,
    F31,
    F32,
    F33,
    F34,
    F35,
}

impl Keycode {
    /// The position of the key in the catalog, counted from zero. Distinct
    /// keys have distinct positions (`lemma_index_injective`), so the
    /// position can stand for the key wherever an integer is wanted.
    pub open spec fn index(self) -> u32 {
        match self {
            Keycode::Backquote => 0u32,
            Keycode::Backslash => 1u32,
            Keycode::BracketLeft => 2u32,
            Keycode::BracketRight => 3u32,
            Keycode::Comma => 4u32,
            Keycode::Digit0 => 5u32,
            Keycode::Digit1 => 6u32,
            Keycode::Digit2 => 7u32,
            Keycode::Digit3 => 8u32,
            Keycode::Digit4 => 9u32,
            Keycode::Digit5 => 10u32,
            Keycode::Digit6 => 11u32,
            Keycode::Digit7 => 12u32,
            Keycode::Digit8 => 13u32,
            Keycode::Digit9 => 14u32,
            Keycode::Equal => 15u32,
            Keycode::IntlBackslash => 16u32,
            Keycode::IntlRo => 17u32,
            Keycode::IntlYen => 18u32,
            Keycode::KeyA => 19u32,
            Keycode::KeyB => 20u32,
            Keycode::KeyC => 21u32,
            Keycode::KeyD => 22u32,
            Keycode::KeyE => 23u32,
            Keycode::KeyF => 24u32,
            Keycode::KeyG => 25u32,
            Keycode::KeyH => 26u32,
            Keycode::KeyI => 27u32,
            Keycode::KeyJ => 28u32,
            Keycode::KeyK => 29u32,
            Keycode::KeyL => 30u32,
            Keycode::KeyM => 31u32,
            Keycode::KeyN => 32u32,
            Keycode::KeyO => 33u32,
            Keycode::KeyP => 34u32,
            Keycode::KeyQ => 35u32,
            Keycode::KeyR => 36u32,
            Keycode::KeyS => 37u32,
            Keycode::KeyT => 38u32,
            Keycode::KeyU => 39u32,
            Keycode::KeyV => 40u32,
            Keycode::KeyW => 41u32,
            Keycode::KeyX => 42u32,
            Keycode::KeyY => 43u32,
            Keycode::KeyZ => 44u32,
            Keycode::Minus => 45u32,
            Keycode::Period => 46u32,
            Keycode::Quote => 47u32,
            Keycode::Semicolon => 48u32,
            Keycode::Slash => 49u32,
            Keycode::AltLeft => 50u32,
            Keycode::AltRight => 51u32,
            Keycode::Backspace => 52u32,
            Keycode::CapsLock => 53u32,
            Keycode::ContextMenu => 54u32,
            Keycode::ControlLeft => 55u32,
            Keycode::ControlRight => 56u32,
            Keycode::Enter => 57u32,
            Keycode::SuperLeft => 58u32,
            Keycode::SuperRight => 59u32,
            Keycode::ShiftLeft => 60u32,
            Keycode::ShiftRight => 61u32,
            Keycode::Space => 62u32,
            Keycode::Tab => 63u32,
            Keycode::Convert => 64u32,
            Keycode::KanaMode => 65u32,
            Keycode::Lang1 => 66u32,
            Keycode::Lang2 => 67u32,
            Keycode::Lang3 => 68u32,
            Keycode::Lang4 => 69u32,
            Keycode::Lang5 => 70u32,
            Keycode::NonConvert => 71u32,
            Keycode::Delete => 72u32,
            Keycode::End => 73u32,
            Keycode::Help => 74u32,
            Keycode::Home => 75u32,
            Keycode::Insert => 76u32,
            Keycode::PageDown => 77u32,
            Keycode::PageUp => 78u32,
            Keycode::ArrowDown => 79u32,
            Keycode::ArrowLeft => 80u32,
            Keycode::ArrowRight => 81u32,
            Keycode::ArrowUp => 82u32,
            Keycode::NumLock => 83u32,
            Keycode::Numpad0 => 84u32,
            Keycode::Numpad1 => 85u32,
            Keycode::Numpad2 => 86u32,
            Keycode::Numpad3 => 87u32,
            Keycode::Numpad4 => 88u32,
            Keycode::Numpad5 => 89u32,
            Keycode::Numpad6 => 90u32,
            Keycode::Numpad7 => 91u32,
            Keycode::Numpad8 => 92u32,
            Keycode::Numpad9 => 93u32,
            Keycode::NumpadAdd => 94u32,
            Keycode::NumpadBackspace => 95u32,
            Keycode::NumpadClear => 96u32,
            Keycode::NumpadClearEntry => 97u32,
            Keycode::NumpadComma => 98u32,
            Keycode::NumpadDecimal => 99u32,
            Keycode::NumpadDivide => 100u32,
            Keycode::NumpadEnter => 101u32,
            Keycode::NumpadEqual => 102u32,
            Keycode::NumpadHash => 103u32,
            Keycode::NumpadMemoryAdd => 104u32,
            Keycode::NumpadMemoryClear => 105u32,
            Keycode::NumpadMemoryRecall => 106u32,
            Keycode::NumpadMemoryStore => 107u32,
            Keycode::NumpadMemorySubtract => 108u32,
            Keycode::NumpadMultiply => 109u32,
            Keycode::NumpadParenLeft => 110u32,
            Keycode::NumpadParenRight => 111u32,
            Keycode::NumpadStar => 112u32,
            Keycode::NumpadSubtract => 113u32,
            Keycode::Escape => 114u32,
            Keycode::Fn => 115u32,
            Keycode::FnLock => 116u32,
            Keycode::PrintScreen => 117u32,
            Keycode::ScrollLock => 118u32,
            Keycode::Pause => 119u32,
            Keycode::BrowserBack => 120u32,
            Keycode::BrowserFavorites => 121u32,
            Keycode::BrowserForward => 122u32,
            Keycode::BrowserHome => 123u32,
            Keycode::BrowserRefresh => 124u32,
            Keycode::BrowserSearch => 125u32,
            Keycode::BrowserStop => 126u32,
            Keycode::Eject => 127u32,
            Keycode::LaunchApp1 => 128u32,
            Keycode::LaunchApp2 => 129u32,
            Keycode::LaunchMail => 130u32,
            Keycode::MediaPlayPause => 131u32,
            Keycode::MediaSelect => 132u32,
            Keycode::MediaStop => 133u32,
            Keycode::MediaTrackNext => 134u32,
            Keycode::MediaTrackPrevious => 135u32,
            Keycode::Power => 136u32,
            Keycode::Sleep => 137u32,
            Keycode::AudioVolumeDown => 138u32,
            Keycode::AudioVolumeMute => 139u32,
            Keycode::AudioVolumeUp => 140u32,
            Keycode::WakeUp => 141u32,
            Keycode::Meta => 142u32,
            Keycode::Hyper => 143u32,
            Keycode::Turbo => 144u32,
            Keycode::Abort => 145u32,
            Keycode::Resume => 146u32,
            Keycode::Suspend => 147u32,
            Keycode::Again => 148u32,
            Keycode::Copy => 149u32,
            Keycode::Cut => 150u32,
            Keycode::Find => 151u32,
            Keycode::Open => 152u32,
            Keycode::Paste => 153u32,
            Keycode::Props => 154u32,
            Keycode::Select => 155u32,
            Keycode::Undo => 156u32,
            Keycode::Hiragana => 157u32,
            Keycode::Katakana => 158u32,
            Keycode::F1 => 159u32,
            Keycode::F2 => 160u32,
            Keycode::F3 => 161u32,
            Keycode::F4 => 162u32,
            Keycode::F5 => 163u32,
            Keycode::F6 => 164u32,
            Keycode::F7 => 165u32,
            Keycode::F8 => 166u32,
            Keycode::F9 => 167u32,
            Keycode::F10 => 168u32,
            Keycode::F11 => 169u32,
            Keycode::F12 => 170u32,
            Keycode::F13 => 171u32,
            Keycode::F14 => 172u32,
            Keycode::F15 => 173u32,
            Keycode::F16 => 174u32,
            Keycode::F17 => 175u32,
            Keycode::F18 => 176u32,
            Keycode::F19 => 177u32,
            Keycode::F20 => 178u32,
            Keycode::F21 => 179u32,
            Keycode::F22 => 180u32,
            Keycode::F23 => 181u32,
            Keycode::F24 => 182u32,
            Keycode::F25 => 183u32,
            Keycode::F26 => 184u32,
            Keycode::F27 => 185u32,
            Keycode::F28 => 186u32,
            Keycode::F29 => 187u32,
            Keycode::F30 => 188u32,
            Keycode::F31 => 189u32,
            Keycode::F32 => 190u32,
            Keycode::F33 => 191u32,
            Keycode::F34 => 192u32,
            Keycode::F35 => 193u32,
        }
    }

    /// Computes `index`.
    pub fn number(self) -> (n: u32)
        ensures
            n == self.index(),
            n < KEY_COUNT,
    {
        match self {
            Keycode::Backquote => 0,
            Keycode::Backslash => 1,
            Keycode::BracketLeft => 2,
            Keycode::BracketRight => 3,
            Keycode::Comma => 4,
            Keycode::Digit0 => 5,
            Keycode::Digit1 => 6,
            Keycode::Digit2 => 7,
            Keycode::Digit3 => 8,
            Keycode::Digit4 => 9,
            Keycode::Digit5 => 10,
            Keycode::Digit6 => 11,
            Keycode::Digit7 => 12,
            Keycode::Digit8 => 13,
            Keycode::Digit9 => 14,
            Keycode::Equal => 15,
            Keycode::IntlBackslash => 16,
            Keycode::IntlRo => 17,
            Keycode::IntlYen => 18,
            Keycode::KeyA => 19,
            Keycode::KeyB => 20,
            Keycode::KeyC => 21,
            Keycode::KeyD => 22,
            Keycode::KeyE => 23,
            Keycode::KeyF => 24,
            Keycode::KeyG => 25,
            Keycode::KeyH => 26,
            Keycode::KeyI => 27,
            Keycode::KeyJ => 28,
            Keycode::KeyK => 29,
            Keycode::KeyL => 30,
            Keycode::KeyM => 31,
            Keycode::KeyN => 32,
            Keycode::KeyO => 33,
            Keycode::KeyP => 34,
            Keycode::KeyQ => 35,
            Keycode::KeyR => 36,
            Keycode::KeyS => 37,
            Keycode::KeyT => 38,
            Keycode::KeyU => 39,
            Keycode::KeyV => 40,
            Keycode::KeyW => 41,
            Keycode::KeyX => 42,
            Keycode::KeyY => 43,
            Keycode::KeyZ => 44,
            Keycode::Minus => 45,
            Keycode::Period => 46,
            Keycode::Quote => 47,
            Keycode::Semicolon => 48,
            Keycode::Slash => 49,
            Keycode::AltLeft => 50,
            Keycode::AltRight => 51,
            Keycode::Backspace => 52,
            Keycode::CapsLock => 53,
            Keycode::ContextMenu => 54,
            Keycode::ControlLeft => 55,
            Keycode::ControlRight => 56,
            Keycode::Enter => 57,
            Keycode::SuperLeft => 58,
            Keycode::SuperRight => 59,
            Keycode::ShiftLeft => 60,
            Keycode::ShiftRight => 61,
            Keycode::Space => 62,
            Keycode::Tab => 63,
            Keycode::Convert => 64,
            Keycode::KanaMode => 65,
            Keycode::Lang1 => 66,
            Keycode::Lang2 => 67,
            Keycode::Lang3 => 68,
            Keycode::Lang4 => 69,
            Keycode::Lang5 => 70,
            Keycode::NonConvert => 71,
            Keycode::Delete => 72,
            Keycode::End => 73,
            Keycode::Help => 74,
            Keycode::Home => 75,
            Keycode::Insert => 76,
            Keycode::PageDown => 77,
            Keycode::PageUp => 78,
            Keycode::ArrowDown => 79,
            Keycode::ArrowLeft => 80,
            Keycode::ArrowRight => 81,
            Keycode::ArrowUp => 82,
            Keycode::NumLock => 83,
            Keycode::Numpad0 => 84,
            Keycode::Numpad1 => 85,
            Keycode::Numpad2 => 86,
            Keycode::Numpad3 => 87,
            Keycode::Numpad4 => 88,
            Keycode::Numpad5 => 89,
            Keycode::Numpad6 => 90,
            Keycode::Numpad7 => 91,
            Keycode::Numpad8 => 92,
            Keycode::Numpad9 => 93,
            Keycode::NumpadAdd => 94,
            Keycode::NumpadBackspace => 95,
            Keycode::NumpadClear => 96,
            Keycode::NumpadClearEntry => 97,
            Keycode::NumpadComma => 98,
            Keycode::NumpadDecimal => 99,
            Keycode::NumpadDivide => 100,
            Keycode::NumpadEnter => 101,
            Keycode::NumpadEqual => 102,
            Keycode::NumpadHash => 103,
            Keycode::NumpadMemoryAdd => 104,
            Keycode::NumpadMemoryClear => 105,
            Keycode::NumpadMemoryRecall => 106,
            Keycode::NumpadMemoryStore => 107,
            Keycode::NumpadMemorySubtract => 108,
            Keycode::NumpadMultiply => 109,
            Keycode::NumpadParenLeft => 110,
            Keycode::NumpadParenRight => 111,
            Keycode::NumpadStar => 112,
            Keycode::NumpadSubtract => 113,
            Keycode::Escape => 114,
            Keycode::Fn => 115,
            Keycode::FnLock => 116,
            Keycode::PrintScreen => 117,
            Keycode::ScrollLock => 118,
            Keycode::Pause => 119,
            Keycode::BrowserBack => 120,
            Keycode::BrowserFavorites => 121,
            Keycode::BrowserForward => 122,
            Keycode::BrowserHome => 123,
            Keycode::BrowserRefresh => 124,
            Keycode::BrowserSearch => 125,
            Keycode::BrowserStop => 126,
            Keycode::Eject => 127,
            Keycode::LaunchApp1 => 128,
            Keycode::LaunchApp2 => 129,
            Keycode::LaunchMail => 130,
            Keycode::MediaPlayPause => 131,
            Keycode::MediaSelect => 132,
            Keycode::MediaStop => 133,
            Keycode::MediaTrackNext => 134,
            Keycode::MediaTrackPrevious => 135,
            Keycode::Power => 136,
            Keycode::Sleep => 137,
            Keycode::AudioVolumeDown => 138,
            Keycode::AudioVolumeMute => 139,
            Keycode::AudioVolumeUp => 140,
            Keycode::WakeUp => 141,
            Keycode::Meta => 142,
            Keycode::Hyper => 143,
            Keycode::Turbo => 144,
            Keycode::Abort => 145,
            Keycode::Resume => 146,
            Keycode::Suspend => 147,
            Keycode::Again => 148,
            Keycode::Copy => 149,
            Keycode::Cut => 150,
            Keycode::Find => 151,
            Keycode::Open => 152,
            Keycode::Paste => 153,
            Keycode::Props => 154,
            Keycode::Select => 155,
            Keycode::Undo => 156,
            Keycode::Hiragana => 157,
            Keycode::Katakana => 158,
            Keycode::F1 => 159,
            Keycode::F2 => 160,
            Keycode::F3 => 161,
            Keycode::F4 => 162,
            Keycode::F5 => 163,
            Keycode::F6 => 164,
            Keycode::F7 => 165,
            Keycode::F8 => 166,
            Keycode::F9 => 167,
            Keycode::F10 => 168,
            Keycode::F11 => 169,
            Keycode::F12 => 170,
            Keycode::F13 => 171,
            Keycode::F14 => 172,
            Keycode::F15 => 173,
            Keycode::F16 => 174,
            Keycode::F17 => 175,
            Keycode::F18 => 176,
            Keycode::F19 => 177,
            Keycode::F20 => 178,
            Keycode::F21 => 179,
            Keycode::F22 => 180,
            Keycode::F23 => 181,
            Keycode::F24 => 182,
            Keycode::F25 => 183,
            Keycode::F26 => 184,
            Keycode::F27 => 185,
            Keycode::F28 => 186,
            Keycode::F29 => 187,
            Keycode::F30 => 188,
            Keycode::F31 => 189,
            Keycode::F32 => 190,
            Keycode::F33 => 191,
            Keycode::F34 => 192,
            Keycode::F35 => 193,
        }
    }

    /// No two keys share a position.
    pub proof fn lemma_index_injective(a: Keycode, b: Keycode)
        requires
            a.index() == b.index(),
        ensures
            a == b,
    {
    }
}

/// The number of keys in the catalog.
pub const KEY_COUNT: u32 = 194;

} // verus!
