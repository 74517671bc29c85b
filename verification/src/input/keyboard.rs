//! Key symbols, and the physical and logical keys they stand for.
//!
//! A key symbol is the 32-bit number the keyboard layout assigns to a key
//! press. Two keys are read off it. The physical key code comes from
//! a fixed table. The logical key is the character the symbol stands for when
//! it has one, and an entry of a second fixed table otherwise.
//!
//! A symbol that neither has a character nor stands in the table is reported
//! as `Unidentified`, carrying the symbol. It is never mapped to another key.

use vstd::prelude::*;

use crate::events::{ButtonState, WindowEvent};
use crate::smithay_windows::{SmithayWindows, WindowsView};
use crate::state::{EventOutcome, RunnerView, SmithayRunnerState};
use crate::{Entity, SurfaceId};

verus! {

/// A physical key, named after its position on a US keyboard.
#[derive(Clone, Copy, Debug, PartialEq, Eq, Hash, Structural)]
pub enum KeyCode {
    KeyA,
    KeyB,
    KeyC,
    KeyD,
    KeyE,
    KeyF,
    KeyG,
    KeyH,
    KeyI,
    KeyJ,
    KeyK,
    KeyL,
    KeyM,
    KeyN,
    KeyO,
    KeyP,
    KeyQ,
    KeyR,
    KeyS,
    KeyT,
    KeyU,
    KeyV,
    KeyW,
    KeyX,
    KeyY,
    KeyZ,
    Digit0,
    Digit1,
    Digit2,
    Digit3,
    Digit4,
    Digit5,
    Digit6,
    Digit7,
    Digit8,
    Digit9,
    F1,
    F2,
    F3,
    F4,
    F5,
    F6,
    F7,
    F8,
    F9,
    F10,
    F11,
    F12,
    F13,
    F14,
    F15,
    F16,
    F17,
    F18,
    F19,
    F20,
    F21,
    F22,
    F23,
    F24,
    Numpad0,
    Numpad1,
    Numpad2,
    Numpad3,
    Numpad4,
    Numpad5,
    Numpad6,
    Numpad7,
    Numpad8,
    Numpad9,
    ArrowLeft,
    ArrowRight,
    ArrowUp,
    ArrowDown,
    ShiftLeft,
    ShiftRight,
    ControlLeft,
    ControlRight,
    AltLeft,
    AltRight,
    SuperLeft,
    SuperRight,
    CapsLock,
    NumLock,
    ScrollLock,
    Home,
    End,
    PageUp,
    PageDown,
    Insert,
    Delete,
    Backspace,
    Space,
    Tab,
    Enter,
    Escape,
    NumpadAdd,
    NumpadSubtract,
    NumpadMultiply,
    NumpadDivide,
    NumpadDecimal,
    NumpadComma,
    NumpadEqual,
    Backquote,
    Minus,
    Equal,
    BracketLeft,
    BracketRight,
    Backslash,
    Semicolon,
    Quote,
    Comma,
    Period,
    Slash,
    PrintScreen,
    Pause,
    ContextMenu,
    /// A key symbol outside the table, kept as it came.
    Unidentified(u32),
}

/// A logical key: what the key means under the active layout.
#[derive(Clone, Copy, Debug, PartialEq, Eq, Hash, Structural)]
pub enum Key {
    /// The character the key produces.
    Character(char),
    F1,
    F2,
    F3,
    F4,
    F5,
    F6,
    F7,
    F8,
    F9,
    F10,
    F11,
    F12,
    F13,
    F14,
    F15,
    F16,
    F17,
    F18,
    F19,
    F20,
    F21,
    F22,
    F23,
    F24,
    Escape,
    Pause,
    ScrollLock,
    PrintScreen,
    Insert,
    Delete,
    Home,
    End,
    PageUp,
    PageDown,
    Backspace,
    Enter,
    Tab,
    ContextMenu,
    ArrowLeft,
    ArrowRight,
    ArrowUp,
    ArrowDown,
    Shift,
    Control,
    Alt,
    Super,
    CapsLock,
    NumLock,
    /// A key symbol without a character and outside the table, kept as it came.
    Unidentified(u32),
}

/// The key symbol `space`.
pub const XK_SPACE: u32 = 0x0020;

/// The key symbol `apostrophe`.
pub const XK_APOSTROPHE: u32 = 0x0027;

/// The key symbol `comma`.
pub const XK_COMMA: u32 = 0x002c;

/// The key symbol `minus`.
pub const XK_MINUS: u32 = 0x002d;

/// The key symbol `period`.
pub const XK_PERIOD: u32 = 0x002e;

/// The key symbol `slash`.
pub const XK_SLASH: u32 = 0x002f;

/// The key symbol `0`.
pub const XK_DIGIT_0: u32 = 0x0030;

/// The key symbol `9`.
pub const XK_DIGIT_9: u32 = 0x0039;

/// The key symbol `semicolon`.
pub const XK_SEMICOLON: u32 = 0x003b;

/// The key symbol `equal`.
pub const XK_EQUAL: u32 = 0x003d;

/// The key symbol `A`.
pub const XK_UPPER_A: u32 = 0x0041;

/// The key symbol `Z`.
pub const XK_UPPER_Z: u32 = 0x005a;

/// The key symbol `bracketleft`.
pub const XK_BRACKET_LEFT: u32 = 0x005b;

/// The key symbol `backslash`.
pub const XK_BACKSLASH: u32 = 0x005c;

/// The key symbol `bracketright`.
pub const XK_BRACKET_RIGHT: u32 = 0x005d;

/// The key symbol `grave`.
pub const XK_GRAVE: u32 = 0x0060;

/// The key symbol `a`.
pub const XK_LOWER_A: u32 = 0x0061;

/// The key symbol `z`.
pub const XK_LOWER_Z: u32 = 0x007a;

/// The key symbol `BackSpace`.
pub const XK_BACKSPACE: u32 = 0xff08;

/// The key symbol `Tab`.
pub const XK_TAB: u32 = 0xff09;

/// The key symbol `Return`.
pub const XK_RETURN: u32 = 0xff0d;

/// The key symbol `Pause`.
pub const XK_PAUSE: u32 = 0xff13;

/// The key symbol `Scroll_Lock`.
pub const XK_SCROLL_LOCK: u32 = 0xff14;

/// The key symbol `Escape`.
pub const XK_ESCAPE: u32 = 0xff1b;

/// The key symbol `Home`.
pub const XK_HOME: u32 = 0xff50;

/// The key symbol `Left`.
pub const XK_LEFT: u32 = 0xff51;

/// The key symbol `Up`.
pub const XK_UP: u32 = 0xff52;

/// The key symbol `Right`.
pub const XK_RIGHT: u32 = 0xff53;

/// The key symbol `Down`.
pub const XK_DOWN: u32 = 0xff54;

/// The key symbol `Page_Up`.
pub const XK_PAGE_UP: u32 = 0xff55;

/// The key symbol `Page_Down`.
pub const XK_PAGE_DOWN: u32 = 0xff56;

/// The key symbol `End`.
pub const XK_END: u32 = 0xff57;

/// The key symbol `Print`.
pub const XK_PRINT: u32 = 0xff61;

/// The key symbol `Insert`.
pub const XK_INSERT: u32 = 0xff63;

/// The key symbol `Menu`.
pub const XK_MENU: u32 = 0xff67;

/// The key symbol `Num_Lock`.
pub const XK_NUM_LOCK: u32 = 0xff7f;

/// The key symbol `KP_Enter`.
pub const XK_KP_ENTER: u32 = 0xff8d;

/// The key symbol `KP_Multiply`.
pub const XK_KP_MULTIPLY: u32 = 0xffaa;

/// The key symbol `KP_Add`.
pub const XK_KP_ADD: u32 = 0xffab;

/// The key symbol `KP_Separator`.
pub const XK_KP_SEPARATOR: u32 = 0xffac;

/// The key symbol `KP_Subtract`.
pub const XK_KP_SUBTRACT: u32 = 0xffad;

/// The key symbol `KP_Decimal`.
pub const XK_KP_DECIMAL: u32 = 0xffae;

/// The key symbol `KP_Divide`.
pub const XK_KP_DIVIDE: u32 = 0xffaf;

/// The key symbol `KP_0`.
pub const XK_KP_0: u32 = 0xffb0;

/// The key symbol `KP_9`.
pub const XK_KP_9: u32 = 0xffb9;

/// The key symbol `KP_Equal`.
pub const XK_KP_EQUAL: u32 = 0xffbd;

/// The key symbol `F1`.
pub const XK_F1: u32 = 0xffbe;

/// The key symbol `F24`.
pub const XK_F24: u32 = 0xffd5;

/// The key symbol `Shift_L`.
pub const XK_SHIFT_L: u32 = 0xffe1;

/// The key symbol `Shift_R`.
pub const XK_SHIFT_R: u32 = 0xffe2;

/// The key symbol `Control_L`.
pub const XK_CONTROL_L: u32 = 0xffe3;

/// The key symbol `Control_R`.
pub const XK_CONTROL_R: u32 = 0xffe4;

/// The key symbol `Caps_Lock`.
pub const XK_CAPS_LOCK: u32 = 0xffe5;

/// The key symbol `Meta_L`.
pub const XK_META_L: u32 = 0xffe7;

/// The key symbol `Meta_R`.
pub const XK_META_R: u32 = 0xffe8;

/// The key symbol `Alt_L`.
pub const XK_ALT_L: u32 = 0xffe9;

/// The key symbol `Alt_R`.
pub const XK_ALT_R: u32 = 0xffea;

/// The key symbol `Super_L`.
pub const XK_SUPER_L: u32 = 0xffeb;

/// The key symbol `Super_R`.
pub const XK_SUPER_R: u32 = 0xffec;

/// The key symbol `Delete`.
pub const XK_DELETE: u32 = 0xffff;

/// The key codes of the letters, `A` first.
pub open spec fn letter_codes() -> Seq<KeyCode> {
    seq![
        KeyCode::KeyA,
        KeyCode::KeyB,
        KeyCode::KeyC,
        KeyCode::KeyD,
        KeyCode::KeyE,
        KeyCode::KeyF,
        KeyCode::KeyG,
        KeyCode::KeyH,
        KeyCode::KeyI,
        KeyCode::KeyJ,
        KeyCode::KeyK,
        KeyCode::KeyL,
        KeyCode::KeyM,
        KeyCode::KeyN,
        KeyCode::KeyO,
        KeyCode::KeyP,
        KeyCode::KeyQ,
        KeyCode::KeyR,
        KeyCode::KeyS,
        KeyCode::KeyT,
        KeyCode::KeyU,
        KeyCode::KeyV,
        KeyCode::KeyW,
        KeyCode::KeyX,
        KeyCode::KeyY,
        KeyCode::KeyZ,
    ]
}

/// The key codes of the digit row, `0` first.
pub open spec fn digit_codes() -> Seq<KeyCode> {
    seq![
        KeyCode::Digit0,
        KeyCode::Digit1,
        KeyCode::Digit2,
        KeyCode::Digit3,
        KeyCode::Digit4,
        KeyCode::Digit5,
        KeyCode::Digit6,
        KeyCode::Digit7,
        KeyCode::Digit8,
        KeyCode::Digit9,
    ]
}

/// The key codes of the function keys, `F1` first.
pub open spec fn function_codes() -> Seq<KeyCode> {
    seq![
        KeyCode::F1,
        KeyCode::F2,
        KeyCode::F3,
        KeyCode::F4,
        KeyCode::F5,
        KeyCode::F6,
        KeyCode::F7,
        KeyCode::F8,
        KeyCode::F9,
        KeyCode::F10,
        KeyCode::F11,
        KeyCode::F12,
        KeyCode::F13,
        KeyCode::F14,
        KeyCode::F15,
        KeyCode::F16,
        KeyCode::F17,
        KeyCode::F18,
        KeyCode::F19,
        KeyCode::F20,
        KeyCode::F21,
        KeyCode::F22,
        KeyCode::F23,
        KeyCode::F24,
    ]
}

/// The key codes of the keypad digits, `0` first.
pub open spec fn numpad_codes() -> Seq<KeyCode> {
    seq![
        KeyCode::Numpad0,
        KeyCode::Numpad1,
        KeyCode::Numpad2,
        KeyCode::Numpad3,
        KeyCode::Numpad4,
        KeyCode::Numpad5,
        KeyCode::Numpad6,
        KeyCode::Numpad7,
        KeyCode::Numpad8,
        KeyCode::Numpad9,
    ]
}

/// The logical function keys, `F1` first.
pub open spec fn function_keys() -> Seq<Key> {
    seq![
        Key::F1,
        Key::F2,
        Key::F3,
        Key::F4,
        Key::F5,
        Key::F6,
        Key::F7,
        Key::F8,
        Key::F9,
        Key::F10,
        Key::F11,
        Key::F12,
        Key::F13,
        Key::F14,
        Key::F15,
        Key::F16,
        Key::F17,
        Key::F18,
        Key::F19,
        Key::F20,
        Key::F21,
        Key::F22,
        Key::F23,
        Key::F24,
    ]
}

/// The physical key a key symbol stands for.
///
/// Letters map to their key whatever their case. Digits, function keys and
/// keypad digits map in order. The other keys are listed one by one. A symbol
/// outside all of these is `Unidentified`.
pub open spec fn key_code_of(keysym: u32) -> KeyCode {
    if XK_UPPER_A <= keysym <= XK_UPPER_Z {
        letter_codes()[keysym - XK_UPPER_A]
    } else if XK_LOWER_A <= keysym <= XK_LOWER_Z {
        letter_codes()[keysym - XK_LOWER_A]
    } else if XK_DIGIT_0 <= keysym <= XK_DIGIT_9 {
        digit_codes()[keysym - XK_DIGIT_0]
    } else if XK_F1 <= keysym <= XK_F24 {
        function_codes()[keysym - XK_F1]
    } else if XK_KP_0 <= keysym <= XK_KP_9 {
        numpad_codes()[keysym - XK_KP_0]
    } else {
        named_key_code_of(keysym)
    }
}

/// The physical key of a symbol that belongs to none of the ordered ranges.
pub open spec fn named_key_code_of(keysym: u32) -> KeyCode {
    if keysym == XK_LEFT {
        KeyCode::ArrowLeft
    } else if keysym == XK_RIGHT {
        KeyCode::ArrowRight
    } else if keysym == XK_UP {
        KeyCode::ArrowUp
    } else if keysym == XK_DOWN {
        KeyCode::ArrowDown
    } else if keysym == XK_SHIFT_L {
        KeyCode::ShiftLeft
    } else if keysym == XK_SHIFT_R {
        KeyCode::ShiftRight
    } else if keysym == XK_CONTROL_L {
        KeyCode::ControlLeft
    } else if keysym == XK_CONTROL_R {
        KeyCode::ControlRight
    } else if keysym == XK_ALT_L {
        KeyCode::AltLeft
    } else if keysym == XK_ALT_R {
        KeyCode::AltRight
    } else if keysym == XK_SUPER_L || keysym == XK_META_L {
        KeyCode::SuperLeft
    } else if keysym == XK_SUPER_R || keysym == XK_META_R {
        KeyCode::SuperRight
    } else if keysym == XK_CAPS_LOCK {
        KeyCode::CapsLock
    } else if keysym == XK_NUM_LOCK {
        KeyCode::NumLock
    } else if keysym == XK_SCROLL_LOCK {
        KeyCode::ScrollLock
    } else if keysym == XK_HOME {
        KeyCode::Home
    } else if keysym == XK_END {
        KeyCode::End
    } else if keysym == XK_PAGE_UP {
        KeyCode::PageUp
    } else if keysym == XK_PAGE_DOWN {
        KeyCode::PageDown
    } else if keysym == XK_INSERT {
        KeyCode::Insert
    } else if keysym == XK_DELETE {
        KeyCode::Delete
    } else if keysym == XK_BACKSPACE {
        KeyCode::Backspace
    } else if keysym == XK_SPACE {
        KeyCode::Space
    } else if keysym == XK_TAB {
        KeyCode::Tab
    } else if keysym == XK_RETURN || keysym == XK_KP_ENTER {
        KeyCode::Enter
    } else if keysym == XK_ESCAPE {
        KeyCode::Escape
    } else if keysym == XK_KP_ADD {
        KeyCode::NumpadAdd
    } else if keysym == XK_KP_SUBTRACT {
        KeyCode::NumpadSubtract
    } else if keysym == XK_KP_MULTIPLY {
        KeyCode::NumpadMultiply
    } else if keysym == XK_KP_DIVIDE {
        KeyCode::NumpadDivide
    } else if keysym == XK_KP_DECIMAL {
        KeyCode::NumpadDecimal
    } else if keysym == XK_KP_SEPARATOR {
        KeyCode::NumpadComma
    } else if keysym == XK_KP_EQUAL {
        KeyCode::NumpadEqual
    } else if keysym == XK_GRAVE {
        KeyCode::Backquote
    } else if keysym == XK_MINUS {
        KeyCode::Minus
    } else if keysym == XK_EQUAL {
        KeyCode::Equal
    } else if keysym == XK_BRACKET_LEFT {
        KeyCode::BracketLeft
    } else if keysym == XK_BRACKET_RIGHT {
        KeyCode::BracketRight
    } else if keysym == XK_BACKSLASH {
        KeyCode::Backslash
    } else if keysym == XK_SEMICOLON {
        KeyCode::Semicolon
    } else if keysym == XK_APOSTROPHE {
        KeyCode::Quote
    } else if keysym == XK_COMMA {
        KeyCode::Comma
    } else if keysym == XK_PERIOD {
        KeyCode::Period
    } else if keysym == XK_SLASH {
        KeyCode::Slash
    } else if keysym == XK_PRINT {
        KeyCode::PrintScreen
    } else if keysym == XK_PAUSE {
        KeyCode::Pause
    } else if keysym == XK_MENU {
        KeyCode::ContextMenu
    } else {
        KeyCode::Unidentified(keysym)
    }
}

/// The logical key of a symbol that has no character.
///
/// Function keys map in order; navigation, editing and modifier keys are
/// listed one by one, the left and right modifier giving the same key. Any
/// other symbol is `Unidentified`.
pub open spec fn named_key_of(keysym: u32) -> Key {
    if XK_F1 <= keysym <= XK_F24 {
        function_keys()[keysym - XK_F1]
    } else if keysym == XK_ESCAPE {
        Key::Escape
    } else if keysym == XK_PAUSE {
        Key::Pause
    } else if keysym == XK_SCROLL_LOCK {
        Key::ScrollLock
    } else if keysym == XK_PRINT {
        Key::PrintScreen
    } else if keysym == XK_INSERT {
        Key::Insert
    } else if keysym == XK_DELETE {
        Key::Delete
    } else if keysym == XK_HOME {
        Key::Home
    } else if keysym == XK_END {
        Key::End
    } else if keysym == XK_PAGE_UP {
        Key::PageUp
    } else if keysym == XK_PAGE_DOWN {
        Key::PageDown
    } else if keysym == XK_BACKSPACE {
        Key::Backspace
    } else if keysym == XK_RETURN || keysym == XK_KP_ENTER {
        Key::Enter
    } else if keysym == XK_TAB {
        Key::Tab
    } else if keysym == XK_MENU {
        Key::ContextMenu
    } else if keysym == XK_LEFT {
        Key::ArrowLeft
    } else if keysym == XK_RIGHT {
        Key::ArrowRight
    } else if keysym == XK_UP {
        Key::ArrowUp
    } else if keysym == XK_DOWN {
        Key::ArrowDown
    } else if keysym == XK_SHIFT_L || keysym == XK_SHIFT_R {
        Key::Shift
    } else if keysym == XK_CONTROL_L || keysym == XK_CONTROL_R {
        Key::Control
    } else if keysym == XK_ALT_L || keysym == XK_ALT_R {
        Key::Alt
    } else if keysym == XK_SUPER_L || keysym == XK_META_L || keysym == XK_SUPER_R || keysym == XK_META_R {
        Key::Super
    } else if keysym == XK_CAPS_LOCK {
        Key::CapsLock
    } else if keysym == XK_NUM_LOCK {
        Key::NumLock
    } else {
        Key::Unidentified(keysym)
    }
}

/// The logical key of a symbol, given the character the layout resolves it
/// to: that character where there is one, the named key otherwise.
pub open spec fn logical_key_of(keysym: u32, key_char: Option<char>) -> Key {
    match key_char {
        Some(c) => Key::Character(c),
        None => named_key_of(keysym),
    }
}

/// The keyboard event for a key symbol on a window.
pub open spec fn keyboard_event_of<P>(
    keysym: u32,
    key_char: Option<char>,
    window: Entity,
    state: ButtonState,
) -> WindowEvent<P> {
    WindowEvent::KeyboardInput {
        window,
        key_code: key_code_of(keysym),
        logical_key: logical_key_of(keysym, key_char),
        state,
        repeat: false,
    }
}

/// The character `xkeysym` resolves a key symbol to, if any.
pub uninterp spec fn keysym_char(keysym: u32) -> Option<char>;

/// Calls `xkeysym::Keysym::key_char`, which follows `xkb_keysym_to_utf32`:
/// a lookup that depends on the symbol alone. The contract only names the
/// result; nothing is claimed about which symbols have a character.
#[verifier::external_body]
pub(crate) fn key_char(keysym: u32) -> (r: Option<char>)
    ensures
        r == keysym_char(keysym),
{
    xkeysym::Keysym::new(keysym).key_char()
}

/// The key code of the letter at `index`, counted from `A`.
fn letter_code(index: u32) -> (r: KeyCode)
    requires
        index < 26,
    ensures
        r == letter_codes()[index as int],
{
    match index {
        0 => KeyCode::KeyA,
        1 => KeyCode::KeyB,
        2 => KeyCode::KeyC,
        3 => KeyCode::KeyD,
        4 => KeyCode::KeyE,
        5 => KeyCode::KeyF,
        6 => KeyCode::KeyG,
        7 => KeyCode::KeyH,
        8 => KeyCode::KeyI,
        9 => KeyCode::KeyJ,
        10 => KeyCode::KeyK,
        11 => KeyCode::KeyL,
        12 => KeyCode::KeyM,
        13 => KeyCode::KeyN,
        14 => KeyCode::KeyO,
        15 => KeyCode::KeyP,
        16 => KeyCode::KeyQ,
        17 => KeyCode::KeyR,
        18 => KeyCode::KeyS,
        19 => KeyCode::KeyT,
        20 => KeyCode::KeyU,
        21 => KeyCode::KeyV,
        22 => KeyCode::KeyW,
        23 => KeyCode::KeyX,
        24 => KeyCode::KeyY,
        _ => KeyCode::KeyZ,
    }
}

/// The key code of the digit `index`.
fn digit_code(index: u32) -> (r: KeyCode)
    requires
        index < 10,
    ensures
        r == digit_codes()[index as int],
{
    match index {
        0 => KeyCode::Digit0,
        1 => KeyCode::Digit1,
        2 => KeyCode::Digit2,
        3 => KeyCode::Digit3,
        4 => KeyCode::Digit4,
        5 => KeyCode::Digit5,
        6 => KeyCode::Digit6,
        7 => KeyCode::Digit7,
        8 => KeyCode::Digit8,
        _ => KeyCode::Digit9,
    }
}

/// The key code of the function key at `index`, counted from `F1`.
fn function_code(index: u32) -> (r: KeyCode)
    requires
        index < 24,
    ensures
        r == function_codes()[index as int],
{
    match index {
        0 => KeyCode::F1,
        1 => KeyCode::F2,
        2 => KeyCode::F3,
        3 => KeyCode::F4,
        4 => KeyCode::F5,
        5 => KeyCode::F6,
        6 => KeyCode::F7,
        7 => KeyCode::F8,
        8 => KeyCode::F9,
        9 => KeyCode::F10,
        10 => KeyCode::F11,
        11 => KeyCode::F12,
        12 => KeyCode::F13,
        13 => KeyCode::F14,
        14 => KeyCode::F15,
        15 => KeyCode::F16,
        16 => KeyCode::F17,
        17 => KeyCode::F18,
        18 => KeyCode::F19,
        19 => KeyCode::F20,
        20 => KeyCode::F21,
        21 => KeyCode::F22,
        22 => KeyCode::F23,
        _ => KeyCode::F24,
    }
}

/// The key code of the keypad digit `index`.
fn numpad_code(index: u32) -> (r: KeyCode)
    requires
        index < 10,
    ensures
        r == numpad_codes()[index as int],
{
    match index {
        0 => KeyCode::Numpad0,
        1 => KeyCode::Numpad1,
        2 => KeyCode::Numpad2,
        3 => KeyCode::Numpad3,
        4 => KeyCode::Numpad4,
        5 => KeyCode::Numpad5,
        6 => KeyCode::Numpad6,
        7 => KeyCode::Numpad7,
        8 => KeyCode::Numpad8,
        _ => KeyCode::Numpad9,
    }
}

/// The logical function key at `index`, counted from `F1`.
fn function_key(index: u32) -> (r: Key)
    requires
        index < 24,
    ensures
        r == function_keys()[index as int],
{
    match index {
        0 => Key::F1,
        1 => Key::F2,
        2 => Key::F3,
        3 => Key::F4,
        4 => Key::F5,
        5 => Key::F6,
        6 => Key::F7,
        7 => Key::F8,
        8 => Key::F9,
        9 => Key::F10,
        10 => Key::F11,
        11 => Key::F12,
        12 => Key::F13,
        13 => Key::F14,
        14 => Key::F15,
        15 => Key::F16,
        16 => Key::F17,
        17 => Key::F18,
        18 => Key::F19,
        19 => Key::F20,
        20 => Key::F21,
        21 => Key::F22,
        22 => Key::F23,
        _ => Key::F24,
    }
}

/// Maps a key symbol to a physical key code.
///
/// Total. A symbol outside the table comes back as `Unidentified` with the
/// symbol inside, so no symbol is ever taken for another key.
pub fn convert_to_key_code(keysym: u32) -> (r: KeyCode)
    ensures
        r == key_code_of(keysym),
        r is Unidentified ==> r == KeyCode::Unidentified(keysym),
{
    match keysym {
        XK_UPPER_A..=XK_UPPER_Z => letter_code(keysym - XK_UPPER_A),
        XK_LOWER_A..=XK_LOWER_Z => letter_code(keysym - XK_LOWER_A),
        XK_DIGIT_0..=XK_DIGIT_9 => digit_code(keysym - XK_DIGIT_0),
        XK_F1..=XK_F24 => function_code(keysym - XK_F1),
        XK_KP_0..=XK_KP_9 => numpad_code(keysym - XK_KP_0),
        XK_LEFT => KeyCode::ArrowLeft,
        XK_RIGHT => KeyCode::ArrowRight,
        XK_UP => KeyCode::ArrowUp,
        XK_DOWN => KeyCode::ArrowDown,
        XK_SHIFT_L => KeyCode::ShiftLeft,
        XK_SHIFT_R => KeyCode::ShiftRight,
        XK_CONTROL_L => KeyCode::ControlLeft,
        XK_CONTROL_R => KeyCode::ControlRight,
        XK_ALT_L => KeyCode::AltLeft,
        XK_ALT_R => KeyCode::AltRight,
        XK_SUPER_L | XK_META_L => KeyCode::SuperLeft,
        XK_SUPER_R | XK_META_R => KeyCode::SuperRight,
        XK_CAPS_LOCK => KeyCode::CapsLock,
        XK_NUM_LOCK => KeyCode::NumLock,
        XK_SCROLL_LOCK => KeyCode::ScrollLock,
        XK_HOME => KeyCode::Home,
        XK_END => KeyCode::End,
        XK_PAGE_UP => KeyCode::PageUp,
        XK_PAGE_DOWN => KeyCode::PageDown,
        XK_INSERT => KeyCode::Insert,
        XK_DELETE => KeyCode::Delete,
        XK_BACKSPACE => KeyCode::Backspace,
        XK_SPACE => KeyCode::Space,
        XK_TAB => KeyCode::Tab,
        XK_RETURN | XK_KP_ENTER => KeyCode::Enter,
        XK_ESCAPE => KeyCode::Escape,
        XK_KP_ADD => KeyCode::NumpadAdd,
        XK_KP_SUBTRACT => KeyCode::NumpadSubtract,
        XK_KP_MULTIPLY => KeyCode::NumpadMultiply,
        XK_KP_DIVIDE => KeyCode::NumpadDivide,
        XK_KP_DECIMAL => KeyCode::NumpadDecimal,
        XK_KP_SEPARATOR => KeyCode::NumpadComma,
        XK_KP_EQUAL => KeyCode::NumpadEqual,
        XK_GRAVE => KeyCode::Backquote,
        XK_MINUS => KeyCode::Minus,
        XK_EQUAL => KeyCode::Equal,
        XK_BRACKET_LEFT => KeyCode::BracketLeft,
        XK_BRACKET_RIGHT => KeyCode::BracketRight,
        XK_BACKSLASH => KeyCode::Backslash,
        XK_SEMICOLON => KeyCode::Semicolon,
        XK_APOSTROPHE => KeyCode::Quote,
        XK_COMMA => KeyCode::Comma,
        XK_PERIOD => KeyCode::Period,
        XK_SLASH => KeyCode::Slash,
        XK_PRINT => KeyCode::PrintScreen,
        XK_PAUSE => KeyCode::Pause,
        XK_MENU => KeyCode::ContextMenu,
        _ => KeyCode::Unidentified(keysym),
    }
}

/// Maps a key symbol to a logical key, given the character the
/// layout resolves the symbol to.
///
/// The character wins where there is one. Without a character the named keys
/// apply, and a symbol that is none of them comes back as `Unidentified` with
/// the symbol inside.
pub fn convert_to_logical_key(keysym: u32, key_char: Option<char>) -> (r: Key)
    ensures
        r == logical_key_of(keysym, key_char),
        key_char matches Some(c) ==> r == Key::Character(c),
        r is Unidentified ==> key_char is None && r == Key::Unidentified(keysym),
{
    if let Some(c) = key_char {
        return Key::Character(c);
    }
    match keysym {
        XK_F1..=XK_F24 => function_key(keysym - XK_F1),
        XK_ESCAPE => Key::Escape,
        XK_PAUSE => Key::Pause,
        XK_SCROLL_LOCK => Key::ScrollLock,
        XK_PRINT => Key::PrintScreen,
        XK_INSERT => Key::Insert,
        XK_DELETE => Key::Delete,
        XK_HOME => Key::Home,
        XK_END => Key::End,
        XK_PAGE_UP => Key::PageUp,
        XK_PAGE_DOWN => Key::PageDown,
        XK_BACKSPACE => Key::Backspace,
        XK_RETURN | XK_KP_ENTER => Key::Enter,
        XK_TAB => Key::Tab,
        XK_MENU => Key::ContextMenu,
        XK_LEFT => Key::ArrowLeft,
        XK_RIGHT => Key::ArrowRight,
        XK_UP => Key::ArrowUp,
        XK_DOWN => Key::ArrowDown,
        XK_SHIFT_L | XK_SHIFT_R => Key::Shift,
        XK_CONTROL_L | XK_CONTROL_R => Key::Control,
        XK_ALT_L | XK_ALT_R => Key::Alt,
        XK_SUPER_L | XK_META_L | XK_SUPER_R | XK_META_R => Key::Super,
        XK_CAPS_LOCK => Key::CapsLock,
        XK_NUM_LOCK => Key::NumLock,
        _ => Key::Unidentified(keysym),
    }
}

/// Builds the keyboard event for a key symbol on a window, given the
/// character the layout resolves the symbol to. The event never repeats.
pub fn convert_keyboard_event<P>(
    keysym: u32,
    key_char: Option<char>,
    entity: Entity,
    state: ButtonState,
) -> (r: WindowEvent<P>)
    ensures
        r == keyboard_event_of::<P>(keysym, key_char, entity, state),
{
    WindowEvent::KeyboardInput {
        window: entity,
        key_code: convert_to_key_code(keysym),
        logical_key: convert_to_logical_key(keysym, key_char),
        state,
        repeat: false,
    }
}

impl<P> RunnerView<P> {
    /// The state after keyboard focus entered `surface`.
    pub open spec fn enter(self, surface: SurfaceId) -> Self {
        RunnerView { focus: Some(surface), ..self }
    }

    /// The state after keyboard focus left `surface`: the focus is cleared
    /// if it was on that surface, and stays where it is otherwise.
    pub open spec fn leave(self, surface: SurfaceId) -> Self {
        if self.focus == Some(surface) {
            RunnerView { focus: None, ..self }
        } else {
            self
        }
    }

    /// The scene window a key goes to: that of the focused surface.
    pub open spec fn key_target<L, S>(self, windows: WindowsView<L, S>) -> Option<Entity> {
        match self.focus {
            Some(surface) => windows.lookup_entity(surface),
            None => None,
        }
    }

    /// What becomes of a key: dropped without focus, dropped where the
    /// focused surface belongs to no scene window, queued otherwise.
    pub open spec fn key_outcome<L, S>(self, windows: WindowsView<L, S>) -> EventOutcome {
        match self.focus {
            None => EventOutcome::NoKeyboardFocus,
            Some(surface) => if windows.lookup_entity(surface) is Some {
                EventOutcome::Queued
            } else {
                EventOutcome::UnknownSurface
            },
        }
    }

    /// The state after a key went down or came up: its event is at the end
    /// of the buffer if the key has a target, and nothing changed otherwise.
    pub open spec fn key_input<L, S>(
        self,
        windows: WindowsView<L, S>,
        keysym: u32,
        key_char: Option<char>,
        state: ButtonState,
    ) -> Self {
        match self.key_target(windows) {
            Some(window) => self.send(keyboard_event_of(keysym, key_char, window, state)),
            None => self,
        }
    }

    /// A leave for another surface than the focused one changes nothing;
    /// only the leave of the focused surface clears the focus.
    pub proof fn lemma_focus_guard(self, entered: SurfaceId, left: SurfaceId)
        ensures
            left != entered ==> self.enter(entered).leave(left) == self.enter(entered),
            self.enter(entered).leave(left).focus == if left == entered {
                None
            } else {
                Some(entered)
            },
    {
    }
}

impl<P> SmithayRunnerState<P> {
    /// Keyboard focus entered a surface: that surface has the focus now.
    pub fn enter(&mut self, surface: SurfaceId)
        ensures
            final(self)@ == old(self)@.enter(surface),
    {
        self.active_keyboard_surface = Some(surface);
    }

    /// Keyboard focus left a surface.
    ///
    /// Clears the focus only if it is on that surface. Enter and leave can
    /// arrive out of order, and a late leave of an earlier surface must not
    /// take the focus from the current one.
    pub fn leave(&mut self, surface: SurfaceId)
        ensures
            final(self)@ == old(self)@.leave(surface),
    {
        if let Some(active) = self.active_keyboard_surface {
            if active == surface {
                self.active_keyboard_surface = None;
            }
        }
    }

    /// A key went down or came up; `key_char` is the character the layout
    /// resolves the key symbol to.
    ///
    /// The event goes to the scene window of the focused surface. Without
    /// focus, or where the focused surface belongs to no scene window, the
    /// key is dropped and the outcome says why.
    pub fn key_input<L, S>(
        &mut self,
        windows: &SmithayWindows<L, S>,
        keysym: u32,
        key_char: Option<char>,
        state: ButtonState,
    ) -> (r: EventOutcome)
        ensures
            final(self)@ == old(self)@.key_input(windows@, keysym, key_char, state),
            r == old(self)@.key_outcome(windows@),
    {
        match self.active_keyboard_surface {
            None => EventOutcome::NoKeyboardFocus,
            Some(surface) => match windows.lookup_entity(surface) {
                None => EventOutcome::UnknownSurface,
                Some(window) => {
                    self.send(convert_keyboard_event(keysym, key_char, window, state));
                    EventOutcome::Queued
                },
            },
        }
    }

    /// A key was pressed.
    ///
    /// Resolves the key symbol's character and queues the event as
    /// `key_input` does.
    pub fn press_key<L, S>(&mut self, windows: &SmithayWindows<L, S>, keysym: u32) -> (r:
        EventOutcome)
        ensures
            final(self)@ == old(self)@.key_input(
                windows@,
                keysym,
                keysym_char(keysym),
                ButtonState::Pressed,
            ),
            r == old(self)@.key_outcome(windows@),
    {
        let resolved = key_char(keysym);
        self.key_input(windows, keysym, resolved, ButtonState::Pressed)
    }

    /// A key was released.
    ///
    /// Resolves the key symbol's character and queues the event as
    /// `key_input` does.
    pub fn release_key<L, S>(&mut self, windows: &SmithayWindows<L, S>, keysym: u32) -> (r:
        EventOutcome)
        ensures
            final(self)@ == old(self)@.key_input(
                windows@,
                keysym,
                keysym_char(keysym),
                ButtonState::Released,
            ),
            r == old(self)@.key_outcome(windows@),
    {
        let resolved = key_char(keysym);
        self.key_input(windows, keysym, resolved, ButtonState::Released)
    }
}

} // verus!
