//! Hotkey bindings: the keys that can be bound, the `Ctrl+Alt+F8` syntax of
//! the settings file, and the decisions taken on hotkey events.

use vstd::prelude::*;
use crate::text;

verus! {

/// The keys that a hotkey can be bound to.
#[derive(Clone, Copy, Debug, PartialEq, Eq, Structural)]
pub enum KeyCode {
    F1,
    F2,
    F3,
    F4,
    F5,
    F6,
    F7,
    F8,
    F9,
    F10,
    F11,
    F12,
    F13,
    F14,
    F15,
    F16,
    F17,
    F18,
    F19,
    F20,
    F21,
    F22,
    F23,
    F24,
    KeyA,
    KeyB,
    KeyC,
    KeyD,
    KeyE,
    KeyF,
    KeyG,
    KeyH,
    KeyI,
    KeyJ,
    KeyK,
    KeyL,
    KeyM,
    KeyN,
    KeyO,
    KeyP,
    KeyQ,
    KeyR,
    KeyS,
    KeyT,
    KeyU,
    KeyV,
    KeyW,
    KeyX,
    KeyY,
    KeyZ,
    Digit0,
    Digit1,
    Digit2,
    Digit3,
    Digit4,
    Digit5,
    Digit6,
    Digit7,
    Digit8,
    Digit9,
    Escape,
    Space,
    Enter,
    Tab,
    Backspace,
    ArrowUp,
    ArrowDown,
    ArrowLeft,
    ArrowRight,
    Insert,
    Delete,
    Home,
    End,
    PageUp,
    PageDown,
}

/// The number of keys that can be bound.
pub const KEY_COUNT: usize = 75;

/// The name under which a key is shown and written to the settings file.
pub open spec fn key_name(code: KeyCode) -> Seq<char> {
    match code {
        KeyCode::F1 => "F1"@,
        KeyCode::F2 => "F2"@,
        KeyCode::F3 => "F3"@,
        KeyCode::F4 => "F4"@,
        KeyCode::F5 => "F5"@,
        KeyCode::F6 => "F6"@,
        KeyCode::F7 => "F7"@,
        KeyCode::F8 => "F8"@,
        KeyCode::F9 => "F9"@,
        KeyCode::F10 => "F10"@,
        KeyCode::F11 => "F11"@,
        KeyCode::F12 => "F12"@,
        KeyCode::F13 => "F13"@,
        KeyCode::F14 => "F14"@,
        KeyCode::F15 => "F15"@,
        KeyCode::F16 => "F16"@,
        KeyCode::F17 => "F17"@,
        KeyCode::F18 => "F18"@,
        KeyCode::F19 => "F19"@,
        KeyCode::F20 => "F20"@,
        KeyCode::F21 => "F21"@,
        KeyCode::F22 => "F22"@,
        KeyCode::F23 => "F23"@,
        KeyCode::F24 => "F24"@,
        KeyCode::KeyA => "A"@,
        KeyCode::KeyB => "B"@,
        KeyCode::KeyC => "C"@,
        KeyCode::KeyD => "D"@,
        KeyCode::KeyE => "E"@,
        KeyCode::KeyF => "F"@,
        KeyCode::KeyG => "G"@,
        KeyCode::KeyH => "H"@,
        KeyCode::KeyI => "I"@,
        KeyCode::KeyJ => "J"@,
        KeyCode::KeyK => "K"@,
        KeyCode::KeyL => "L"@,
        KeyCode::KeyM => "M"@,
        KeyCode::KeyN => "N"@,
        KeyCode::KeyO => "O"@,
        KeyCode::KeyP => "P"@,
        KeyCode::KeyQ => "Q"@,
        KeyCode::KeyR => "R"@,
        KeyCode::KeyS => "S"@,
        KeyCode::KeyT => "T"@,
        KeyCode::KeyU => "U"@,
        KeyCode::KeyV => "V"@,
        KeyCode::KeyW => "W"@,
        KeyCode::KeyX => "X"@,
        KeyCode::KeyY => "Y"@,
        KeyCode::KeyZ => "Z"@,
        KeyCode::Digit0 => "0"@,
        KeyCode::Digit1 => "1"@,
        KeyCode::Digit2 => "2"@,
        KeyCode::Digit3 => "3"@,
        KeyCode::Digit4 => "4"@,
        KeyCode::Digit5 => "5"@,
        KeyCode::Digit6 => "6"@,
        KeyCode::Digit7 => "7"@,
        KeyCode::Digit8 => "8"@,
        KeyCode::Digit9 => "9"@,
        KeyCode::Escape => "Esc"@,
        KeyCode::Space => "Space"@,
        KeyCode::Enter => "Enter"@,
        KeyCode::Tab => "Tab"@,
        KeyCode::Backspace => "Backspace"@,
        KeyCode::ArrowUp => "Up"@,
        KeyCode::ArrowDown => "Down"@,
        KeyCode::ArrowLeft => "Left"@,
        KeyCode::ArrowRight => "Right"@,
        KeyCode::Insert => "Insert"@,
        KeyCode::Delete => "Delete"@,
        KeyCode::Home => "Home"@,
        KeyCode::End => "End"@,
        KeyCode::PageUp => "PageUp"@,
        KeyCode::PageDown => "PageDown"@,
    }
}

/// The keys in the order of the key table.
pub open spec fn key_at(i: int) -> KeyCode {
    if i == 0 {
        KeyCode::F1
    } else if i == 1 {
        KeyCode::F2
    } else if i == 2 {
        KeyCode::F3
    } else if i == 3 {
        KeyCode::F4
    } else if i == 4 {
        KeyCode::F5
    } else if i == 5 {
        KeyCode::F6
    } else if i == 6 {
        KeyCode::F7
    } else if i == 7 {
        KeyCode::F8
    } else if i == 8 {
        KeyCode::F9
    } else if i == 9 {
        KeyCode::F10
    } else if i == 10 {
        KeyCode::F11
    } else if i == 11 {
        KeyCode::F12
    } else if i == 12 {
        KeyCode::F13
    } else if i == 13 {
        KeyCode::F14
    } else if i == 14 {
        KeyCode::F15
    } else if i == 15 {
        KeyCode::F16
    } else if i == 16 {
        KeyCode::F17
    } else if i == 17 {
        KeyCode::F18
    } else if i == 18 {
        KeyCode::F19
    } else if i == 19 {
        KeyCode::F20
    } else if i == 20 {
        KeyCode::F21
    } else if i == 21 {
        KeyCode::F22
    } else if i == 22 {
        KeyCode::F23
    } else if i == 23 {
        KeyCode::F24
    } else if i == 24 {
        KeyCode::KeyA
    } else if i == 25 {
        KeyCode::KeyB
    } else if i == 26 {
        KeyCode::KeyC
    } else if i == 27 {
        KeyCode::KeyD
    } else if i == 28 {
        KeyCode::KeyE
    } else if i == 29 {
        KeyCode::KeyF
    } else if i == 30 {
        KeyCode::KeyG
    } else if i == 31 {
        KeyCode::KeyH
    } else if i == 32 {
        KeyCode::KeyI
    } else if i == 33 {
        KeyCode::KeyJ
    } else if i == 34 {
        KeyCode::KeyK
    } else if i == 35 {
        KeyCode::KeyL
    } else if i == 36 {
        KeyCode::KeyM
    } else if i == 37 {
        KeyCode::KeyN
    } else if i == 38 {
        KeyCode::KeyO
    } else if i == 39 {
        KeyCode::KeyP
    } else if i == 40 {
        KeyCode::KeyQ
    } else if i == 41 {
        KeyCode::KeyR
    } else if i == 42 {
        KeyCode::KeyS
    } else if i == 43 {
        KeyCode::KeyT
    } else if i == 44 {
        KeyCode::KeyU
    } else if i == 45 {
        KeyCode::KeyV
    } else if i == 46 {
        KeyCode::KeyW
    } else if i == 47 {
        KeyCode::KeyX
    } else if i == 48 {
        KeyCode::KeyY
    } else if i == 49 {
        KeyCode::KeyZ
    } else if i == 50 {
        KeyCode::Digit0
    } else if i == 51 {
        KeyCode::Digit1
    } else if i == 52 {
        KeyCode::Digit2
    } else if i == 53 {
        KeyCode::Digit3
    } else if i == 54 {
        KeyCode::Digit4
    } else if i == 55 {
        KeyCode::Digit5
    } else if i == 56 {
        KeyCode::Digit6
    } else if i == 57 {
        KeyCode::Digit7
    } else if i == 58 {
        KeyCode::Digit8
    } else if i == 59 {
        KeyCode::Digit9
    } else if i == 60 {
        KeyCode::Escape
    } else if i == 61 {
        KeyCode::Space
    } else if i == 62 {
        KeyCode::Enter
    } else if i == 63 {
        KeyCode::Tab
    } else if i == 64 {
        KeyCode::Backspace
    } else if i == 65 {
        KeyCode::ArrowUp
    } else if i == 66 {
        KeyCode::ArrowDown
    } else if i == 67 {
        KeyCode::ArrowLeft
    } else if i == 68 {
        KeyCode::ArrowRight
    } else if i == 69 {
        KeyCode::Insert
    } else if i == 70 {
        KeyCode::Delete
    } else if i == 71 {
        KeyCode::Home
    } else if i == 72 {
        KeyCode::End
    } else if i == 73 {
        KeyCode::PageUp
    } else {
        KeyCode::PageDown
    }
}

/// The place of a key in the key table.
pub open spec fn key_index(code: KeyCode) -> int {
    match code {
        KeyCode::F1 => 0,
        KeyCode::F2 => 1,
        KeyCode::F3 => 2,
        KeyCode::F4 => 3,
        KeyCode::F5 => 4,
        KeyCode::F6 => 5,
        KeyCode::F7 => 6,
        KeyCode::F8 => 7,
        KeyCode::F9 => 8,
        KeyCode::F10 => 9,
        KeyCode::F11 => 10,
        KeyCode::F12 => 11,
        KeyCode::F13 => 12,
        KeyCode::F14 => 13,
        KeyCode::F15 => 14,
        KeyCode::F16 => 15,
        KeyCode::F17 => 16,
        KeyCode::F18 => 17,
        KeyCode::F19 => 18,
        KeyCode::F20 => 19,
        KeyCode::F21 => 20,
        KeyCode::F22 => 21,
        KeyCode::F23 => 22,
        KeyCode::F24 => 23,
        KeyCode::KeyA => 24,
        KeyCode::KeyB => 25,
        KeyCode::KeyC => 26,
        KeyCode::KeyD => 27,
        KeyCode::KeyE => 28,
        KeyCode::KeyF => 29,
        KeyCode::KeyG => 30,
        KeyCode::KeyH => 31,
        KeyCode::KeyI => 32,
        KeyCode::KeyJ => 33,
        KeyCode::KeyK => 34,
        KeyCode::KeyL => 35,
        KeyCode::KeyM => 36,
        KeyCode::KeyN => 37,
        KeyCode::KeyO => 38,
        KeyCode::KeyP => 39,
        KeyCode::KeyQ => 40,
        KeyCode::KeyR => 41,
        KeyCode::KeyS => 42,
        KeyCode::KeyT => 43,
        KeyCode::KeyU => 44,
        KeyCode::KeyV => 45,
        KeyCode::KeyW => 46,
        KeyCode::KeyX => 47,
        KeyCode::KeyY => 48,
        KeyCode::KeyZ => 49,
        KeyCode::Digit0 => 50,
        KeyCode::Digit1 => 51,
        KeyCode::Digit2 => 52,
        KeyCode::Digit3 => 53,
        KeyCode::Digit4 => 54,
        KeyCode::Digit5 => 55,
        KeyCode::Digit6 => 56,
        KeyCode::Digit7 => 57,
        KeyCode::Digit8 => 58,
        KeyCode::Digit9 => 59,
        KeyCode::Escape => 60,
        KeyCode::Space => 61,
        KeyCode::Enter => 62,
        KeyCode::Tab => 63,
        KeyCode::Backspace => 64,
        KeyCode::ArrowUp => 65,
        KeyCode::ArrowDown => 66,
        KeyCode::ArrowLeft => 67,
        KeyCode::ArrowRight => 68,
        KeyCode::Insert => 69,
        KeyCode::Delete => 70,
        KeyCode::Home => 71,
        KeyCode::End => 72,
        KeyCode::PageUp => 73,
        KeyCode::PageDown => 74,
    }
}

/// The name of a key.
pub fn code_to_name(code: KeyCode) -> (r: &'static str)
    ensures
        r@ == key_name(code),
{
    match code {
        KeyCode::F1 => "F1",
        KeyCode::F2 => "F2",
        KeyCode::F3 => "F3",
        KeyCode::F4 => "F4",
        KeyCode::F5 => "F5",
        KeyCode::F6 => "F6",
        KeyCode::F7 => "F7",
        KeyCode::F8 => "F8",
        KeyCode::F9 => "F9",
        KeyCode::F10 => "F10",
        KeyCode::F11 => "F11",
        KeyCode::F12 => "F12",
        KeyCode::F13 => "F13",
        KeyCode::F14 => "F14",
        KeyCode::F15 => "F15",
        KeyCode::F16 => "F16",
        KeyCode::F17 => "F17",
        KeyCode::F18 => "F18",
        KeyCode::F19 => "F19",
        KeyCode::F20 => "F20",
        KeyCode::F21 => "F21",
        KeyCode::F22 => "F22",
        KeyCode::F23 => "F23",
        KeyCode::F24 => "F24",
        KeyCode::KeyA => "A",
        KeyCode::KeyB => "B",
        KeyCode::KeyC => "C",
        KeyCode::KeyD => "D",
        KeyCode::KeyE => "E",
        KeyCode::KeyF => "F",
        KeyCode::KeyG => "G",
        KeyCode::KeyH => "H",
        KeyCode::KeyI => "I",
        KeyCode::KeyJ => "J",
        KeyCode::KeyK => "K",
        KeyCode::KeyL => "L",
        KeyCode::KeyM => "M",
        KeyCode::KeyN => "N",
        KeyCode::KeyO => "O",
        KeyCode::KeyP => "P",
        KeyCode::KeyQ => "Q",
        KeyCode::KeyR => "R",
        KeyCode::KeyS => "S",
        KeyCode::KeyT => "T",
        KeyCode::KeyU => "U",
        KeyCode::KeyV => "V",
        KeyCode::KeyW => "W",
        KeyCode::KeyX => "X",
        KeyCode::KeyY => "Y",
        KeyCode::KeyZ => "Z",
        KeyCode::Digit0 => "0",
        KeyCode::Digit1 => "1",
        KeyCode::Digit2 => "2",
        KeyCode::Digit3 => "3",
        KeyCode::Digit4 => "4",
        KeyCode::Digit5 => "5",
        KeyCode::Digit6 => "6",
        KeyCode::Digit7 => "7",
        KeyCode::Digit8 => "8",
        KeyCode::Digit9 => "9",
        KeyCode::Escape => "Esc",
        KeyCode::Space => "Space",
        KeyCode::Enter => "Enter",
        KeyCode::Tab => "Tab",
        KeyCode::Backspace => "Backspace",
        KeyCode::ArrowUp => "Up",
        KeyCode::ArrowDown => "Down",
        KeyCode::ArrowLeft => "Left",
        KeyCode::ArrowRight => "Right",
        KeyCode::Insert => "Insert",
        KeyCode::Delete => "Delete",
        KeyCode::Home => "Home",
        KeyCode::End => "End",
        KeyCode::PageUp => "PageUp",
        KeyCode::PageDown => "PageDown",
    }
}

/// The key at a place of the key table.
fn key_at_index(i: usize) -> (r: KeyCode)
    requires
        i < KEY_COUNT,
    ensures
        r == key_at(i as int),
{
    match i {
        0 => KeyCode::F1,
        1 => KeyCode::F2,
        2 => KeyCode::F3,
        3 => KeyCode::F4,
        4 => KeyCode::F5,
        5 => KeyCode::F6,
        6 => KeyCode::F7,
        7 => KeyCode::F8,
        8 => KeyCode::F9,
        9 => KeyCode::F10,
        10 => KeyCode::F11,
        11 => KeyCode::F12,
        12 => KeyCode::F13,
        13 => KeyCode::F14,
        14 => KeyCode::F15,
        15 => KeyCode::F16,
        16 => KeyCode::F17,
        17 => KeyCode::F18,
        18 => KeyCode::F19,
        19 => KeyCode::F20,
        20 => KeyCode::F21,
        21 => KeyCode::F22,
        22 => KeyCode::F23,
        23 => KeyCode::F24,
        24 => KeyCode::KeyA,
        25 => KeyCode::KeyB,
        26 => KeyCode::KeyC,
        27 => KeyCode::KeyD,
        28 => KeyCode::KeyE,
        29 => KeyCode::KeyF,
        30 => KeyCode::KeyG,
        31 => KeyCode::KeyH,
        32 => KeyCode::KeyI,
        33 => KeyCode::KeyJ,
        34 => KeyCode::KeyK,
        35 => KeyCode::KeyL,
        36 => KeyCode::KeyM,
        37 => KeyCode::KeyN,
        38 => KeyCode::KeyO,
        39 => KeyCode::KeyP,
        40 => KeyCode::KeyQ,
        41 => KeyCode::KeyR,
        42 => KeyCode::KeyS,
        43 => KeyCode::KeyT,
        44 => KeyCode::KeyU,
        45 => KeyCode::KeyV,
        46 => KeyCode::KeyW,
        47 => KeyCode::KeyX,
        48 => KeyCode::KeyY,
        49 => KeyCode::KeyZ,
        50 => KeyCode::Digit0,
        51 => KeyCode::Digit1,
        52 => KeyCode::Digit2,
        53 => KeyCode::Digit3,
        54 => KeyCode::Digit4,
        55 => KeyCode::Digit5,
        56 => KeyCode::Digit6,
        57 => KeyCode::Digit7,
        58 => KeyCode::Digit8,
        59 => KeyCode::Digit9,
        60 => KeyCode::Escape,
        61 => KeyCode::Space,
        62 => KeyCode::Enter,
        63 => KeyCode::Tab,
        64 => KeyCode::Backspace,
        65 => KeyCode::ArrowUp,
        66 => KeyCode::ArrowDown,
        67 => KeyCode::ArrowLeft,
        68 => KeyCode::ArrowRight,
        69 => KeyCode::Insert,
        70 => KeyCode::Delete,
        71 => KeyCode::Home,
        72 => KeyCode::End,
        73 => KeyCode::PageUp,
        _ => KeyCode::PageDown,
    }
}

// The keys by their position in the alphabet, the digits and the function
// key numbers; used to show that no two keys share a name.

spec fn letter_key(i: int) -> Option<KeyCode> {
    if i == 0 {
        Some(KeyCode::KeyA)
    } else if i == 1 {
        Some(KeyCode::KeyB)
    } else if i == 2 {
        Some(KeyCode::KeyC)
    } else if i == 3 {
        Some(KeyCode::KeyD)
    } else if i == 4 {
        Some(KeyCode::KeyE)
    } else if i == 5 {
        Some(KeyCode::KeyF)
    } else if i == 6 {
        Some(KeyCode::KeyG)
    } else if i == 7 {
        Some(KeyCode::KeyH)
    } else if i == 8 {
        Some(KeyCode::KeyI)
    } else if i == 9 {
        Some(KeyCode::KeyJ)
    } else if i == 10 {
        Some(KeyCode::KeyK)
    } else if i == 11 {
        Some(KeyCode::KeyL)
    } else if i == 12 {
        Some(KeyCode::KeyM)
    } else if i == 13 {
        Some(KeyCode::KeyN)
    } else if i == 14 {
        Some(KeyCode::KeyO)
    } else if i == 15 {
        Some(KeyCode::KeyP)
    } else if i == 16 {
        Some(KeyCode::KeyQ)
    } else if i == 17 {
        Some(KeyCode::KeyR)
    } else if i == 18 {
        Some(KeyCode::KeyS)
    } else if i == 19 {
        Some(KeyCode::KeyT)
    } else if i == 20 {
        Some(KeyCode::KeyU)
    } else if i == 21 {
        Some(KeyCode::KeyV)
    } else if i == 22 {
        Some(KeyCode::KeyW)
    } else if i == 23 {
        Some(KeyCode::KeyX)
    } else if i == 24 {
        Some(KeyCode::KeyY)
    } else if i == 25 {
        Some(KeyCode::KeyZ)
    } else {
        None
    }
}

spec fn digit_key(i: int) -> Option<KeyCode> {
    if i == 0 {
        Some(KeyCode::Digit0)
    } else if i == 1 {
        Some(KeyCode::Digit1)
    } else if i == 2 {
        Some(KeyCode::Digit2)
    } else if i == 3 {
        Some(KeyCode::Digit3)
    } else if i == 4 {
        Some(KeyCode::Digit4)
    } else if i == 5 {
        Some(KeyCode::Digit5)
    } else if i == 6 {
        Some(KeyCode::Digit6)
    } else if i == 7 {
        Some(KeyCode::Digit7)
    } else if i == 8 {
        Some(KeyCode::Digit8)
    } else if i == 9 {
        Some(KeyCode::Digit9)
    } else {
        None
    }
}

spec fn function_key(i: int) -> Option<KeyCode> {
    if i == 1 {
        Some(KeyCode::F1)
    } else if i == 2 {
        Some(KeyCode::F2)
    } else if i == 3 {
        Some(KeyCode::F3)
    } else if i == 4 {
        Some(KeyCode::F4)
    } else if i == 5 {
        Some(KeyCode::F5)
    } else if i == 6 {
        Some(KeyCode::F6)
    } else if i == 7 {
        Some(KeyCode::F7)
    } else if i == 8 {
        Some(KeyCode::F8)
    } else if i == 9 {
        Some(KeyCode::F9)
    } else if i == 10 {
        Some(KeyCode::F10)
    } else if i == 11 {
        Some(KeyCode::F11)
    } else if i == 12 {
        Some(KeyCode::F12)
    } else if i == 13 {
        Some(KeyCode::F13)
    } else if i == 14 {
        Some(KeyCode::F14)
    } else if i == 15 {
        Some(KeyCode::F15)
    } else if i == 16 {
        Some(KeyCode::F16)
    } else if i == 17 {
        Some(KeyCode::F17)
    } else if i == 18 {
        Some(KeyCode::F18)
    } else if i == 19 {
        Some(KeyCode::F19)
    } else if i == 20 {
        Some(KeyCode::F20)
    } else if i == 21 {
        Some(KeyCode::F21)
    } else if i == 22 {
        Some(KeyCode::F22)
    } else if i == 23 {
        Some(KeyCode::F23)
    } else if i == 24 {
        Some(KeyCode::F24)
    } else {
        None
    }
}
spec fn named_key(len: nat, first: char, second: char) -> Option<KeyCode> {
    if len == 3 && first == 'E' && second == 'S' {
        Some(KeyCode::Escape)
    } else if len == 5 && first == 'S' && second == 'P' {
        Some(KeyCode::Space)
    } else if len == 5 && first == 'E' && second == 'N' {
        Some(KeyCode::Enter)
    } else if len == 3 && first == 'T' && second == 'A' {
        Some(KeyCode::Tab)
    } else if len == 9 && first == 'B' && second == 'A' {
        Some(KeyCode::Backspace)
    } else if len == 2 && first == 'U' && second == 'P' {
        Some(KeyCode::ArrowUp)
    } else if len == 4 && first == 'D' && second == 'O' {
        Some(KeyCode::ArrowDown)
    } else if len == 4 && first == 'L' && second == 'E' {
        Some(KeyCode::ArrowLeft)
    } else if len == 5 && first == 'R' && second == 'I' {
        Some(KeyCode::ArrowRight)
    } else if len == 6 && first == 'I' && second == 'N' {
        Some(KeyCode::Insert)
    } else if len == 6 && first == 'D' && second == 'E' {
        Some(KeyCode::Delete)
    } else if len == 4 && first == 'H' && second == 'O' {
        Some(KeyCode::Home)
    } else if len == 3 && first == 'E' && second == 'N' {
        Some(KeyCode::End)
    } else if len == 6 && first == 'P' && second == 'A' {
        Some(KeyCode::PageUp)
    } else if len == 8 && first == 'P' && second == 'A' {
        Some(KeyCode::PageDown)
    } else {
        None
    }
}

/// Reads an upper-case key name back from its length and first characters.
spec fn decode_token(t: Seq<char>) -> Option<KeyCode> {
    if t.len() == 1 {
        if 'A' <= t[0] <= 'Z' {
            letter_key(t[0] as int - 'A' as int)
        } else if '0' <= t[0] <= '9' {
            digit_key(t[0] as int - '0' as int)
        } else {
            None
        }
    } else if t.len() == 2 && t[0] == 'F' && '1' <= t[1] <= '9' {
        function_key(t[1] as int - '0' as int)
    } else if t.len() == 3 && t[0] == 'F' && '1' <= t[1] <= '2' && '0' <= t[2] <= '9' {
        function_key((t[1] as int - '0' as int) * 10 + (t[2] as int - '0' as int))
    } else {
        named_key(t.len(), t[0], t[1])
    }
}

proof fn lemma_decode_key_name(c: KeyCode)
    ensures
        decode_token(text::ascii_upper(key_name(c))) == Some(c),
{
    reveal_strlit("F1");
    reveal_strlit("F2");
    reveal_strlit("F3");
    reveal_strlit("F4");
    reveal_strlit("F5");
    reveal_strlit("F6");
    reveal_strlit("F7");
    reveal_strlit("F8");
    reveal_strlit("F9");
    reveal_strlit("F10");
    reveal_strlit("F11");
    reveal_strlit("F12");
    reveal_strlit("F13");
    reveal_strlit("F14");
    reveal_strlit("F15");
    reveal_strlit("F16");
    reveal_strlit("F17");
    reveal_strlit("F18");
    reveal_strlit("F19");
    reveal_strlit("F20");
    reveal_strlit("F21");
    reveal_strlit("F22");
    reveal_strlit("F23");
    reveal_strlit("F24");
    reveal_strlit("A");
    reveal_strlit("B");
    reveal_strlit("C");
    reveal_strlit("D");
    reveal_strlit("E");
    reveal_strlit("F");
    reveal_strlit("G");
    reveal_strlit("H");
    reveal_strlit("I");
    reveal_strlit("J");
    reveal_strlit("K");
    reveal_strlit("L");
    reveal_strlit("M");
    reveal_strlit("N");
    reveal_strlit("O");
    reveal_strlit("P");
    reveal_strlit("Q");
    reveal_strlit("R");
    reveal_strlit("S");
    reveal_strlit("T");
    reveal_strlit("U");
    reveal_strlit("V");
    reveal_strlit("W");
    reveal_strlit("X");
    reveal_strlit("Y");
    reveal_strlit("Z");
    reveal_strlit("0");
    reveal_strlit("1");
    reveal_strlit("2");
    reveal_strlit("3");
    reveal_strlit("4");
    reveal_strlit("5");
    reveal_strlit("6");
    reveal_strlit("7");
    reveal_strlit("8");
    reveal_strlit("9");
    reveal_strlit("Esc");
    reveal_strlit("Space");
    reveal_strlit("Enter");
    reveal_strlit("Tab");
    reveal_strlit("Backspace");
    reveal_strlit("Up");
    reveal_strlit("Down");
    reveal_strlit("Left");
    reveal_strlit("Right");
    reveal_strlit("Insert");
    reveal_strlit("Delete");
    reveal_strlit("Home");
    reveal_strlit("End");
    reveal_strlit("PageUp");
    reveal_strlit("PageDown");
}

/// Distinct keys have distinct upper-case names.
pub proof fn lemma_key_names_distinct(a: KeyCode, b: KeyCode)
    ensures
        text::ascii_upper(key_name(a)) == text::ascii_upper(key_name(b)) ==> a == b,
{
    lemma_decode_key_name(a);
    lemma_decode_key_name(b);
}

/// Every key's name, upper-cased, names that key again: what the settings
/// file holds of a key is read back as the same key.
pub proof fn lemma_key_name_parses_back(c: KeyCode)
    ensures
        code_for_token(text::ascii_upper(key_name(c))) == Some(c),
{
    let t = text::ascii_upper(key_name(c));
    assert(exists|k: KeyCode| text::ascii_upper(key_name(k)) == t);
    let w = choose|k: KeyCode| text::ascii_upper(key_name(k)) == t;
    lemma_key_names_distinct(w, c);
}

/// Every key has its place in the key table.
pub proof fn lemma_key_index(c: KeyCode)
    ensures
        0 <= key_index(c) < KEY_COUNT,
        key_at(key_index(c)) == c,
{
}

/// The key whose upper-case name is the token; `ESCAPE` names the escape
/// key as well.
pub open spec fn code_for_token(t: Seq<char>) -> Option<KeyCode> {
    if exists|c: KeyCode| text::ascii_upper(key_name(c)) == t {
        Some(choose|c: KeyCode| text::ascii_upper(key_name(c)) == t)
    } else if t == "ESCAPE"@ {
        Some(KeyCode::Escape)
    } else {
        None
    }
}

/// The upper-case token under which the settings file names each key (the
/// escape key is also read from `ESCAPE`).
pub open spec fn key_token(code: KeyCode) -> Seq<char> {
    match code {
        KeyCode::F1 => "F1"@,
        KeyCode::F2 => "F2"@,
        KeyCode::F3 => "F3"@,
        KeyCode::F4 => "F4"@,
        KeyCode::F5 => "F5"@,
        KeyCode::F6 => "F6"@,
        KeyCode::F7 => "F7"@,
        KeyCode::F8 => "F8"@,
        KeyCode::F9 => "F9"@,
        KeyCode::F10 => "F10"@,
        KeyCode::F11 => "F11"@,
        KeyCode::F12 => "F12"@,
        KeyCode::F13 => "F13"@,
        KeyCode::F14 => "F14"@,
        KeyCode::F15 => "F15"@,
        KeyCode::F16 => "F16"@,
        KeyCode::F17 => "F17"@,
        KeyCode::F18 => "F18"@,
        KeyCode::F19 => "F19"@,
        KeyCode::F20 => "F20"@,
        KeyCode::F21 => "F21"@,
        KeyCode::F22 => "F22"@,
        KeyCode::F23 => "F23"@,
        KeyCode::F24 => "F24"@,
        KeyCode::KeyA => "A"@,
        KeyCode::KeyB => "B"@,
        KeyCode::KeyC => "C"@,
        KeyCode::KeyD => "D"@,
        KeyCode::KeyE => "E"@,
        KeyCode::KeyF => "F"@,
        KeyCode::KeyG => "G"@,
        KeyCode::KeyH => "H"@,
        KeyCode::KeyI => "I"@,
        KeyCode::KeyJ => "J"@,
        KeyCode::KeyK => "K"@,
        KeyCode::KeyL => "L"@,
        KeyCode::KeyM => "M"@,
        KeyCode::KeyN => "N"@,
        KeyCode::KeyO => "O"@,
        KeyCode::KeyP => "P"@,
        KeyCode::KeyQ => "Q"@,
        KeyCode::KeyR => "R"@,
        KeyCode::KeyS => "S"@,
        KeyCode::KeyT => "T"@,
        KeyCode::KeyU => "U"@,
        KeyCode::KeyV => "V"@,
        KeyCode::KeyW => "W"@,
        KeyCode::KeyX => "X"@,
        KeyCode::KeyY => "Y"@,
        KeyCode::KeyZ => "Z"@,
        KeyCode::Digit0 => "0"@,
        KeyCode::Digit1 => "1"@,
        KeyCode::Digit2 => "2"@,
        KeyCode::Digit3 => "3"@,
        KeyCode::Digit4 => "4"@,
        KeyCode::Digit5 => "5"@,
        KeyCode::Digit6 => "6"@,
        KeyCode::Digit7 => "7"@,
        KeyCode::Digit8 => "8"@,
        KeyCode::Digit9 => "9"@,
        KeyCode::Escape => "ESC"@,
        KeyCode::Space => "SPACE"@,
        KeyCode::Enter => "ENTER"@,
        KeyCode::Tab => "TAB"@,
        KeyCode::Backspace => "BACKSPACE"@,
        KeyCode::ArrowUp => "UP"@,
        KeyCode::ArrowDown => "DOWN"@,
        KeyCode::ArrowLeft => "LEFT"@,
        KeyCode::ArrowRight => "RIGHT"@,
        KeyCode::Insert => "INSERT"@,
        KeyCode::Delete => "DELETE"@,
        KeyCode::Home => "HOME"@,
        KeyCode::End => "END"@,
        KeyCode::PageUp => "PAGEUP"@,
        KeyCode::PageDown => "PAGEDOWN"@,
    }
}

/// A key's name, upper-cased, is its settings token: the name that is shown
/// and written for a key is the word that is read back as that key.
pub proof fn lemma_key_name_is_token(c: KeyCode)
    ensures
        text::ascii_upper(key_name(c)) == key_token(c),
{
    reveal_strlit("0");
    reveal_strlit("1");
    reveal_strlit("2");
    reveal_strlit("3");
    reveal_strlit("4");
    reveal_strlit("5");
    reveal_strlit("6");
    reveal_strlit("7");
    reveal_strlit("8");
    reveal_strlit("9");
    reveal_strlit("A");
    reveal_strlit("B");
    reveal_strlit("BACKSPACE");
    reveal_strlit("Backspace");
    reveal_strlit("C");
    reveal_strlit("D");
    reveal_strlit("DELETE");
    reveal_strlit("DOWN");
    reveal_strlit("Delete");
    reveal_strlit("Down");
    reveal_strlit("E");
    reveal_strlit("END");
    reveal_strlit("ENTER");
    reveal_strlit("ESC");
    reveal_strlit("End");
    reveal_strlit("Enter");
    reveal_strlit("Esc");
    reveal_strlit("F");
    reveal_strlit("F1");
    reveal_strlit("F10");
    reveal_strlit("F11");
    reveal_strlit("F12");
    reveal_strlit("F13");
    reveal_strlit("F14");
    reveal_strlit("F15");
    reveal_strlit("F16");
    reveal_strlit("F17");
    reveal_strlit("F18");
    reveal_strlit("F19");
    reveal_strlit("F2");
    reveal_strlit("F20");
    reveal_strlit("F21");
    reveal_strlit("F22");
    reveal_strlit("F23");
    reveal_strlit("F24");
    reveal_strlit("F3");
    reveal_strlit("F4");
    reveal_strlit("F5");
    reveal_strlit("F6");
    reveal_strlit("F7");
    reveal_strlit("F8");
    reveal_strlit("F9");
    reveal_strlit("G");
    reveal_strlit("H");
    reveal_strlit("HOME");
    reveal_strlit("Home");
    reveal_strlit("I");
    reveal_strlit("INSERT");
    reveal_strlit("Insert");
    reveal_strlit("J");
    reveal_strlit("K");
    reveal_strlit("L");
    reveal_strlit("LEFT");
    reveal_strlit("Left");
    reveal_strlit("M");
    reveal_strlit("N");
    reveal_strlit("O");
    reveal_strlit("P");
    reveal_strlit("PAGEDOWN");
    reveal_strlit("PAGEUP");
    reveal_strlit("PageDown");
    reveal_strlit("PageUp");
    reveal_strlit("Q");
    reveal_strlit("R");
    reveal_strlit("RIGHT");
    reveal_strlit("Right");
    reveal_strlit("S");
    reveal_strlit("SPACE");
    reveal_strlit("Space");
    reveal_strlit("T");
    reveal_strlit("TAB");
    reveal_strlit("Tab");
    reveal_strlit("U");
    reveal_strlit("UP");
    reveal_strlit("Up");
    reveal_strlit("V");
    reveal_strlit("W");
    reveal_strlit("X");
    reveal_strlit("Y");
    reveal_strlit("Z");
    assert(text::ascii_upper(key_name(c)) =~= key_token(c));
}

/// The key that a token names is the key whose settings token it is, or the
/// escape key for `ESCAPE`; a token that is neither names no key.
pub proof fn lemma_code_for_token_by_tokens(t: Seq<char>, c: KeyCode)
    ensures
        key_token(c) == t ==> code_for_token(t) == Some(c),
        t == "ESCAPE"@ ==> code_for_token(t) == Some(KeyCode::Escape),
        code_for_token(t) == Some(c) ==> key_token(c) == t || (t == "ESCAPE"@ && c
            == KeyCode::Escape),
        (forall|k: KeyCode| key_token(k) != t) && t != "ESCAPE"@ ==> code_for_token(t) is None,
{
    lemma_key_name_is_token(c);
    if key_token(c) == t {
        lemma_key_name_parses_back(c);
    }
    if exists|k: KeyCode| text::ascii_upper(key_name(k)) == t {
        let w = choose|k: KeyCode| text::ascii_upper(key_name(k)) == t;
        lemma_key_name_is_token(w);
    }
    if t == "ESCAPE"@ {
        reveal_strlit("ESCAPE");
        assert(decode_token(t) is None);
        assert forall|k: KeyCode| text::ascii_upper(key_name(k)) != t by {
            lemma_decode_key_name(k);
        }
    }
}

/// The key that an upper-case token names.
pub fn parse_code_token(token_upper: &Vec<char>) -> (r: Option<KeyCode>)
    ensures
        r == code_for_token(token_upper@),
{
    let ghost t = token_upper@;
    let mut i: usize = 0;
    while i < KEY_COUNT
        invariant
            t == token_upper@,
            i <= KEY_COUNT,
            forall|j: int| 0 <= j < i ==> text::ascii_upper(key_name(#[trigger] key_at(j))) != t,
        decreases KEY_COUNT - i,
    {
        let c = key_at_index(i);
        let name = text::str_chars(code_to_name(c));
        let upper = text::upper_chars(&name);
        if text::chars_eq(token_upper, &upper) {
            proof {
                let w = choose|k: KeyCode| text::ascii_upper(key_name(k)) == t;
                lemma_key_names_distinct(w, c);
            }
            return Some(c);
        }
        i = i + 1;
    }
    assert(!exists|c: KeyCode| text::ascii_upper(key_name(c)) == t) by {
        assert forall|c: KeyCode| text::ascii_upper(key_name(c)) != t by {
            lemma_key_index(c);
        }
    }
    if text::chars_eq_str(token_upper, "ESCAPE") {
        Some(KeyCode::Escape)
    } else {
        None
    }
}

// ---------------------------------------------------------------------------
// Modifiers and bindings
// ---------------------------------------------------------------------------

/// The modifier keys held with a hotkey.
#[derive(Clone, Copy, Debug, PartialEq, Eq, Structural)]
pub struct HotkeyModifiers {
    pub control: bool,
    pub alt: bool,
    pub shift: bool,
    pub super_key: bool,
}

impl HotkeyModifiers {
    pub open spec fn none() -> HotkeyModifiers {
        HotkeyModifiers { control: false, alt: false, shift: false, super_key: false }
    }

    pub fn empty() -> (r: HotkeyModifiers)
        ensures
            r == HotkeyModifiers::none(),
    {
        HotkeyModifiers { control: false, alt: false, shift: false, super_key: false }
    }

    pub fn is_empty(&self) -> (r: bool)
        ensures
            r == (*self == HotkeyModifiers::none()),
    {
        !self.control && !self.alt && !self.shift && !self.super_key
    }
}

/// A key together with the modifiers that must be held with it.
#[derive(Clone, Copy, Debug, PartialEq, Eq, Structural)]
pub struct HotkeyBinding {
    pub modifiers: HotkeyModifiers,
    pub code: KeyCode,
}

/// What the tokens of a hotkey text have set so far.
#[derive(Clone, Copy, Debug, PartialEq, Eq, Structural)]
pub struct TokenScan {
    pub modifiers: HotkeyModifiers,
    pub code: Option<KeyCode>,
}

/// One `+`-separated token: after trimming and upper-casing, an empty token
/// is skipped, a modifier word sets its modifier, and any other token sets
/// the key to the one it names (none, if it names no key).
pub open spec fn scan_token(st: TokenScan, token: Seq<char>) -> TokenScan {
    let t = text::ascii_upper(text::trim(token));
    let m = st.modifiers;
    if t.len() == 0 {
        st
    } else if t == "CTRL"@ || t == "CONTROL"@ {
        TokenScan {
            modifiers: HotkeyModifiers { control: true, alt: m.alt, shift: m.shift, super_key: m.super_key },
            code: st.code,
        }
    } else if t == "ALT"@ {
        TokenScan {
            modifiers: HotkeyModifiers { control: m.control, alt: true, shift: m.shift, super_key: m.super_key },
            code: st.code,
        }
    } else if t == "SHIFT"@ {
        TokenScan {
            modifiers: HotkeyModifiers { control: m.control, alt: m.alt, shift: true, super_key: m.super_key },
            code: st.code,
        }
    } else if t == "WIN"@ || t == "SUPER"@ || t == "META"@ {
        TokenScan {
            modifiers: HotkeyModifiers { control: m.control, alt: m.alt, shift: m.shift, super_key: true },
            code: st.code,
        }
    } else {
        TokenScan { modifiers: m, code: code_for_token(t) }
    }
}

pub open spec fn token_scanner() -> spec_fn(TokenScan, Seq<char>) -> TokenScan {
    |st: TokenScan, token: Seq<char>| scan_token(st, token)
}

pub open spec fn scan_start() -> TokenScan {
    TokenScan { modifiers: HotkeyModifiers::none(), code: None }
}

/// The binding that a hotkey text such as `Ctrl+Shift+F8` describes: the
/// text is split at each `+` and the tokens are scanned in order; there is a
/// binding when the last key token names a key.
pub open spec fn parse_binding(value: Seq<char>) -> Option<HotkeyBinding> {
    let st = text::fold_parts(text::split_on(value, '+'), scan_start(), token_scanner());
    match st.code {
        Some(c) => Some(HotkeyBinding { modifiers: st.modifiers, code: c }),
        None => None,
    }
}

/// The modifier words that precede the key name, each followed by `+`.
pub open spec fn modifier_prefix(m: HotkeyModifiers) -> Seq<char> {
    (if m.control { "Ctrl"@.push('+') } else { Seq::<char>::empty() })
        + (if m.alt { "Alt"@.push('+') } else { Seq::<char>::empty() })
        + (if m.shift { "Shift"@.push('+') } else { Seq::<char>::empty() })
        + (if m.super_key { "Win"@.push('+') } else { Seq::<char>::empty() })
}

/// How a binding is shown and written: `Ctrl+Alt+Shift+Win+` as far as held,
/// then the key name.
pub open spec fn binding_text(b: HotkeyBinding) -> Seq<char> {
    modifier_prefix(b.modifiers) + key_name(b.code)
}

/// Scans one token.
fn apply_token(st: TokenScan, token: &Vec<char>) -> (r: TokenScan)
    ensures
        r == scan_token(st, token@),
{
    let trimmed = text::trim_chars(token);
    if trimmed.len() == 0 {
        return st;
    }
    let upper = text::upper_chars(&trimmed);
    let m = st.modifiers;
    if text::chars_eq_str(&upper, "CTRL") || text::chars_eq_str(&upper, "CONTROL") {
        TokenScan {
            modifiers: HotkeyModifiers { control: true, alt: m.alt, shift: m.shift, super_key: m.super_key },
            code: st.code,
        }
    } else if text::chars_eq_str(&upper, "ALT") {
        TokenScan {
            modifiers: HotkeyModifiers { control: m.control, alt: true, shift: m.shift, super_key: m.super_key },
            code: st.code,
        }
    } else if text::chars_eq_str(&upper, "SHIFT") {
        TokenScan {
            modifiers: HotkeyModifiers { control: m.control, alt: m.alt, shift: true, super_key: m.super_key },
            code: st.code,
        }
    } else if text::chars_eq_str(&upper, "WIN") || text::chars_eq_str(&upper, "SUPER")
        || text::chars_eq_str(&upper, "META") {
        TokenScan {
            modifiers: HotkeyModifiers { control: m.control, alt: m.alt, shift: m.shift, super_key: true },
            code: st.code,
        }
    } else {
        TokenScan { modifiers: m, code: parse_code_token(&upper) }
    }
}

impl HotkeyBinding {
    /// The binding that a hotkey text describes, if any.
    pub fn parse(value: &str) -> (r: Option<HotkeyBinding>)
        ensures
            r == parse_binding(value@),
    {
        let chars = text::str_chars(value);
        let ghost v = chars@;
        let ghost f = token_scanner();
        let mut st = TokenScan { modifiers: HotkeyModifiers::empty(), code: None };
        let mut cur: Vec<char> = Vec::new();
        let mut i: usize = 0;
        proof {
            assert(v.take(0) =~= Seq::<char>::empty());
        }
        while i < chars.len()
            invariant
                v == chars@,
                f == token_scanner(),
                i <= v.len(),
                text::split_on(v.take(i as int), '+').len() >= 1,
                st == text::fold_parts(text::split_on(v.take(i as int), '+').drop_last(), scan_start(), f),
                cur@ == text::split_on(v.take(i as int), '+').last(),
            decreases chars.len() - i,
        {
            let c = chars[i];
            let ghost parts = text::split_on(v.take(i as int), '+');
            proof {
                assert(v.take(i + 1).drop_last() =~= v.take(i as int));
                assert(v.take(i + 1).last() == c);
                text::lemma_split_nonempty(v.take(i + 1), '+');
            }
            if c == '+' {
                proof {
                    assert(text::split_on(v.take(i + 1), '+') == parts.push(Seq::<char>::empty()));
                    assert(parts.push(Seq::<char>::empty()).drop_last() =~= parts);
                    assert(text::fold_parts(parts, scan_start(), f) == f(
                        text::fold_parts(parts.drop_last(), scan_start(), f),
                        parts.last(),
                    ));
                    assert(f(st, cur@) == scan_token(st, cur@));
                }
                st = apply_token(st, &cur);
                cur = Vec::new();
            } else {
                cur.push(c);
                proof {
                    let np = parts.drop_last().push(parts.last().push(c));
                    assert(text::split_on(v.take(i + 1), '+') == np);
                    assert(np.drop_last() =~= parts.drop_last());
                }
            }
            i = i + 1;
        }
        st = apply_token(st, &cur);
        proof {
            assert(v.take(v.len() as int) =~= v);
        }
        match st.code {
            Some(c) => Some(HotkeyBinding { modifiers: st.modifiers, code: c }),
            None => None,
        }
    }

    /// The text that shows the binding, as written to the settings file.
    pub fn display_text(self) -> (r: String)
        ensures
            r@ == binding_text(self),
    {
        let mut out = String::new();
        let ghost m = self.modifiers;
        if self.modifiers.control {
            text::push_str(&mut out, "Ctrl");
            text::push_char(&mut out, '+');
        }
        let ghost after_control = out@;
        if self.modifiers.alt {
            text::push_str(&mut out, "Alt");
            text::push_char(&mut out, '+');
        }
        let ghost after_alt = out@;
        if self.modifiers.shift {
            text::push_str(&mut out, "Shift");
            text::push_char(&mut out, '+');
        }
        let ghost after_shift = out@;
        if self.modifiers.super_key {
            text::push_str(&mut out, "Win");
            text::push_char(&mut out, '+');
        }
        let ghost after_super = out@;
        text::push_str(&mut out, code_to_name(self.code));
        proof {
            let e = Seq::<char>::empty();
            let p1 = if m.control { "Ctrl"@.push('+') } else { e };
            let p2 = if m.alt { "Alt"@.push('+') } else { e };
            let p3 = if m.shift { "Shift"@.push('+') } else { e };
            let p4 = if m.super_key { "Win"@.push('+') } else { e };
            assert(after_control =~= p1);
            assert(after_alt =~= p1 + p2);
            assert(after_shift =~= p1 + p2 + p3);
            assert(after_super =~= p1 + p2 + p3 + p4);
        }
        out
    }
}

impl Default for HotkeyBinding {
    /// The binding used until another is chosen: F8 alone.
    fn default() -> (r: HotkeyBinding)
        ensures
            r == (HotkeyBinding { modifiers: HotkeyModifiers::none(), code: KeyCode::F8 }),
    {
        HotkeyBinding { modifiers: HotkeyModifiers::empty(), code: KeyCode::F8 }
    }
}

/// A key name is a nonempty text without spaces at its ends and without `+`.
proof fn lemma_key_name_plain(c: KeyCode)
    ensures
        key_name(c).len() > 0,
        !text::is_space(key_name(c)[0]),
        !text::is_space(key_name(c).last()),
        !key_name(c).contains('+'),
        !key_name(c).contains('\n'),
{
    reveal_strlit("F1");
    reveal_strlit("F2");
    reveal_strlit("F3");
    reveal_strlit("F4");
    reveal_strlit("F5");
    reveal_strlit("F6");
    reveal_strlit("F7");
    reveal_strlit("F8");
    reveal_strlit("F9");
    reveal_strlit("F10");
    reveal_strlit("F11");
    reveal_strlit("F12");
    reveal_strlit("F13");
    reveal_strlit("F14");
    reveal_strlit("F15");
    reveal_strlit("F16");
    reveal_strlit("F17");
    reveal_strlit("F18");
    reveal_strlit("F19");
    reveal_strlit("F20");
    reveal_strlit("F21");
    reveal_strlit("F22");
    reveal_strlit("F23");
    reveal_strlit("F24");
    reveal_strlit("A");
    reveal_strlit("B");
    reveal_strlit("C");
    reveal_strlit("D");
    reveal_strlit("E");
    reveal_strlit("F");
    reveal_strlit("G");
    reveal_strlit("H");
    reveal_strlit("I");
    reveal_strlit("J");
    reveal_strlit("K");
    reveal_strlit("L");
    reveal_strlit("M");
    reveal_strlit("N");
    reveal_strlit("O");
    reveal_strlit("P");
    reveal_strlit("Q");
    reveal_strlit("R");
    reveal_strlit("S");
    reveal_strlit("T");
    reveal_strlit("U");
    reveal_strlit("V");
    reveal_strlit("W");
    reveal_strlit("X");
    reveal_strlit("Y");
    reveal_strlit("Z");
    reveal_strlit("0");
    reveal_strlit("1");
    reveal_strlit("2");
    reveal_strlit("3");
    reveal_strlit("4");
    reveal_strlit("5");
    reveal_strlit("6");
    reveal_strlit("7");
    reveal_strlit("8");
    reveal_strlit("9");
    reveal_strlit("Esc");
    reveal_strlit("Space");
    reveal_strlit("Enter");
    reveal_strlit("Tab");
    reveal_strlit("Backspace");
    reveal_strlit("Up");
    reveal_strlit("Down");
    reveal_strlit("Left");
    reveal_strlit("Right");
    reveal_strlit("Insert");
    reveal_strlit("Delete");
    reveal_strlit("Home");
    reveal_strlit("End");
    reveal_strlit("PageUp");
    reveal_strlit("PageDown");
}

/// No key name, upper-cased, is a modifier word.
proof fn lemma_key_name_not_modifier(c: KeyCode)
    ensures
        ({
            let t = text::ascii_upper(key_name(c));
            &&& t != "CTRL"@
            &&& t != "CONTROL"@
            &&& t != "ALT"@
            &&& t != "SHIFT"@
            &&& t != "WIN"@
            &&& t != "SUPER"@
            &&& t != "META"@
        }),
{
    lemma_decode_key_name(c);
    reveal_strlit("CTRL");
    reveal_strlit("CONTROL");
    reveal_strlit("ALT");
    reveal_strlit("SHIFT");
    reveal_strlit("WIN");
    reveal_strlit("SUPER");
    reveal_strlit("META");
    assert(decode_token("CTRL"@) is None);
    assert(decode_token("CONTROL"@) is None);
    assert(decode_token("ALT"@) is None);
    assert(decode_token("SHIFT"@) is None);
    assert(decode_token("WIN"@) is None);
    assert(decode_token("SUPER"@) is None);
    assert(decode_token("META"@) is None);
}

/// A key name, as a token, sets the key and leaves the modifiers.
proof fn lemma_scan_key_name(st: TokenScan, c: KeyCode)
    ensures
        scan_token(st, key_name(c)) == (TokenScan { modifiers: st.modifiers, code: Some(c) }),
{
    lemma_key_name_plain(c);
    text::lemma_trim_fixed(key_name(c));
    lemma_key_name_not_modifier(c);
    let t = text::ascii_upper(key_name(c));
    assert(t.len() > 0);
    assert(exists|k: KeyCode| text::ascii_upper(key_name(k)) == t);
    let w = choose|k: KeyCode| text::ascii_upper(key_name(k)) == t;
    lemma_key_names_distinct(w, c);
}

/// An empty token changes nothing.
proof fn lemma_scan_empty(st: TokenScan)
    ensures
        scan_token(st, Seq::<char>::empty()) == st,
{
    assert(text::trim(Seq::<char>::empty()) =~= Seq::<char>::empty());
}

/// The modifier words that a binding is written with set their modifiers.
proof fn lemma_scan_modifier_words(st: TokenScan)
    ensures
        scan_token(st, "Ctrl"@) == (TokenScan {
            modifiers: HotkeyModifiers {
                control: true,
                alt: st.modifiers.alt,
                shift: st.modifiers.shift,
                super_key: st.modifiers.super_key,
            },
            code: st.code,
        }),
        scan_token(st, "Alt"@) == (TokenScan {
            modifiers: HotkeyModifiers {
                control: st.modifiers.control,
                alt: true,
                shift: st.modifiers.shift,
                super_key: st.modifiers.super_key,
            },
            code: st.code,
        }),
        scan_token(st, "Shift"@) == (TokenScan {
            modifiers: HotkeyModifiers {
                control: st.modifiers.control,
                alt: st.modifiers.alt,
                shift: true,
                super_key: st.modifiers.super_key,
            },
            code: st.code,
        }),
        scan_token(st, "Win"@) == (TokenScan {
            modifiers: HotkeyModifiers {
                control: st.modifiers.control,
                alt: st.modifiers.alt,
                shift: st.modifiers.shift,
                super_key: true,
            },
            code: st.code,
        }),
        !"Ctrl"@.contains('+'),
        !"Alt"@.contains('+'),
        !"Shift"@.contains('+'),
        !"Win"@.contains('+'),
{
    reveal_strlit("Ctrl");
    reveal_strlit("CTRL");
    reveal_strlit("CONTROL");
    reveal_strlit("Alt");
    reveal_strlit("ALT");
    reveal_strlit("Shift");
    reveal_strlit("SHIFT");
    reveal_strlit("Win");
    reveal_strlit("WIN");
    text::lemma_trim_fixed("Ctrl"@);
    text::lemma_trim_fixed("Alt"@);
    text::lemma_trim_fixed("Shift"@);
    text::lemma_trim_fixed("Win"@);
    assert(text::ascii_upper("Ctrl"@) =~= "CTRL"@);
    assert(text::ascii_upper("Alt"@) =~= "ALT"@);
    assert(text::ascii_upper("Shift"@) =~= "SHIFT"@);
    assert(text::ascii_upper("Win"@) =~= "WIN"@);
    assert("WIN"@[0] != "ALT"@[0]);
}

/// One optional modifier word of a binding's text, scanned.
proof fn lemma_prefix_step(s: Seq<char>, word: Seq<char>, on: bool, before: TokenScan)
    requires
        !word.contains('+'),
        text::split_on(s, '+').last() == Seq::<char>::empty(),
        text::fold_parts(text::split_on(s, '+'), scan_start(), token_scanner()) == before,
    ensures
        ({
            let next = if on { s + word + seq!['+'] } else { s };
            let after = if on { scan_token(before, word) } else { before };
            &&& text::split_on(next, '+').last() == Seq::<char>::empty()
            &&& text::fold_parts(text::split_on(next, '+'), scan_start(), token_scanner()) == after
        }),
{
    let f = token_scanner();
    assert forall|st: TokenScan| #[trigger] f(st, Seq::<char>::empty()) == st by {
        lemma_scan_empty(st);
    }
    if on {
        text::lemma_fold_piece_then_sep(s, word, '+', scan_start(), f);
    }
}

/// A hotkey token is read without regard to ASCII case or surrounding white
/// space, and the longer modifier words mean what the shown ones do:
/// `CONTROL` is `Ctrl`, `SUPER` and `META` are `Win`; each modifier word
/// turns on its modifier and keeps the rest of what was read so far.
pub proof fn lemma_modifier_words(st: TokenScan, token: Seq<char>)
    ensures
        scan_token(st, token) == scan_token(st, text::ascii_upper(text::trim(token))),
        text::ascii_upper(text::trim(token)) == "CONTROL"@ ==> scan_token(st, token)
            == scan_token(st, "Ctrl"@),
        text::ascii_upper(text::trim(token)) == "SUPER"@ ==> scan_token(st, token) == scan_token(
            st,
            "Win"@,
        ),
        text::ascii_upper(text::trim(token)) == "META"@ ==> scan_token(st, token) == scan_token(
            st,
            "Win"@,
        ),
        scan_token(st, "Ctrl"@).modifiers.control && scan_token(st, "Ctrl"@).code == st.code,
        scan_token(st, "Alt"@).modifiers.alt && scan_token(st, "Alt"@).code == st.code,
        scan_token(st, "Shift"@).modifiers.shift && scan_token(st, "Shift"@).code == st.code,
        scan_token(st, "Win"@).modifiers.super_key && scan_token(st, "Win"@).code == st.code,
{
    lemma_scan_modifier_words(st);
    reveal_strlit("CTRL");
    reveal_strlit("CONTROL");
    reveal_strlit("ALT");
    reveal_strlit("SHIFT");
    reveal_strlit("WIN");
    reveal_strlit("SUPER");
    reveal_strlit("META");
    assert("SUPER"@[1] != "SHIFT"@[1]);
    let v = text::trim(token);
    let t = text::ascii_upper(v);
    text::lemma_trim_ends(token);
    if t.len() > 0 {
        assert(t[0] == text::upper_char(v[0]));
        assert(t.last() == text::upper_char(v.last()));
        text::lemma_trim_fixed(t);
    } else {
        assert(text::trim(t) =~= t);
    }
    assert(text::ascii_upper(t) =~= t);
}

/// A binding written as text is read back as the same binding.
pub proof fn lemma_binding_text_round_trip(b: HotkeyBinding)
    ensures
        parse_binding(binding_text(b)) == Some(b),
{
    let f = token_scanner();
    let init = scan_start();
    let e = Seq::<char>::empty();
    let m = b.modifiers;
    lemma_scan_empty(init);
    assert(text::split_on(e, '+') == seq![e]);
    assert(seq![e].drop_last() =~= Seq::<Seq<char>>::empty());
    assert(text::fold_parts(Seq::<Seq<char>>::empty(), init, f) == init);
    assert(seq![e].last() == e);
    assert(text::fold_parts(seq![e], init, f) == f(init, e));
    lemma_scan_modifier_words(init);

    let s1 = if m.control { e + "Ctrl"@ + seq!['+'] } else { e };
    let st1 = if m.control { scan_token(init, "Ctrl"@) } else { init };
    lemma_prefix_step(e, "Ctrl"@, m.control, init);
    lemma_scan_modifier_words(st1);

    let s2 = if m.alt { s1 + "Alt"@ + seq!['+'] } else { s1 };
    let st2 = if m.alt { scan_token(st1, "Alt"@) } else { st1 };
    lemma_prefix_step(s1, "Alt"@, m.alt, st1);
    lemma_scan_modifier_words(st2);

    let s3 = if m.shift { s2 + "Shift"@ + seq!['+'] } else { s2 };
    let st3 = if m.shift { scan_token(st2, "Shift"@) } else { st2 };
    lemma_prefix_step(s2, "Shift"@, m.shift, st2);
    lemma_scan_modifier_words(st3);

    let s4 = if m.super_key { s3 + "Win"@ + seq!['+'] } else { s3 };
    let st4 = if m.super_key { scan_token(st3, "Win"@) } else { st3 };
    lemma_prefix_step(s3, "Win"@, m.super_key, st3);
    assert(st4.modifiers == m);

    let name = key_name(b.code);
    lemma_key_name_plain(b.code);
    assert forall|st: TokenScan| #[trigger] f(st, e) == st by {
        lemma_scan_empty(st);
    }
    text::lemma_fold_last_piece(s4, name, '+', init, f);
    lemma_scan_key_name(st4, b.code);
    assert(s4 =~= modifier_prefix(m));
}

/// A binding's text is nonempty, has no spaces at its ends and holds no line
/// break.
pub proof fn lemma_binding_text_plain(b: HotkeyBinding)
    ensures
        binding_text(b).len() > 0,
        !text::is_space(binding_text(b)[0]),
        !text::is_space(binding_text(b).last()),
        !binding_text(b).contains('\n'),
{
    reveal_strlit("Ctrl");
    reveal_strlit("Alt");
    reveal_strlit("Shift");
    reveal_strlit("Win");
    lemma_key_name_plain(b.code);
    let p = modifier_prefix(b.modifiers);
    let n = key_name(b.code);
    let t = binding_text(b);
    assert(t.last() == n.last());
    if p.len() > 0 {
        assert(t[0] == p[0]);
        assert(p[0] == 'C' || p[0] == 'A' || p[0] == 'S' || p[0] == 'W');
    } else {
        assert(t =~= n);
    }
    assert(!p.contains('\n'));
    assert(!t.contains('\n')) by {
        if t.contains('\n') {
            let k = choose|k: int| 0 <= k < t.len() && t[k] == '\n';
            if k < p.len() {
                assert(p[k] == '\n');
            } else {
                assert(n[k - p.len()] == '\n');
            }
        }
    }
}

// ---------------------------------------------------------------------------
// Hotkey events
// ---------------------------------------------------------------------------

/// A hotkey event as the hotkey manager reports it: the id of the hotkey
/// and whether it was pressed (rather than released).
#[derive(Clone, Copy, Debug, PartialEq, Eq, Structural)]
pub struct HotkeyEvent {
    pub id: u32,
    pub pressed: bool,
}

/// How many events are presses of the hotkey `id`.
pub open spec fn press_count(events: Seq<HotkeyEvent>, id: u32) -> nat
    decreases events.len(),
{
    if events.len() == 0 {
        0
    } else {
        press_count(events.drop_last(), id) + if events.last().id == id && events.last().pressed {
            1nat
        } else {
            0nat
        }
    }
}

/// Counting presses: a release, or an event of another hotkey, counts
/// nothing; a press of the hotkey counts one; and the count of two runs of
/// events is the sum of their counts. So the hotkey toggles once per press,
/// however the events are split across frames.
pub proof fn lemma_press_count_laws(a: Seq<HotkeyEvent>, b: Seq<HotkeyEvent>, e: HotkeyEvent, id: u32)
    ensures
        press_count(a + b, id) == press_count(a, id) + press_count(b, id),
        press_count(seq![e], id) == (if e.id == id && e.pressed { 1nat } else { 0nat }),
        !e.pressed || e.id != id ==> press_count(a.push(e), id) == press_count(a, id),
        e.pressed && e.id == id ==> press_count(a.push(e), id) == press_count(a, id) + 1,
    decreases b.len(),
{
    assert(seq![e].drop_last() =~= Seq::<HotkeyEvent>::empty());
    assert(seq![e].last() == e);
    assert(press_count(Seq::<HotkeyEvent>::empty(), id) == 0);
    assert(a.push(e).drop_last() =~= a);
    if b.len() > 0 {
        assert((a + b).drop_last() =~= a + b.drop_last());
        lemma_press_count_laws(a, b.drop_last(), e, id);
    } else {
        assert(a + b =~= a);
    }
}

/// Whether the pending events toggle the clicker: each press of the bound
/// hotkey flips the answer, so two presses cancel out.
pub fn toggle_from_events(events: &Vec<HotkeyEvent>, hotkey_id: u32) -> (toggled: bool)
    ensures
        toggled == (press_count(events@, hotkey_id) % 2 == 1),
{
    let mut toggled = false;
    let mut i: usize = 0;
    while i < events.len()
        invariant
            i <= events@.len(),
            toggled == (press_count(events@.take(i as int), hotkey_id) % 2 == 1),
        decreases events.len() - i,
    {
        let e = events[i];
        proof {
            assert(events@.take(i + 1).drop_last() =~= events@.take(i as int));
        }
        if e.id == hotkey_id && e.pressed {
            toggled = !toggled;
        }
        i = i + 1;
    }
    proof {
        assert(events@.take(events@.len() as int) =~= events@);
    }
    toggled
}

// ---------------------------------------------------------------------------
// Registration messages
// ---------------------------------------------------------------------------

/// The message when the hotkey manager cannot be created.
pub fn manager_failure(err: &str) -> (r: String)
    ensures
        r@ == "Hotkey manager error: "@ + err@,
{
    let mut out = String::new();
    text::push_str(&mut out, "Hotkey manager error: ");
    text::push_str(&mut out, err);
    out
}

/// The message when a binding cannot be registered.
pub fn registration_failure(binding: HotkeyBinding, err: &str) -> (r: String)
    ensures
        r@ == "Failed to register hotkey "@ + binding_text(binding) + ": "@ + err@,
{
    let mut out = String::new();
    text::push_str(&mut out, "Failed to register hotkey ");
    let shown = binding.display_text();
    text::push_str(&mut out, shown.as_str());
    text::push_str(&mut out, ": ");
    text::push_str(&mut out, err);
    out
}

/// The message when the previous binding cannot be released.
pub fn unregister_failure(err: &str) -> (r: String)
    ensures
        r@ == "Failed to unregister previous hotkey: "@ + err@,
{
    let mut out = String::new();
    text::push_str(&mut out, "Failed to unregister previous hotkey: ");
    text::push_str(&mut out, err);
    out
}

/// The message when the new binding cannot be registered and the previous
/// one cannot be restored either.
pub fn rollback_failure(err: &str, rollback_err: &str) -> (r: String)
    ensures
        r@ == "Failed to bind new hotkey ("@ + err@ + ") and rollback failed ("@ + rollback_err@
            + ")"@,
{
    let mut out = String::new();
    text::push_str(&mut out, "Failed to bind new hotkey (");
    text::push_str(&mut out, err);
    text::push_str(&mut out, ") and rollback failed (");
    text::push_str(&mut out, rollback_err);
    text::push_str(&mut out, ")");
    out
}

/// The outcome of moving the registration to a new binding, from the hotkey
/// manager's answers: releasing the old binding (`Err` with its message
/// when it failed), registering the new one, and, when that failed,
/// registering the old one again.
pub fn rebind_outcome(
    binding: HotkeyBinding,
    release: Result<(), String>,
    register: Result<(), String>,
    restore: Result<(), String>,
) -> (r: Result<(), String>)
    ensures
        match release {
            Err(e) => r matches Err(m) && m@ == "Failed to unregister previous hotkey: "@ + e@,
            Ok(()) => match register {
                Ok(()) => r is Ok,
                Err(e) => match restore {
                    Err(re) => r matches Err(m) && m@ == "Failed to bind new hotkey ("@ + e@
                        + ") and rollback failed ("@ + re@ + ")"@,
                    Ok(()) => r matches Err(m) && m@ == "Failed to register hotkey "@
                        + binding_text(binding) + ": "@ + e@,
                },
            },
        },
{
    match release {
        Err(e) => Err(unregister_failure(e.as_str())),
        Ok(()) => match register {
            Ok(()) => Ok(()),
            Err(e) => match restore {
                Err(re) => Err(rollback_failure(e.as_str(), re.as_str())),
                Ok(()) => Err(registration_failure(binding, e.as_str())),
            },
        },
    }
}

} // verus!
