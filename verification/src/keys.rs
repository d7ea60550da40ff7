//! Logical keys, the classification of single bytes, and the table of
//! escape sequences.

use vstd::prelude::*;

verus! {

/// The byte that opens an escape sequence.
pub const ESC: u8 = 0x1b;

/// The byte `[`, which follows the escape byte in every sequence of the table.
pub const OPEN: u8 = 0x5b;

/// The byte `~`, which closes the sequences that are numbered by a digit.
pub const TILDE: u8 = 0x7e;

/// The byte `O`, which stands before the final letter of a keypad sequence.
pub const KEYPAD: u8 = 0x4f;

/// A cursor movement.
#[derive(Clone, Copy, Debug, PartialEq, Eq, Structural)]
pub enum Motion {
    Up,
    Down,
    Left,
    Right,
    PgUp,
    PgDn,
    Home,
    End,
}

/// One decoded key press.
#[derive(Clone, Copy, Debug, PartialEq, Eq, Structural)]
pub enum Key {
    /// A byte that stands for itself.
    Printable(u8),
    /// A navigation key.
    Move(Motion),
    /// A control character, named by the letter of its caret notation.
    Control(char),
    Delete,
    Backspace,
    Newline,
    /// The escape key pressed on its own.
    Escape,
}

/// The byte that a terminal sends when `byte` is typed with the control key
/// held down: the low five bits of `byte`.
pub open spec fn ctrl_code(byte: u8) -> u8 {
    byte & 0x1f
}

/// The byte that a terminal sends when `byte` is typed with the control key
/// held down.
pub fn ctrl_key(byte: u8) -> (code: u8)
    ensures
        code == ctrl_code(byte),
{
    byte & 0x1f
}

/// The key that a single byte outside an escape sequence stands for.
///
/// Delete-backwards (127) and carriage return (13) have keys of their own.
/// Every other byte below 32 is a control character named by the character
/// 64 places above it, so that byte 1 is `Control('A')`. All remaining bytes
/// are printable and stand for themselves. The decoder never asks for the
/// key of the escape byte; by this rule it would be `Control('[')`.
pub open spec fn key_of_byte(byte: u8) -> Key {
    if byte == 127 {
        Key::Backspace
    } else if byte == 13 {
        Key::Newline
    } else if byte < 32 {
        Key::Control((byte + 64) as char)
    } else {
        Key::Printable(byte)
    }
}

impl Key {
    /// Classifies a single byte that is not part of an escape sequence.
    pub fn from_byte(byte: u8) -> (key: Key)
        ensures
            key == key_of_byte(byte),
    {
        match byte {
            127 => Key::Backspace,
            13 => Key::Newline,
            _ => {
                if byte < 32 {
                    Key::Control((byte + 64) as char)
                } else {
                    Key::Printable(byte)
                }
            },
        }
    }
}

/// A match in the table of escape sequences.
#[derive(Clone, Copy, Debug, PartialEq, Eq, Structural)]
pub struct EscapeMatch {
    /// The key that the sequence stands for.
    pub key: Key,
    /// The third byte of the window, where the sequence was two bytes long
    /// and left it unused.
    pub spare: Option<u8>,
}

/// The movement named by the final letter of a two-byte sequence `[` letter.
pub open spec fn letter_motion(letter: u8) -> Option<Motion> {
    if letter as char == 'A' {
        Some(Motion::Up)
    } else if letter as char == 'B' {
        Some(Motion::Down)
    } else if letter as char == 'C' {
        Some(Motion::Right)
    } else if letter as char == 'D' {
        Some(Motion::Left)
    } else if letter as char == 'H' {
        Some(Motion::Home)
    } else if letter as char == 'F' {
        Some(Motion::End)
    } else {
        None
    }
}

/// The key named by the digit of a three-byte sequence `[` digit `~`.
pub open spec fn tilde_key(digit: u8) -> Option<Key> {
    if digit as char == '1' || digit as char == '7' {
        Some(Key::Move(Motion::Home))
    } else if digit as char == '4' || digit as char == '8' {
        Some(Key::Move(Motion::End))
    } else if digit as char == '5' {
        Some(Key::Move(Motion::PgUp))
    } else if digit as char == '6' {
        Some(Key::Move(Motion::PgDn))
    } else if digit as char == '3' {
        Some(Key::Delete)
    } else {
        None
    }
}

/// The movement named by the final letter of a three-byte sequence
/// `[` `O` letter.
pub open spec fn keypad_motion(letter: u8) -> Option<Motion> {
    if letter as char == 'H' {
        Some(Motion::Home)
    } else if letter as char == 'F' {
        Some(Motion::End)
    } else {
        None
    }
}

/// The table of escape sequences, applied to the three slots that follow an
/// escape byte. A slot is `None` where the read for it brought no byte.
///
/// Three empty slots are the escape key on its own. Every other entry begins
/// with `[`. A movement letter in the second slot is a whole sequence, and
/// the third slot is handed back unused. A digit in the second slot needs `~`
/// in the third, and `O` in the second needs `H` or `F` in the third.
/// The result is `None` where the slots match no entry.
pub open spec fn escape_table(first: Option<u8>, second: Option<u8>, third: Option<u8>) -> Option<
    EscapeMatch,
> {
    if first is None && second is None && third is None {
        Some(EscapeMatch { key: Key::Escape, spare: None })
    } else if first != Some(OPEN) || second is None {
        None
    } else if letter_motion(second->0) is Some {
        Some(EscapeMatch { key: Key::Move(letter_motion(second->0)->0), spare: third })
    } else if third == Some(TILDE) && tilde_key(second->0) is Some {
        Some(EscapeMatch { key: tilde_key(second->0)->0, spare: None })
    } else if second == Some(KEYPAD) && third is Some && keypad_motion(third->0) is Some {
        Some(EscapeMatch { key: Key::Move(keypad_motion(third->0)->0), spare: None })
    } else {
        None
    }
}

/// Looks the three slots that follow an escape byte up in the table of
/// escape sequences.
pub fn match_escape(first: Option<u8>, second: Option<u8>, third: Option<u8>) -> (found: Option<
    EscapeMatch,
>)
    ensures
        found == escape_table(first, second, third),
{
    let (key, spare) = match (first, second, third) {
        (None, None, None) => (Key::Escape, None),
        // `[ A`
        (Some(0x5b), Some(0x41), spare) => (Key::Move(Motion::Up), spare),
        // `[ B`
        (Some(0x5b), Some(0x42), spare) => (Key::Move(Motion::Down), spare),
        // `[ C`
        (Some(0x5b), Some(0x43), spare) => (Key::Move(Motion::Right), spare),
        // `[ D`
        (Some(0x5b), Some(0x44), spare) => (Key::Move(Motion::Left), spare),
        // `[ 5 ~`
        (Some(0x5b), Some(0x35), Some(0x7e)) => (Key::Move(Motion::PgUp), None),
        // `[ 6 ~`
        (Some(0x5b), Some(0x36), Some(0x7e)) => (Key::Move(Motion::PgDn), None),
        // `[ 1 ~`
        (Some(0x5b), Some(0x31), Some(0x7e)) => (Key::Move(Motion::Home), None),
        // `[ 7 ~`
        (Some(0x5b), Some(0x37), Some(0x7e)) => (Key::Move(Motion::Home), None),
        // `[ O H`
        (Some(0x5b), Some(0x4f), Some(0x48)) => (Key::Move(Motion::Home), None),
        // `[ H`
        (Some(0x5b), Some(0x48), spare) => (Key::Move(Motion::Home), spare),
        // `[ 4 ~`
        (Some(0x5b), Some(0x34), Some(0x7e)) => (Key::Move(Motion::End), None),
        // `[ 8 ~`
        (Some(0x5b), Some(0x38), Some(0x7e)) => (Key::Move(Motion::End), None),
        // `[ O F`
        (Some(0x5b), Some(0x4f), Some(0x46)) => (Key::Move(Motion::End), None),
        // `[ F`
        (Some(0x5b), Some(0x46), spare) => (Key::Move(Motion::End), spare),
        // `[ 3 ~`
        (Some(0x5b), Some(0x33), Some(0x7e)) => (Key::Delete, None),
        _ => {
            return None;
        },
    };
    Some(EscapeMatch { key, spare })
}

/// The bytes 1 to 26 are the control characters `A` to `Z`, in this order,
/// but for byte 13, the carriage return, which is the newline key.
pub proof fn lemma_control_letters(byte: u8)
    requires
        1 <= byte <= 26,
    ensures
        byte != 13 ==> key_of_byte(byte) == Key::Control((('A' as u8) + (byte - 1)) as char),
        byte == 13 ==> key_of_byte(byte) == Key::Newline,
{
}

/// A letter typed with the control key held down decodes to the control
/// character of that letter in upper case, whichever case was typed, but for
/// the letter M, whose control code is the carriage return.
pub proof fn lemma_ctrl_key_names_its_letter(letter: u8)
    requires
        'a' as u8 <= letter <= 'z' as u8 || 'A' as u8 <= letter <= 'Z' as u8,
        letter != 'm' as u8,
        letter != 'M' as u8,
    ensures
        'a' as u8 <= letter <= 'z' as u8 ==> key_of_byte(ctrl_code(letter)) == Key::Control(
            (letter - 32) as char,
        ),
        'A' as u8 <= letter <= 'Z' as u8 ==> key_of_byte(ctrl_code(letter)) == Key::Control(
            letter as char,
        ),
{
    assert(97 <= letter <= 122 ==> letter & 0x1f == letter - 96) by (bit_vector);
    assert(65 <= letter <= 90 ==> letter & 0x1f == letter - 64) by (bit_vector);
}

} // verus!
