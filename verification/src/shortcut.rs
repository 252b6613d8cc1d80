//! Global shortcuts: what one is, and how one is read from text.
//!
//! A shortcut is written as `MOD+MOD+KEY`: any number of modifier names, each followed by
//! `+`, and then the name of one key. Names are matched without regard to case and to the
//! whitespace around them.

use crate::text::{
    all_ascii, ascii_lower, ascii_upper, chars_of, is_whitespace, lowercase, spells, string_of,
    to_lowercase, to_uppercase, trim, trimmed, uppercase,
};
use vstd::prelude::*;
use vstd::slice::slice_subrange;
use vstd::string::StringExecFns;

verus! {

/// One of the four modifier keys.
#[derive(Clone, Copy, Debug, PartialEq, Eq, Structural)]
pub enum Modifier {
    Control,
    Shift,
    Alt,
    Super,
}

/// A set of modifier keys.
#[derive(Clone, Copy, Debug, PartialEq, Eq, Structural)]
pub struct Modifiers {
    pub control: bool,
    pub shift: bool,
    pub alt: bool,
    pub super_key: bool,
}

/// A physical key that a shortcut can end in.
#[derive(Clone, Copy, Debug, PartialEq, Eq, Structural)]
pub enum KeyCode {
    KeyA,
    KeyB,
    KeyC,
    KeyD,
    KeyE,
    KeyF,
    KeyG,
    KeyH,
    KeyI,
    KeyJ,
    KeyK,
    KeyL,
    KeyM,
    KeyN,
    KeyO,
    KeyP,
    KeyQ,
    KeyR,
    KeyS,
    KeyT,
    KeyU,
    KeyV,
    KeyW,
    KeyX,
    KeyY,
    KeyZ,
    Digit0,
    Digit1,
    Digit2,
    Digit3,
    Digit4,
    Digit5,
    Digit6,
    Digit7,
    Digit8,
    Digit9,
    F1,
    F2,
    F3,
    F4,
    F5,
    F6,
    F7,
    F8,
    F9,
    F10,
    F11,
    F12,
    Space,
    Enter,
    Escape,
    Tab,
    Backspace,
    Delete,
    Home,
    End,
    PageUp,
    PageDown,
    ArrowUp,
    ArrowDown,
    ArrowLeft,
    ArrowRight,
    Insert,
}

/// A shortcut: the modifiers to hold, and the key to press.
#[derive(Clone, Copy, Debug, PartialEq, Eq, Structural)]
pub struct ShortcutSpec {
    pub modifiers: Modifiers,
    pub key: KeyCode,
}

/// Why a text is not a shortcut.
#[derive(Clone, Debug, PartialEq, Eq)]
pub enum ParseError {
    /// The text is empty.
    Empty,
    /// A part before the last `+` is not the name of a modifier. The token is the part as
    /// it was written.
    UnknownModifier { token: String },
    /// The part after the last `+` is not the name of a key. The token is the part
    /// without the whitespace around it.
    UnknownKey { token: String },
}

/// The mathematical content of a [`ParseError`].
pub enum ParseFailure {
    Empty,
    UnknownModifier { token: Seq<char> },
    UnknownKey { token: Seq<char> },
}

impl View for ParseError {
    type V = ParseFailure;

    open spec fn view(&self) -> ParseFailure {
        match self {
            ParseError::Empty => ParseFailure::Empty,
            ParseError::UnknownModifier { token } => ParseFailure::UnknownModifier {
                token: token@,
            },
            ParseError::UnknownKey { token } => ParseFailure::UnknownKey { token: token@ },
        }
    }
}

/// The character that separates the parts of a shortcut.
pub const SEPARATOR: char = '+';

/// The number of keys that have a name.
pub const KEY_COUNT: usize = 63;

pub const EMPTY_MESSAGE: &'static str = "Empty shortcut string";

pub const UNKNOWN_MODIFIER_MESSAGE: &'static str = "Unknown modifier: ";

pub const UNKNOWN_KEY_MESSAGE: &'static str = "Unknown key: ";

/// The name of a key, as the key table spells it.
pub open spec fn key_name(key: KeyCode) -> Seq<char> {
    match key {
        KeyCode::KeyA => "A"@,
        KeyCode::KeyB => "B"@,
        KeyCode::KeyC => "C"@,
        KeyCode::KeyD => "D"@,
        KeyCode::KeyE => "E"@,
        KeyCode::KeyF => "F"@,
        KeyCode::KeyG => "G"@,
        KeyCode::KeyH => "H"@,
        KeyCode::KeyI => "I"@,
        KeyCode::KeyJ => "J"@,
        KeyCode::KeyK => "K"@,
        KeyCode::KeyL => "L"@,
        KeyCode::KeyM => "M"@,
        KeyCode::KeyN => "N"@,
        KeyCode::KeyO => "O"@,
        KeyCode::KeyP => "P"@,
        KeyCode::KeyQ => "Q"@,
        KeyCode::KeyR => "R"@,
        KeyCode::KeyS => "S"@,
        KeyCode::KeyT => "T"@,
        KeyCode::KeyU => "U"@,
        KeyCode::KeyV => "V"@,
        KeyCode::KeyW => "W"@,
        KeyCode::KeyX => "X"@,
        KeyCode::KeyY => "Y"@,
        KeyCode::KeyZ => "Z"@,
        KeyCode::Digit0 => "0"@,
        KeyCode::Digit1 => "1"@,
        KeyCode::Digit2 => "2"@,
        KeyCode::Digit3 => "3"@,
        KeyCode::Digit4 => "4"@,
        KeyCode::Digit5 => "5"@,
        KeyCode::Digit6 => "6"@,
        KeyCode::Digit7 => "7"@,
        KeyCode::Digit8 => "8"@,
        KeyCode::Digit9 => "9"@,
        KeyCode::F1 => "F1"@,
        KeyCode::F2 => "F2"@,
        KeyCode::F3 => "F3"@,
        KeyCode::F4 => "F4"@,
        KeyCode::F5 => "F5"@,
        KeyCode::F6 => "F6"@,
        KeyCode::F7 => "F7"@,
        KeyCode::F8 => "F8"@,
        KeyCode::F9 => "F9"@,
        KeyCode::F10 => "F10"@,
        KeyCode::F11 => "F11"@,
        KeyCode::F12 => "F12"@,
        KeyCode::Space => "SPACE"@,
        KeyCode::Enter => "ENTER"@,
        KeyCode::Escape => "ESCAPE"@,
        KeyCode::Tab => "TAB"@,
        KeyCode::Backspace => "BACKSPACE"@,
        KeyCode::Delete => "DELETE"@,
        KeyCode::Home => "HOME"@,
        KeyCode::End => "END"@,
        KeyCode::PageUp => "PAGEUP"@,
        KeyCode::PageDown => "PAGEDOWN"@,
        KeyCode::ArrowUp => "ARROWUP"@,
        KeyCode::ArrowDown => "ARROWDOWN"@,
        KeyCode::ArrowLeft => "ARROWLEFT"@,
        KeyCode::ArrowRight => "ARROWRIGHT"@,
        KeyCode::Insert => "INSERT"@,
    }
}

/// The place of a key in the key table.
pub open spec fn key_ordinal(key: KeyCode) -> nat {
    match key {
        KeyCode::KeyA => 0,
        KeyCode::KeyB => 1,
        KeyCode::KeyC => 2,
        KeyCode::KeyD => 3,
        KeyCode::KeyE => 4,
        KeyCode::KeyF => 5,
        KeyCode::KeyG => 6,
        KeyCode::KeyH => 7,
        KeyCode::KeyI => 8,
        KeyCode::KeyJ => 9,
        KeyCode::KeyK => 10,
        KeyCode::KeyL => 11,
        KeyCode::KeyM => 12,
        KeyCode::KeyN => 13,
        KeyCode::KeyO => 14,
        KeyCode::KeyP => 15,
        KeyCode::KeyQ => 16,
        KeyCode::KeyR => 17,
        KeyCode::KeyS => 18,
        KeyCode::KeyT => 19,
        KeyCode::KeyU => 20,
        KeyCode::KeyV => 21,
        KeyCode::KeyW => 22,
        KeyCode::KeyX => 23,
        KeyCode::KeyY => 24,
        KeyCode::KeyZ => 25,
        KeyCode::Digit0 => 26,
        KeyCode::Digit1 => 27,
        KeyCode::Digit2 => 28,
        KeyCode::Digit3 => 29,
        KeyCode::Digit4 => 30,
        KeyCode::Digit5 => 31,
        KeyCode::Digit6 => 32,
        KeyCode::Digit7 => 33,
        KeyCode::Digit8 => 34,
        KeyCode::Digit9 => 35,
        KeyCode::F1 => 36,
        KeyCode::F2 => 37,
        KeyCode::F3 => 38,
        KeyCode::F4 => 39,
        KeyCode::F5 => 40,
        KeyCode::F6 => 41,
        KeyCode::F7 => 42,
        KeyCode::F8 => 43,
        KeyCode::F9 => 44,
        KeyCode::F10 => 45,
        KeyCode::F11 => 46,
        KeyCode::F12 => 47,
        KeyCode::Space => 48,
        KeyCode::Enter => 49,
        KeyCode::Escape => 50,
        KeyCode::Tab => 51,
        KeyCode::Backspace => 52,
        KeyCode::Delete => 53,
        KeyCode::Home => 54,
        KeyCode::End => 55,
        KeyCode::PageUp => 56,
        KeyCode::PageDown => 57,
        KeyCode::ArrowUp => 58,
        KeyCode::ArrowDown => 59,
        KeyCode::ArrowLeft => 60,
        KeyCode::ArrowRight => 61,
        KeyCode::Insert => 62,
    }
}

/// The key whose name is `name`, if there is one.
pub open spec fn key_named(name: Seq<char>) -> Option<KeyCode> {
    if exists|key: KeyCode| key_name(key) == name {
        Some(choose|key: KeyCode| key_name(key) == name)
    } else {
        None
    }
}

/// The key that a token stands for: the token is trimmed and folded to upper case, then
/// looked up in the key table.
pub open spec fn key_of(token: Seq<char>) -> Option<KeyCode> {
    key_named(uppercase(trimmed(token)))
}

/// The modifier that a token stands for: the token is trimmed and folded to lower case,
/// then matched against the modifier names and their synonyms.
pub open spec fn modifier_of(token: Seq<char>) -> Option<Modifier> {
    let t = lowercase(trimmed(token));
    if t == "ctrl"@ || t == "control"@ {
        Some(Modifier::Control)
    } else if t == "shift"@ {
        Some(Modifier::Shift)
    } else if t == "alt"@ {
        Some(Modifier::Alt)
    } else if t == "super"@ || t == "win"@ || t == "meta"@ {
        Some(Modifier::Super)
    } else {
        None
    }
}

/// The set with no modifier in it.
pub open spec fn no_modifiers() -> Modifiers {
    Modifiers { control: false, shift: false, alt: false, super_key: false }
}

/// The set `set` with `modifier` added.
pub open spec fn with_modifier(set: Modifiers, modifier: Modifier) -> Modifiers {
    match modifier {
        Modifier::Control => Modifiers { control: true, ..set },
        Modifier::Shift => Modifiers { shift: true, ..set },
        Modifier::Alt => Modifiers { alt: true, ..set },
        Modifier::Super => Modifiers { super_key: true, ..set },
    }
}

/// What follows the last separator of `s`; all of `s` where it has none.
pub open spec fn last_part(s: Seq<char>) -> Seq<char>
    decreases s.len(),
{
    if s.len() == 0 || s.last() == SEPARATOR {
        Seq::empty()
    } else {
        last_part(s.drop_last()).push(s.last())
    }
}

/// The parts of `s` that a separator ends, in order.
pub open spec fn leading_parts(s: Seq<char>) -> Seq<Seq<char>>
    decreases s.len(),
{
    if s.len() == 0 {
        Seq::empty()
    } else if s.last() == SEPARATOR {
        leading_parts(s.drop_last()).push(last_part(s.drop_last()))
    } else {
        leading_parts(s.drop_last())
    }
}

/// The first of `parts` that is not the name of a modifier.
pub open spec fn first_unknown_modifier(parts: Seq<Seq<char>>) -> Option<Seq<char>>
    decreases parts.len(),
{
    if parts.len() == 0 {
        None
    } else {
        match first_unknown_modifier(parts.drop_last()) {
            Some(token) => Some(token),
            None => if modifier_of(parts.last()) is None {
                Some(parts.last())
            } else {
                None
            },
        }
    }
}

/// The modifiers that `parts` name.
pub open spec fn modifier_set(parts: Seq<Seq<char>>) -> Modifiers
    decreases parts.len(),
{
    if parts.len() == 0 {
        no_modifiers()
    } else {
        match modifier_of(parts.last()) {
            Some(modifier) => with_modifier(modifier_set(parts.drop_last()), modifier),
            None => modifier_set(parts.drop_last()),
        }
    }
}

/// What a text means as a shortcut.
///
/// The empty text is refused as such. Otherwise every part before the last separator must
/// name a modifier, and the first that does not is reported; then the part after the last
/// separator must name a key.
pub open spec fn parse_result(s: Seq<char>) -> Result<ShortcutSpec, ParseFailure> {
    if s.len() == 0 {
        Err(ParseFailure::Empty)
    } else {
        match first_unknown_modifier(leading_parts(s)) {
            Some(token) => Err(ParseFailure::UnknownModifier { token }),
            None => match key_of(last_part(s)) {
                Some(key) => Ok(ShortcutSpec { modifiers: modifier_set(leading_parts(s)), key }),
                None => Err(ParseFailure::UnknownKey { token: trimmed(last_part(s)) }),
            },
        }
    }
}

/// The canonical spelling of a set of modifiers: each name followed by a separator, in
/// the order control, shift, alt, super.
pub open spec fn canonical_modifiers(set: Modifiers) -> Seq<char> {
    (if set.control {
        "Ctrl+"@
    } else {
        Seq::empty()
    }) + (if set.shift {
        "Shift+"@
    } else {
        Seq::empty()
    }) + (if set.alt {
        "Alt+"@
    } else {
        Seq::empty()
    }) + (if set.super_key {
        "Super+"@
    } else {
        Seq::empty()
    })
}

/// The canonical spelling of a shortcut.
pub open spec fn canonical(spec: ShortcutSpec) -> Seq<char> {
    canonical_modifiers(spec.modifiers) + key_name(spec.key)
}

/// The message of a failure, as shown to the user.
pub open spec fn failure_message(failure: ParseFailure) -> Seq<char> {
    match failure {
        ParseFailure::Empty => EMPTY_MESSAGE@,
        ParseFailure::UnknownModifier { token } => UNKNOWN_MODIFIER_MESSAGE@ + token,
        ParseFailure::UnknownKey { token } => UNKNOWN_KEY_MESSAGE@ + token,
    }
}

impl KeyCode {
    /// The name of the key, as the key table spells it.
    pub fn name(self) -> (r: &'static str)
        ensures
            r@ == key_name(self),
    {
        match self {
        KeyCode::KeyA => "A",
        KeyCode::KeyB => "B",
        KeyCode::KeyC => "C",
        KeyCode::KeyD => "D",
        KeyCode::KeyE => "E",
        KeyCode::KeyF => "F",
        KeyCode::KeyG => "G",
        KeyCode::KeyH => "H",
        KeyCode::KeyI => "I",
        KeyCode::KeyJ => "J",
        KeyCode::KeyK => "K",
        KeyCode::KeyL => "L",
        KeyCode::KeyM => "M",
        KeyCode::KeyN => "N",
        KeyCode::KeyO => "O",
        KeyCode::KeyP => "P",
        KeyCode::KeyQ => "Q",
        KeyCode::KeyR => "R",
        KeyCode::KeyS => "S",
        KeyCode::KeyT => "T",
        KeyCode::KeyU => "U",
        KeyCode::KeyV => "V",
        KeyCode::KeyW => "W",
        KeyCode::KeyX => "X",
        KeyCode::KeyY => "Y",
        KeyCode::KeyZ => "Z",
        KeyCode::Digit0 => "0",
        KeyCode::Digit1 => "1",
        KeyCode::Digit2 => "2",
        KeyCode::Digit3 => "3",
        KeyCode::Digit4 => "4",
        KeyCode::Digit5 => "5",
        KeyCode::Digit6 => "6",
        KeyCode::Digit7 => "7",
        KeyCode::Digit8 => "8",
        KeyCode::Digit9 => "9",
        KeyCode::F1 => "F1",
        KeyCode::F2 => "F2",
        KeyCode::F3 => "F3",
        KeyCode::F4 => "F4",
        KeyCode::F5 => "F5",
        KeyCode::F6 => "F6",
        KeyCode::F7 => "F7",
        KeyCode::F8 => "F8",
        KeyCode::F9 => "F9",
        KeyCode::F10 => "F10",
        KeyCode::F11 => "F11",
        KeyCode::F12 => "F12",
        KeyCode::Space => "SPACE",
        KeyCode::Enter => "ENTER",
        KeyCode::Escape => "ESCAPE",
        KeyCode::Tab => "TAB",
        KeyCode::Backspace => "BACKSPACE",
        KeyCode::Delete => "DELETE",
        KeyCode::Home => "HOME",
        KeyCode::End => "END",
        KeyCode::PageUp => "PAGEUP",
        KeyCode::PageDown => "PAGEDOWN",
        KeyCode::ArrowUp => "ARROWUP",
        KeyCode::ArrowDown => "ARROWDOWN",
        KeyCode::ArrowLeft => "ARROWLEFT",
        KeyCode::ArrowRight => "ARROWRIGHT",
        KeyCode::Insert => "INSERT",
        }
    }
}

/// The key at a place of the key table.
fn key_at(ordinal: usize) -> (r: KeyCode)
    requires
        ordinal < KEY_COUNT,
    ensures
        key_ordinal(r) == ordinal,
{
    match ordinal {
        0 => KeyCode::KeyA,
        1 => KeyCode::KeyB,
        2 => KeyCode::KeyC,
        3 => KeyCode::KeyD,
        4 => KeyCode::KeyE,
        5 => KeyCode::KeyF,
        6 => KeyCode::KeyG,
        7 => KeyCode::KeyH,
        8 => KeyCode::KeyI,
        9 => KeyCode::KeyJ,
        10 => KeyCode::KeyK,
        11 => KeyCode::KeyL,
        12 => KeyCode::KeyM,
        13 => KeyCode::KeyN,
        14 => KeyCode::KeyO,
        15 => KeyCode::KeyP,
        16 => KeyCode::KeyQ,
        17 => KeyCode::KeyR,
        18 => KeyCode::KeyS,
        19 => KeyCode::KeyT,
        20 => KeyCode::KeyU,
        21 => KeyCode::KeyV,
        22 => KeyCode::KeyW,
        23 => KeyCode::KeyX,
        24 => KeyCode::KeyY,
        25 => KeyCode::KeyZ,
        26 => KeyCode::Digit0,
        27 => KeyCode::Digit1,
        28 => KeyCode::Digit2,
        29 => KeyCode::Digit3,
        30 => KeyCode::Digit4,
        31 => KeyCode::Digit5,
        32 => KeyCode::Digit6,
        33 => KeyCode::Digit7,
        34 => KeyCode::Digit8,
        35 => KeyCode::Digit9,
        36 => KeyCode::F1,
        37 => KeyCode::F2,
        38 => KeyCode::F3,
        39 => KeyCode::F4,
        40 => KeyCode::F5,
        41 => KeyCode::F6,
        42 => KeyCode::F7,
        43 => KeyCode::F8,
        44 => KeyCode::F9,
        45 => KeyCode::F10,
        46 => KeyCode::F11,
        47 => KeyCode::F12,
        48 => KeyCode::Space,
        49 => KeyCode::Enter,
        50 => KeyCode::Escape,
        51 => KeyCode::Tab,
        52 => KeyCode::Backspace,
        53 => KeyCode::Delete,
        54 => KeyCode::Home,
        55 => KeyCode::End,
        56 => KeyCode::PageUp,
        57 => KeyCode::PageDown,
        58 => KeyCode::ArrowUp,
        59 => KeyCode::ArrowDown,
        60 => KeyCode::ArrowLeft,
        61 => KeyCode::ArrowRight,
        _ => KeyCode::Insert,
    }
}

/// The characters that key names are made of: upper-case letters and digits.
pub open spec fn is_name_char(c: char) -> bool {
    ('A' <= c <= 'Z') || ('0' <= c <= '9')
}

/// Every key name is a non-empty run of upper-case letters and digits.
pub proof fn lemma_key_names_are_plain(key: KeyCode)
    ensures
        key_name(key).len() > 0,
        forall|i: int| 0 <= i < key_name(key).len() ==> is_name_char(#[trigger] key_name(key)[i]),
{
    reveal_strlit("A");
    reveal_strlit("B");
    reveal_strlit("C");
    reveal_strlit("D");
    reveal_strlit("E");
    reveal_strlit("F");
    reveal_strlit("G");
    reveal_strlit("H");
    reveal_strlit("I");
    reveal_strlit("J");
    reveal_strlit("K");
    reveal_strlit("L");
    reveal_strlit("M");
    reveal_strlit("N");
    reveal_strlit("O");
    reveal_strlit("P");
    reveal_strlit("Q");
    reveal_strlit("R");
    reveal_strlit("S");
    reveal_strlit("T");
    reveal_strlit("U");
    reveal_strlit("V");
    reveal_strlit("W");
    reveal_strlit("X");
    reveal_strlit("Y");
    reveal_strlit("Z");
    reveal_strlit("0");
    reveal_strlit("1");
    reveal_strlit("2");
    reveal_strlit("3");
    reveal_strlit("4");
    reveal_strlit("5");
    reveal_strlit("6");
    reveal_strlit("7");
    reveal_strlit("8");
    reveal_strlit("9");
    reveal_strlit("F1");
    reveal_strlit("F2");
    reveal_strlit("F3");
    reveal_strlit("F4");
    reveal_strlit("F5");
    reveal_strlit("F6");
    reveal_strlit("F7");
    reveal_strlit("F8");
    reveal_strlit("F9");
    reveal_strlit("F10");
    reveal_strlit("F11");
    reveal_strlit("F12");
    reveal_strlit("SPACE");
    reveal_strlit("ENTER");
    reveal_strlit("ESCAPE");
    reveal_strlit("TAB");
    reveal_strlit("BACKSPACE");
    reveal_strlit("DELETE");
    reveal_strlit("HOME");
    reveal_strlit("END");
    reveal_strlit("PAGEUP");
    reveal_strlit("PAGEDOWN");
    reveal_strlit("ARROWUP");
    reveal_strlit("ARROWDOWN");
    reveal_strlit("ARROWLEFT");
    reveal_strlit("ARROWRIGHT");
    reveal_strlit("INSERT");
}

/// Two keys with the same name are the same key.
pub proof fn lemma_key_name_injective(a: KeyCode, b: KeyCode)
    requires
        key_name(a) == key_name(b),
    ensures
        a == b,
{
    reveal_strlit("A");
    reveal_strlit("B");
    reveal_strlit("C");
    reveal_strlit("D");
    reveal_strlit("E");
    reveal_strlit("F");
    reveal_strlit("G");
    reveal_strlit("H");
    reveal_strlit("I");
    reveal_strlit("J");
    reveal_strlit("K");
    reveal_strlit("L");
    reveal_strlit("M");
    reveal_strlit("N");
    reveal_strlit("O");
    reveal_strlit("P");
    reveal_strlit("Q");
    reveal_strlit("R");
    reveal_strlit("S");
    reveal_strlit("T");
    reveal_strlit("U");
    reveal_strlit("V");
    reveal_strlit("W");
    reveal_strlit("X");
    reveal_strlit("Y");
    reveal_strlit("Z");
    reveal_strlit("0");
    reveal_strlit("1");
    reveal_strlit("2");
    reveal_strlit("3");
    reveal_strlit("4");
    reveal_strlit("5");
    reveal_strlit("6");
    reveal_strlit("7");
    reveal_strlit("8");
    reveal_strlit("9");
    reveal_strlit("F1");
    reveal_strlit("F2");
    reveal_strlit("F3");
    reveal_strlit("F4");
    reveal_strlit("F5");
    reveal_strlit("F6");
    reveal_strlit("F7");
    reveal_strlit("F8");
    reveal_strlit("F9");
    reveal_strlit("F10");
    reveal_strlit("F11");
    reveal_strlit("F12");
    reveal_strlit("SPACE");
    reveal_strlit("ENTER");
    reveal_strlit("ESCAPE");
    reveal_strlit("TAB");
    reveal_strlit("BACKSPACE");
    reveal_strlit("DELETE");
    reveal_strlit("HOME");
    reveal_strlit("END");
    reveal_strlit("PAGEUP");
    reveal_strlit("PAGEDOWN");
    reveal_strlit("ARROWUP");
    reveal_strlit("ARROWDOWN");
    reveal_strlit("ARROWLEFT");
    reveal_strlit("ARROWRIGHT");
    reveal_strlit("INSERT");
    let name = key_name(b);
    assert(name == key_name(a) && name.len() > 0 && name.first() == name[0] && name.last()
        == name[name.len() - 1]);
    match a {
        KeyCode::KeyA => assert(b is KeyA),
        KeyCode::KeyB => assert(b is KeyB),
        KeyCode::KeyC => assert(b is KeyC),
        KeyCode::KeyD => assert(b is KeyD),
        KeyCode::KeyE => assert(b is KeyE),
        KeyCode::KeyF => assert(b is KeyF),
        KeyCode::KeyG => assert(b is KeyG),
        KeyCode::KeyH => assert(b is KeyH),
        KeyCode::KeyI => assert(b is KeyI),
        KeyCode::KeyJ => assert(b is KeyJ),
        KeyCode::KeyK => assert(b is KeyK),
        KeyCode::KeyL => assert(b is KeyL),
        KeyCode::KeyM => assert(b is KeyM),
        KeyCode::KeyN => assert(b is KeyN),
        KeyCode::KeyO => assert(b is KeyO),
        KeyCode::KeyP => assert(b is KeyP),
        KeyCode::KeyQ => assert(b is KeyQ),
        KeyCode::KeyR => assert(b is KeyR),
        KeyCode::KeyS => assert(b is KeyS),
        KeyCode::KeyT => assert(b is KeyT),
        KeyCode::KeyU => assert(b is KeyU),
        KeyCode::KeyV => assert(b is KeyV),
        KeyCode::KeyW => assert(b is KeyW),
        KeyCode::KeyX => assert(b is KeyX),
        KeyCode::KeyY => assert(b is KeyY),
        KeyCode::KeyZ => assert(b is KeyZ),
        KeyCode::Digit0 => assert(b is Digit0),
        KeyCode::Digit1 => assert(b is Digit1),
        KeyCode::Digit2 => assert(b is Digit2),
        KeyCode::Digit3 => assert(b is Digit3),
        KeyCode::Digit4 => assert(b is Digit4),
        KeyCode::Digit5 => assert(b is Digit5),
        KeyCode::Digit6 => assert(b is Digit6),
        KeyCode::Digit7 => assert(b is Digit7),
        KeyCode::Digit8 => assert(b is Digit8),
        KeyCode::Digit9 => assert(b is Digit9),
        KeyCode::F1 => assert(b is F1),
        KeyCode::F2 => assert(b is F2),
        KeyCode::F3 => assert(b is F3),
        KeyCode::F4 => assert(b is F4),
        KeyCode::F5 => assert(b is F5),
        KeyCode::F6 => assert(b is F6),
        KeyCode::F7 => assert(b is F7),
        KeyCode::F8 => assert(b is F8),
        KeyCode::F9 => assert(b is F9),
        KeyCode::F10 => assert(b is F10),
        KeyCode::F11 => assert(b is F11),
        KeyCode::F12 => assert(b is F12),
        KeyCode::Space => assert(b is Space),
        KeyCode::Enter => assert(b is Enter),
        KeyCode::Escape => assert(b is Escape),
        KeyCode::Tab => assert(b is Tab),
        KeyCode::Backspace => assert(b is Backspace),
        KeyCode::Delete => assert(b is Delete),
        KeyCode::Home => assert(b is Home),
        KeyCode::End => assert(b is End),
        KeyCode::PageUp => assert(b is PageUp),
        KeyCode::PageDown => assert(b is PageDown),
        KeyCode::ArrowUp => assert(b is ArrowUp),
        KeyCode::ArrowDown => assert(b is ArrowDown),
        KeyCode::ArrowLeft => assert(b is ArrowLeft),
        KeyCode::ArrowRight => assert(b is ArrowRight),
        KeyCode::Insert => assert(b is Insert),
    }
}

/// Every key has its place in the key table, and `key_at` finds it there.
proof fn lemma_ordinal_in_table(key: KeyCode)
    ensures
        key_ordinal(key) < KEY_COUNT,
{
}

/// Two keys at the same place of the key table are the same key.
proof fn lemma_ordinal_injective(a: KeyCode, b: KeyCode)
    requires
        key_ordinal(a) == key_ordinal(b),
    ensures
        a == b,
{
}

/// Looks a name up in the key table.
pub fn find_key(name: &[char]) -> (r: Option<KeyCode>)
    ensures
        r == key_named(name@),
{
    let mut i: usize = 0;
    while i < KEY_COUNT
        invariant
            i <= KEY_COUNT,
            forall|k: KeyCode| key_ordinal(k) < i ==> key_name(k) != name@,
        decreases KEY_COUNT - i,
    {
        let key = key_at(i);
        if spells(name, key.name()) {
            proof {
                let chosen = choose|k: KeyCode| key_name(k) == name@;
                lemma_key_name_injective(chosen, key);
            }
            return Some(key);
        }
        proof {
            assert forall|k: KeyCode| key_ordinal(k) < i + 1 implies key_name(k) != name@ by {
                if key_ordinal(k) == i {
                    lemma_ordinal_injective(k, key);
                }
            }
        }
        i += 1;
    }
    proof {
        assert forall|k: KeyCode| key_name(k) != name@ by {
            lemma_ordinal_in_table(k);
        }
    }
    None
}

/// Reads a token as the name of a key.
pub fn key_of_token(token: &[char]) -> (r: Option<KeyCode>)
    ensures
        r == key_of(token@),
{
    let folded = to_uppercase(trim(token));
    find_key(folded.as_slice())
}

/// Reads a token as the name of a modifier.
pub fn modifier_of_token(token: &[char]) -> (r: Option<Modifier>)
    ensures
        r == modifier_of(token@),
{
    let folded = to_lowercase(trim(token));
    let t = folded.as_slice();
    if spells(t, "ctrl") || spells(t, "control") {
        Some(Modifier::Control)
    } else if spells(t, "shift") {
        Some(Modifier::Shift)
    } else if spells(t, "alt") {
        Some(Modifier::Alt)
    } else if spells(t, "super") || spells(t, "win") || spells(t, "meta") {
        Some(Modifier::Super)
    } else {
        None
    }
}

impl Modifiers {
    /// The set with no modifier in it.
    pub fn none() -> (r: Modifiers)
        ensures
            r == no_modifiers(),
    {
        Modifiers { control: false, shift: false, alt: false, super_key: false }
    }

    /// The set with `modifier` added.
    pub fn with(self, modifier: Modifier) -> (r: Modifiers)
        ensures
            r == with_modifier(self, modifier),
    {
        match modifier {
            Modifier::Control => Modifiers { control: true, ..self },
            Modifier::Shift => Modifiers { shift: true, ..self },
            Modifier::Alt => Modifiers { alt: true, ..self },
            Modifier::Super => Modifiers { super_key: true, ..self },
        }
    }

    /// Whether no modifier is in the set.
    pub fn is_empty(self) -> (r: bool)
        ensures
            r == (self == no_modifiers()),
    {
        !self.control && !self.shift && !self.alt && !self.super_key
    }
}

/// Reads a shortcut from its text.
pub fn parse_shortcut(text: &str) -> (r: Result<ShortcutSpec, ParseError>)
    ensures
        match r {
            Ok(spec) => parse_result(text@) == Ok::<ShortcutSpec, ParseFailure>(spec),
            Err(error) => parse_result(text@) == Err::<ShortcutSpec, ParseFailure>(error@),
        },
{
    let owned = chars_of(text);
    let chars = owned.as_slice();
    if chars.len() == 0 {
        return Err(ParseError::Empty);
    }
    let mut modifiers = Modifiers::none();
    let mut unknown: Option<String> = None;
    let mut start: usize = 0;
    let mut i: usize = 0;
    proof {
        assert(chars@.subrange(0, 0) == last_part(chars@.take(0)));
    }
    while i < chars.len()
        invariant
            start <= i <= chars.len(),
            chars@ == text@,
            chars@.subrange(start as int, i as int) == last_part(chars@.take(i as int)),
            match unknown {
                Some(token) => first_unknown_modifier(leading_parts(chars@.take(i as int)))
                    == Some(token@),
                None => first_unknown_modifier(leading_parts(chars@.take(i as int))) is None,
            },
            modifiers == modifier_set(leading_parts(chars@.take(i as int))),
        decreases chars.len() - i,
    {
        proof {
            assert(chars@.take(i + 1).drop_last() == chars@.take(i as int));
            assert(chars@.take(i + 1).last() == chars@[i as int]);
        }
        if chars[i] == SEPARATOR {
            let part = slice_subrange(chars, start, i);
            proof {
                let parts = leading_parts(chars@.take(i + 1));
                assert(parts == leading_parts(chars@.take(i as int)).push(part@));
                assert(parts.drop_last() == leading_parts(chars@.take(i as int)));
                assert(parts.last() == part@);
            }
            match modifier_of_token(part) {
                Some(modifier) => {
                    modifiers = modifiers.with(modifier);
                },
                None => {
                    if unknown.is_none() {
                        unknown = Some(string_of(part));
                    }
                },
            }
            start = i + 1;
            proof {
                assert(chars@.subrange(start as int, i + 1) == Seq::<char>::empty());
            }
        } else {
            proof {
                assert(chars@.subrange(start as int, i + 1) == chars@.subrange(
                    start as int,
                    i as int,
                ).push(chars@[i as int]));
            }
        }
        i += 1;
    }
    proof {
        assert(chars@.take(i as int) == chars@);
    }
    match unknown {
        Some(token) => Err(ParseError::UnknownModifier { token }),
        None => {
            let key_token = slice_subrange(chars, start, chars.len());
            match key_of_token(key_token) {
                Some(key) => Ok(ShortcutSpec { modifiers, key }),
                None => Err(ParseError::UnknownKey { token: string_of(trim(key_token)) }),
            }
        },
    }
}

impl ShortcutSpec {
    /// The canonical spelling of the shortcut.
    pub fn to_canonical_string(&self) -> (r: String)
        ensures
            r@ == canonical(*self),
    {
        let mut out = String::new();
        if self.modifiers.control {
            out.append("Ctrl+");
        }
        if self.modifiers.shift {
            out.append("Shift+");
        }
        if self.modifiers.alt {
            out.append("Alt+");
        }
        if self.modifiers.super_key {
            out.append("Super+");
        }
        out.append(self.key.name());
        out
    }
}

impl ParseError {
    /// The message of the error, as shown to the user.
    pub fn message(&self) -> (r: String)
        ensures
            r@ == failure_message(self@),
    {
        match self {
            ParseError::Empty => EMPTY_MESSAGE.to_owned(),
            ParseError::UnknownModifier { token } => {
                let mut out = UNKNOWN_MODIFIER_MESSAGE.to_owned();
                out.append(token.as_str());
                out
            },
            ParseError::UnknownKey { token } => {
                let mut out = UNKNOWN_KEY_MESSAGE.to_owned();
                out.append(token.as_str());
                out
            },
        }
    }
}

/// A run of characters without a separator only makes the last part longer.
pub proof fn lemma_part_without_separator(s: Seq<char>, part: Seq<char>)
    requires
        !part.contains(SEPARATOR),
    ensures
        last_part(s + part) == last_part(s) + part,
        leading_parts(s + part) == leading_parts(s),
    decreases part.len(),
{
    if part.len() == 0 {
        assert(s + part == s);
        assert(last_part(s) + part == last_part(s));
    } else {
        assert(part.last() == part[part.len() - 1]);
        assert forall|i: int| 0 <= i < part.drop_last().len() implies part.drop_last()[i]
            != SEPARATOR by {
            assert(part.drop_last()[i] == part[i]);
        }
        lemma_part_without_separator(s, part.drop_last());
        assert((s + part).drop_last() == s + part.drop_last());
        assert((s + part).last() == part.last());
        assert((last_part(s) + part.drop_last()).push(part.last()) == last_part(s) + part);
    }
}

/// Writing a modifier's name and a separator behind a text that ends in a separator, or
/// behind nothing, adds that one part and leaves nothing open.
proof fn lemma_modifier_written(s: Seq<char>, name: Seq<char>, modifier: Modifier)
    requires
        last_part(s).len() == 0,
        !name.contains(SEPARATOR),
        modifier_of(name) == Some(modifier),
        first_unknown_modifier(leading_parts(s)) is None,
    ensures
        last_part(s + name.push(SEPARATOR)).len() == 0,
        first_unknown_modifier(leading_parts(s + name.push(SEPARATOR))) is None,
        modifier_set(leading_parts(s + name.push(SEPARATOR))) == with_modifier(
            modifier_set(leading_parts(s)),
            modifier,
        ),
{
    let written = s + name.push(SEPARATOR);
    lemma_part_without_separator(s, name);
    assert(written.drop_last() == s + name);
    assert(written.last() == SEPARATOR);
    assert(last_part(s) + name == name);
    let parts = leading_parts(written);
    assert(parts == leading_parts(s).push(name));
    assert(parts.drop_last() == leading_parts(s));
    assert(parts.last() == name);
}

/// A name that is made of ASCII characters and neither begins nor ends with whitespace
/// is its own trimmed form.
proof fn lemma_trimmed_is_identity(name: Seq<char>)
    requires
        name.len() > 0,
        !is_whitespace(name.first()),
        !is_whitespace(name.last()),
    ensures
        trimmed(name) == name,
{
}

/// The canonical names of the modifiers are names of those modifiers, and hold no
/// separator.
proof fn lemma_modifier_names()
    ensures
        modifier_of("Ctrl"@) == Some(Modifier::Control),
        modifier_of("Shift"@) == Some(Modifier::Shift),
        modifier_of("Alt"@) == Some(Modifier::Alt),
        modifier_of("Super"@) == Some(Modifier::Super),
        !"Ctrl"@.contains(SEPARATOR),
        !"Shift"@.contains(SEPARATOR),
        !"Alt"@.contains(SEPARATOR),
        !"Super"@.contains(SEPARATOR),
        "Ctrl+"@ == "Ctrl"@.push(SEPARATOR),
        "Shift+"@ == "Shift"@.push(SEPARATOR),
        "Alt+"@ == "Alt"@.push(SEPARATOR),
        "Super+"@ == "Super"@.push(SEPARATOR),
{
    reveal_strlit("Ctrl");
    reveal_strlit("Shift");
    reveal_strlit("Alt");
    reveal_strlit("Super");
    reveal_strlit("Ctrl+");
    reveal_strlit("Shift+");
    reveal_strlit("Alt+");
    reveal_strlit("Super+");
    reveal_strlit("ctrl");
    reveal_strlit("control");
    reveal_strlit("shift");
    reveal_strlit("alt");
    reveal_strlit("super");
    reveal_strlit("win");
    reveal_strlit("meta");
    lemma_trimmed_is_identity("Ctrl"@);
    lemma_trimmed_is_identity("Shift"@);
    lemma_trimmed_is_identity("Alt"@);
    lemma_trimmed_is_identity("Super"@);
    assert(all_ascii("Ctrl"@));
    assert(all_ascii("Shift"@));
    assert(all_ascii("Alt"@));
    assert(all_ascii("Super"@));
    assert("Ctrl"@.map_values(|c: char| ascii_lower(c)) =~= "ctrl"@);
    assert("Shift"@.map_values(|c: char| ascii_lower(c)) =~= "shift"@);
    assert("Alt"@.map_values(|c: char| ascii_lower(c)) =~= "alt"@);
    assert("Super"@.map_values(|c: char| ascii_lower(c)) =~= "super"@);
    assert("super"@[1] != "shift"@[1]);
    assert("Ctrl+"@ =~= "Ctrl"@.push(SEPARATOR));
    assert("Shift+"@ =~= "Shift"@.push(SEPARATOR));
    assert("Alt+"@ =~= "Alt"@.push(SEPARATOR));
    assert("Super+"@ =~= "Super"@.push(SEPARATOR));
}

/// The canonical spelling of a set of modifiers reads back as that set.
proof fn lemma_canonical_modifiers(set: Modifiers)
    ensures
        last_part(canonical_modifiers(set)).len() == 0,
        first_unknown_modifier(leading_parts(canonical_modifiers(set))) is None,
        modifier_set(leading_parts(canonical_modifiers(set))) == set,
{
    lemma_modifier_names();
    let none = Seq::<char>::empty();
    let a = if set.control {
        "Ctrl+"@
    } else {
        none
    };
    let b = a + if set.shift {
        "Shift+"@
    } else {
        none
    };
    let c = b + if set.alt {
        "Alt+"@
    } else {
        none
    };
    let d = c + if set.super_key {
        "Super+"@
    } else {
        none
    };
    assert(leading_parts(none) == Seq::<Seq<char>>::empty());
    if set.control {
        lemma_modifier_written(none, "Ctrl"@, Modifier::Control);
        assert(none + "Ctrl"@.push(SEPARATOR) == a);
    }
    if set.shift {
        lemma_modifier_written(a, "Shift"@, Modifier::Shift);
    } else {
        assert(b == a);
    }
    if set.alt {
        lemma_modifier_written(b, "Alt"@, Modifier::Alt);
    } else {
        assert(c == b);
    }
    if set.super_key {
        lemma_modifier_written(c, "Super"@, Modifier::Super);
    } else {
        assert(d == c);
    }
    assert(d == canonical_modifiers(set));
}

/// The name of a key reads back as that key.
pub proof fn lemma_key_name_round_trip(key: KeyCode)
    ensures
        key_of(key_name(key)) == Some(key),
        !key_name(key).contains(SEPARATOR),
{
    let name = key_name(key);
    lemma_key_names_are_plain(key);
    assert(is_name_char(name.first()));
    assert(is_name_char(name.last()));
    lemma_trimmed_is_identity(name);
    assert(all_ascii(name)) by {
        assert forall|i: int| 0 <= i < name.len() implies (#[trigger] name[i]) as u32
            <= 0x7F by {
            assert(is_name_char(name[i]));
        }
    }
    assert(name.map_values(|c: char| ascii_upper(c)) =~= name) by {
        assert forall|i: int| 0 <= i < name.len() implies ascii_upper(#[trigger] name[i])
            == name[i] by {
            assert(is_name_char(name[i]));
        }
    }
    assert(uppercase(trimmed(name)) == name);
    let chosen = choose|k: KeyCode| key_name(k) == name;
    lemma_key_name_injective(chosen, key);
    assert forall|i: int| 0 <= i < name.len() implies name[i] != SEPARATOR by {
        assert(is_name_char(name[i]));
    }
}

/// The canonical spelling of a shortcut reads back as that shortcut.
pub proof fn lemma_canonical_round_trip(spec: ShortcutSpec)
    ensures
        parse_result(canonical(spec)) == Ok::<ShortcutSpec, ParseFailure>(spec),
{
    let written = canonical_modifiers(spec.modifiers);
    let name = key_name(spec.key);
    lemma_canonical_modifiers(spec.modifiers);
    lemma_key_name_round_trip(spec.key);
    lemma_key_names_are_plain(spec.key);
    lemma_part_without_separator(written, name);
    assert(last_part(written) + name == name);
}

/// Reading a shortcut, writing it out in its canonical spelling and reading that again
/// changes nothing: whatever text gave a shortcut, the canonical spelling gives the same.
pub proof fn lemma_reparse_is_idempotent(s: Seq<char>)
    requires
        parse_result(s) is Ok,
    ensures
        parse_result(canonical(parse_result(s)->Ok_0)) == parse_result(s),
{
    lemma_canonical_round_trip(parse_result(s)->Ok_0);
}

} // verus!
