//! Hotkey vocabulary: modifier flags and virtual keys, with case-insensitive
//! parsing of the names a configuration file may use for them.
//!
//! The numeric modifier bits are the values the platform hotkey registration
//! expects; the controller itself only combines and compares them.

use vstd::prelude::*;
use crate::bytes::{eq_lit, lit_bytes, lower, to_lower};

verus! {

pub const MOD_ALT: u32 = 0x0001;

pub const MOD_CONTROL: u32 = 0x0002;

pub const MOD_SHIFT: u32 = 0x0004;

pub const MOD_WIN: u32 = 0x0008;

pub const MOD_NO_REPEAT: u32 = 0x4000;

/// A set of hotkey modifiers, held as the platform's flag bits.
#[derive(Clone, Copy, Debug, PartialEq, Eq, Structural)]
pub struct Modifiers {
    pub bits: u32,
}

/// A modifier name that the parser did not recognize; carries the
/// lower-cased bytes it saw.
#[derive(Debug)]
pub enum ParseModifierError {
    UnknownModifier(Vec<u8>),
}

/// The modifier flag named by a lower-cased token, if any.
pub open spec fn modifier_of(s: Seq<u8>) -> Option<u32> {
    if s == lit_bytes("alt") {
        Some(MOD_ALT)
    } else if s == lit_bytes("control") || s == lit_bytes("ctrl") {
        Some(MOD_CONTROL)
    } else if s == lit_bytes("shift") {
        Some(MOD_SHIFT)
    } else if s == lit_bytes("win") || s == lit_bytes("windows") || s == lit_bytes("super") {
        Some(MOD_WIN)
    } else {
        None
    }
}

impl Modifiers {
    /// The empty set of modifiers.
    pub fn empty() -> (r: Self)
        ensures
            r.bits == 0,
    {
        Modifiers { bits: 0 }
    }

    /// The union of two modifier sets.
    pub fn union(self, other: Self) -> (r: Self)
        ensures
            r.bits == (self.bits | other.bits),
    {
        Modifiers { bits: self.bits | other.bits }
    }

    /// Read one modifier name, case-insensitively. An unrecognized name is
    /// reported with the lower-cased bytes that were seen.
    pub fn parse(token: &[u8]) -> (r: Result<Self, ParseModifierError>)
        ensures
            match r {
                Ok(m) => modifier_of(lower(token@)) == Some(m.bits),
                Err(ParseModifierError::UnknownModifier(got)) => modifier_of(lower(token@))
                    is None && got@ == lower(token@),
            },
    {
        let l = to_lower(token);
        if eq_lit(l.as_slice(), "alt") {
            Ok(Modifiers { bits: MOD_ALT })
        } else if eq_lit(l.as_slice(), "control") || eq_lit(l.as_slice(), "ctrl") {
            Ok(Modifiers { bits: MOD_CONTROL })
        } else if eq_lit(l.as_slice(), "shift") {
            Ok(Modifiers { bits: MOD_SHIFT })
        } else if eq_lit(l.as_slice(), "win") || eq_lit(l.as_slice(), "windows") || eq_lit(
            l.as_slice(),
            "super",
        ) {
            Ok(Modifiers { bits: MOD_WIN })
        } else {
            Err(ParseModifierError::UnknownModifier(l))
        }
    }
}

/// A key that can take part in a global hotkey, named after the platform's
/// virtual-key vocabulary.
#[derive(Clone, Copy, Debug, PartialEq, Eq, Structural)]
pub enum VirtualKey {
    LeftClick,
    RightClick,
    Cancel,
    MiddleClick,
    Backspace,
    Tab,
    Enter,
    Shift,
    Control,
    Alt,
    Pause,
    CapsLock,
    Escape,
    Space,
    PageUp,
    PageDown,
    End,
    Home,
    Left,
    Up,
    Right,
    Down,
    Select,
    Print,
    Execute,
    PrintScreen,
    Insert,
    Delete,
    Help,
    Zero,
    One,
    Two,
    Three,
    Four,
    Five,
    Six,
    Seven,
    Eight,
    Nine,
    A,
    B,
    C,
    D,
    E,
    F,
    G,
    H,
    I,
    J,
    K,
    L,
    M,
    N,
    O,
    P,
    Q,
    R,
    S,
    T,
    U,
    V,
    W,
    X,
    Y,
    Z,
    LeftWindows,
    RightWindows,
    Applications,
    Sleep,
    NumpadZero,
    NumpadOne,
    NumpadTwo,
    NumpadThree,
    NumpadFour,
    NumpadFive,
    NumpadSix,
    NumpadSeven,
    NumpadEight,
    NumpadNine,
    F1,
    F2,
    F3,
    F4,
    F5,
    F6,
    F7,
    F8,
    F9,
    F10,
    F11,
    F12,
    F13,
    F14,
    F15,
    F16,
    F17,
    F18,
    F19,
    F20,
    F21,
    F22,
    F23,
    F24,
    Numlock,
    LeftShift,
    RightShift,
    LeftControl,
    RightControl,
    LeftAlt,
    RightAlt,
    Play,
    Zoom,
}

/// A key name that the parser did not recognize; carries the lower-cased
/// bytes it saw.
#[derive(Debug)]
pub enum ParseVirtualKeyError {
    UnknownKey(Vec<u8>),
}

/// Navigation, editing and bare-modifier key names (lower-cased).
pub open spec fn key_of_basic(s: Seq<u8>) -> Option<VirtualKey> {
    if s == lit_bytes("left click") || s == lit_bytes("left button") {
        Some(VirtualKey::LeftClick)
    } else if s == lit_bytes("right click") || s == lit_bytes("right button") {
        Some(VirtualKey::RightClick)
    } else if s == lit_bytes("cancel") {
        Some(VirtualKey::Cancel)
    } else if s == lit_bytes("middle click") || s == lit_bytes("middle button") {
        Some(VirtualKey::MiddleClick)
    } else if s == lit_bytes("backspace") || s == lit_bytes("back") {
        Some(VirtualKey::Backspace)
    } else if s == lit_bytes("tab") {
        Some(VirtualKey::Tab)
    } else if s == lit_bytes("enter") {
        Some(VirtualKey::Enter)
    } else if s == lit_bytes("shift") {
        Some(VirtualKey::Shift)
    } else if s == lit_bytes("control") {
        Some(VirtualKey::Control)
    } else if s == lit_bytes("alt") {
        Some(VirtualKey::Alt)
    } else if s == lit_bytes("pause") {
        Some(VirtualKey::Pause)
    } else if s == lit_bytes("caps lock") {
        Some(VirtualKey::CapsLock)
    } else if s == lit_bytes("escape") {
        Some(VirtualKey::Escape)
    } else if s == lit_bytes("space") {
        Some(VirtualKey::Space)
    } else if s == lit_bytes("page up") {
        Some(VirtualKey::PageUp)
    } else if s == lit_bytes("page down") {
        Some(VirtualKey::PageDown)
    } else if s == lit_bytes("end") {
        Some(VirtualKey::End)
    } else if s == lit_bytes("home") {
        Some(VirtualKey::Home)
    } else if s == lit_bytes("left") {
        Some(VirtualKey::Left)
    } else if s == lit_bytes("up") {
        Some(VirtualKey::Up)
    } else if s == lit_bytes("right") {
        Some(VirtualKey::Right)
    } else if s == lit_bytes("down") {
        Some(VirtualKey::Down)
    } else if s == lit_bytes("select") {
        Some(VirtualKey::Select)
    } else if s == lit_bytes("print") {
        Some(VirtualKey::Print)
    } else if s == lit_bytes("execute") {
        Some(VirtualKey::Execute)
    } else if s == lit_bytes("print screen") {
        Some(VirtualKey::PrintScreen)
    } else if s == lit_bytes("insert") {
        Some(VirtualKey::Insert)
    } else if s == lit_bytes("delete") {
        Some(VirtualKey::Delete)
    } else if s == lit_bytes("help") {
        Some(VirtualKey::Help)
    } else {
        None
    }
}

/// Digit and letter key names (lower-cased).
pub open spec fn key_of_alnum(s: Seq<u8>) -> Option<VirtualKey> {
    if s == lit_bytes("zero") || s == lit_bytes("0") {
        Some(VirtualKey::Zero)
    } else if s == lit_bytes("one") || s == lit_bytes("1") {
        Some(VirtualKey::One)
    } else if s == lit_bytes("two") || s == lit_bytes("2") {
        Some(VirtualKey::Two)
    } else if s == lit_bytes("three") || s == lit_bytes("3") {
        Some(VirtualKey::Three)
    } else if s == lit_bytes("four") || s == lit_bytes("4") {
        Some(VirtualKey::Four)
    } else if s == lit_bytes("five") || s == lit_bytes("5") {
        Some(VirtualKey::Five)
    } else if s == lit_bytes("six") || s == lit_bytes("6") {
        Some(VirtualKey::Six)
    } else if s == lit_bytes("seven") || s == lit_bytes("7") {
        Some(VirtualKey::Seven)
    } else if s == lit_bytes("eight") || s == lit_bytes("8") {
        Some(VirtualKey::Eight)
    } else if s == lit_bytes("nine") || s == lit_bytes("9") {
        Some(VirtualKey::Nine)
    } else if s == lit_bytes("a") {
        Some(VirtualKey::A)
    } else if s == lit_bytes("b") {
        Some(VirtualKey::B)
    } else if s == lit_bytes("c") {
        Some(VirtualKey::C)
    } else if s == lit_bytes("d") {
        Some(VirtualKey::D)
    } else if s == lit_bytes("e") {
        Some(VirtualKey::E)
    } else if s == lit_bytes("f") {
        Some(VirtualKey::F)
    } else if s == lit_bytes("g") {
        Some(VirtualKey::G)
    } else if s == lit_bytes("h") {
        Some(VirtualKey::H)
    } else if s == lit_bytes("i") {
        Some(VirtualKey::I)
    } else if s == lit_bytes("j") {
        Some(VirtualKey::J)
    } else if s == lit_bytes("k") {
        Some(VirtualKey::K)
    } else if s == lit_bytes("l") {
        Some(VirtualKey::L)
    } else if s == lit_bytes("m") {
        Some(VirtualKey::M)
    } else if s == lit_bytes("n") {
        Some(VirtualKey::N)
    } else if s == lit_bytes("o") {
        Some(VirtualKey::O)
    } else if s == lit_bytes("p") {
        Some(VirtualKey::P)
    } else if s == lit_bytes("q") {
        Some(VirtualKey::Q)
    } else if s == lit_bytes("r") {
        Some(VirtualKey::R)
    } else if s == lit_bytes("s") {
        Some(VirtualKey::S)
    } else if s == lit_bytes("t") {
        Some(VirtualKey::T)
    } else if s == lit_bytes("u") {
        Some(VirtualKey::U)
    } else if s == lit_bytes("v") {
        Some(VirtualKey::V)
    } else if s == lit_bytes("w") {
        Some(VirtualKey::W)
    } else if s == lit_bytes("x") {
        Some(VirtualKey::X)
    } else if s == lit_bytes("y") {
        Some(VirtualKey::Y)
    } else if s == lit_bytes("z") {
        Some(VirtualKey::Z)
    } else {
        None
    }
}

/// Platform, numpad and function key names (lower-cased).
pub open spec fn key_of_extended(s: Seq<u8>) -> Option<VirtualKey> {
    if s == lit_bytes("left windows") || s == lit_bytes("left win") || s == lit_bytes(
        "left super",
    ) {
        Some(VirtualKey::LeftWindows)
    } else if s == lit_bytes("right windows") || s == lit_bytes("right win") || s == lit_bytes(
        "right super",
    ) {
        Some(VirtualKey::RightWindows)
    } else if s == lit_bytes("applications") || s == lit_bytes("apps") {
        Some(VirtualKey::Applications)
    } else if s == lit_bytes("sleep") {
        Some(VirtualKey::Sleep)
    } else if s == lit_bytes("numpad zero") || s == lit_bytes("numpad 0") {
        Some(VirtualKey::NumpadZero)
    } else if s == lit_bytes("numpad one") || s == lit_bytes("numpad 1") {
        Some(VirtualKey::NumpadOne)
    } else if s == lit_bytes("numpad two") || s == lit_bytes("numpad 2") {
        Some(VirtualKey::NumpadTwo)
    } else if s == lit_bytes("numpad three") || s == lit_bytes("numpad 3") {
        Some(VirtualKey::NumpadThree)
    } else if s == lit_bytes("numpad four") || s == lit_bytes("numpad 4") {
        Some(VirtualKey::NumpadFour)
    } else if s == lit_bytes("numpad five") || s == lit_bytes("numpad 5") {
        Some(VirtualKey::NumpadFive)
    } else if s == lit_bytes("numpad six") || s == lit_bytes("numpad 6") {
        Some(VirtualKey::NumpadSix)
    } else if s == lit_bytes("numpad seven") || s == lit_bytes("numpad 7") {
        Some(VirtualKey::NumpadSeven)
    } else if s == lit_bytes("numpad eight") || s == lit_bytes("numpad 8") {
        Some(VirtualKey::NumpadEight)
    } else if s == lit_bytes("numpad nine") || s == lit_bytes("numpad 9") {
        Some(VirtualKey::NumpadNine)
    } else if s == lit_bytes("f1") {
        Some(VirtualKey::F1)
    } else if s == lit_bytes("f2") {
        Some(VirtualKey::F2)
    } else if s == lit_bytes("f3") {
        Some(VirtualKey::F3)
    } else if s == lit_bytes("f4") {
        Some(VirtualKey::F4)
    } else if s == lit_bytes("f5") {
        Some(VirtualKey::F5)
    } else if s == lit_bytes("f6") {
        Some(VirtualKey::F6)
    } else if s == lit_bytes("f7") {
        Some(VirtualKey::F7)
    } else if s == lit_bytes("f8") {
        Some(VirtualKey::F8)
    } else if s == lit_bytes("f9") {
        Some(VirtualKey::F9)
    } else if s == lit_bytes("f10") {
        Some(VirtualKey::F10)
    } else if s == lit_bytes("f11") {
        Some(VirtualKey::F11)
    } else if s == lit_bytes("f12") {
        Some(VirtualKey::F12)
    } else if s == lit_bytes("f13") {
        Some(VirtualKey::F13)
    } else if s == lit_bytes("f14") {
        Some(VirtualKey::F14)
    } else if s == lit_bytes("f15") {
        Some(VirtualKey::F15)
    } else if s == lit_bytes("f16") {
        Some(VirtualKey::F16)
    } else if s == lit_bytes("f17") {
        Some(VirtualKey::F17)
    } else if s == lit_bytes("f18") {
        Some(VirtualKey::F18)
    } else if s == lit_bytes("f19") {
        Some(VirtualKey::F19)
    } else if s == lit_bytes("f20") {
        Some(VirtualKey::F20)
    } else if s == lit_bytes("f21") {
        Some(VirtualKey::F21)
    } else if s == lit_bytes("f22") {
        Some(VirtualKey::F22)
    } else if s == lit_bytes("f23") {
        Some(VirtualKey::F23)
    } else if s == lit_bytes("f24") {
        Some(VirtualKey::F24)
    } else {
        None
    }
}

/// Sided modifier and remaining key names (lower-cased).
pub open spec fn key_of_sided(s: Seq<u8>) -> Option<VirtualKey> {
    if s == lit_bytes("numlock") || s == lit_bytes("num lock") {
        Some(VirtualKey::Numlock)
    } else if s == lit_bytes("left shift") {
        Some(VirtualKey::LeftShift)
    } else if s == lit_bytes("right shift") {
        Some(VirtualKey::RightShift)
    } else if s == lit_bytes("left control") {
        Some(VirtualKey::LeftControl)
    } else if s == lit_bytes("right control") {
        Some(VirtualKey::RightControl)
    } else if s == lit_bytes("left alt") {
        Some(VirtualKey::LeftAlt)
    } else if s == lit_bytes("right alt") {
        Some(VirtualKey::RightAlt)
    } else if s == lit_bytes("play") {
        Some(VirtualKey::Play)
    } else if s == lit_bytes("zoom") {
        Some(VirtualKey::Zoom)
    } else {
        None
    }
}

/// The key named by a lower-cased token, if any.
pub open spec fn key_of(s: Seq<u8>) -> Option<VirtualKey> {
    if key_of_basic(s) is Some {
        key_of_basic(s)
    } else if key_of_alnum(s) is Some {
        key_of_alnum(s)
    } else if key_of_extended(s) is Some {
        key_of_extended(s)
    } else {
        key_of_sided(s)
    }
}

fn key_from_basic(s: &[u8]) -> (r: Option<VirtualKey>)
    ensures
        r == key_of_basic(s@),
{
    if eq_lit(s, "left click") || eq_lit(s, "left button") {
        Some(VirtualKey::LeftClick)
    } else if eq_lit(s, "right click") || eq_lit(s, "right button") {
        Some(VirtualKey::RightClick)
    } else if eq_lit(s, "cancel") {
        Some(VirtualKey::Cancel)
    } else if eq_lit(s, "middle click") || eq_lit(s, "middle button") {
        Some(VirtualKey::MiddleClick)
    } else if eq_lit(s, "backspace") || eq_lit(s, "back") {
        Some(VirtualKey::Backspace)
    } else if eq_lit(s, "tab") {
        Some(VirtualKey::Tab)
    } else if eq_lit(s, "enter") {
        Some(VirtualKey::Enter)
    } else if eq_lit(s, "shift") {
        Some(VirtualKey::Shift)
    } else if eq_lit(s, "control") {
        Some(VirtualKey::Control)
    } else if eq_lit(s, "alt") {
        Some(VirtualKey::Alt)
    } else if eq_lit(s, "pause") {
        Some(VirtualKey::Pause)
    } else if eq_lit(s, "caps lock") {
        Some(VirtualKey::CapsLock)
    } else if eq_lit(s, "escape") {
        Some(VirtualKey::Escape)
    } else if eq_lit(s, "space") {
        Some(VirtualKey::Space)
    } else if eq_lit(s, "page up") {
        Some(VirtualKey::PageUp)
    } else if eq_lit(s, "page down") {
        Some(VirtualKey::PageDown)
    } else if eq_lit(s, "end") {
        Some(VirtualKey::End)
    } else if eq_lit(s, "home") {
        Some(VirtualKey::Home)
    } else if eq_lit(s, "left") {
        Some(VirtualKey::Left)
    } else if eq_lit(s, "up") {
        Some(VirtualKey::Up)
    } else if eq_lit(s, "right") {
        Some(VirtualKey::Right)
    } else if eq_lit(s, "down") {
        Some(VirtualKey::Down)
    } else if eq_lit(s, "select") {
        Some(VirtualKey::Select)
    } else if eq_lit(s, "print") {
        Some(VirtualKey::Print)
    } else if eq_lit(s, "execute") {
        Some(VirtualKey::Execute)
    } else if eq_lit(s, "print screen") {
        Some(VirtualKey::PrintScreen)
    } else if eq_lit(s, "insert") {
        Some(VirtualKey::Insert)
    } else if eq_lit(s, "delete") {
        Some(VirtualKey::Delete)
    } else if eq_lit(s, "help") {
        Some(VirtualKey::Help)
    } else {
        None
    }
}

fn key_from_alnum(s: &[u8]) -> (r: Option<VirtualKey>)
    ensures
        r == key_of_alnum(s@),
{
    if eq_lit(s, "zero") || eq_lit(s, "0") {
        Some(VirtualKey::Zero)
    } else if eq_lit(s, "one") || eq_lit(s, "1") {
        Some(VirtualKey::One)
    } else if eq_lit(s, "two") || eq_lit(s, "2") {
        Some(VirtualKey::Two)
    } else if eq_lit(s, "three") || eq_lit(s, "3") {
        Some(VirtualKey::Three)
    } else if eq_lit(s, "four") || eq_lit(s, "4") {
        Some(VirtualKey::Four)
    } else if eq_lit(s, "five") || eq_lit(s, "5") {
        Some(VirtualKey::Five)
    } else if eq_lit(s, "six") || eq_lit(s, "6") {
        Some(VirtualKey::Six)
    } else if eq_lit(s, "seven") || eq_lit(s, "7") {
        Some(VirtualKey::Seven)
    } else if eq_lit(s, "eight") || eq_lit(s, "8") {
        Some(VirtualKey::Eight)
    } else if eq_lit(s, "nine") || eq_lit(s, "9") {
        Some(VirtualKey::Nine)
    } else if eq_lit(s, "a") {
        Some(VirtualKey::A)
    } else if eq_lit(s, "b") {
        Some(VirtualKey::B)
    } else if eq_lit(s, "c") {
        Some(VirtualKey::C)
    } else if eq_lit(s, "d") {
        Some(VirtualKey::D)
    } else if eq_lit(s, "e") {
        Some(VirtualKey::E)
    } else if eq_lit(s, "f") {
        Some(VirtualKey::F)
    } else if eq_lit(s, "g") {
        Some(VirtualKey::G)
    } else if eq_lit(s, "h") {
        Some(VirtualKey::H)
    } else if eq_lit(s, "i") {
        Some(VirtualKey::I)
    } else if eq_lit(s, "j") {
        Some(VirtualKey::J)
    } else if eq_lit(s, "k") {
        Some(VirtualKey::K)
    } else if eq_lit(s, "l") {
        Some(VirtualKey::L)
    } else if eq_lit(s, "m") {
        Some(VirtualKey::M)
    } else if eq_lit(s, "n") {
        Some(VirtualKey::N)
    } else if eq_lit(s, "o") {
        Some(VirtualKey::O)
    } else if eq_lit(s, "p") {
        Some(VirtualKey::P)
    } else if eq_lit(s, "q") {
        Some(VirtualKey::Q)
    } else if eq_lit(s, "r") {
        Some(VirtualKey::R)
    } else if eq_lit(s, "s") {
        Some(VirtualKey::S)
    } else if eq_lit(s, "t") {
        Some(VirtualKey::T)
    } else if eq_lit(s, "u") {
        Some(VirtualKey::U)
    } else if eq_lit(s, "v") {
        Some(VirtualKey::V)
    } else if eq_lit(s, "w") {
        Some(VirtualKey::W)
    } else if eq_lit(s, "x") {
        Some(VirtualKey::X)
    } else if eq_lit(s, "y") {
        Some(VirtualKey::Y)
    } else if eq_lit(s, "z") {
        Some(VirtualKey::Z)
    } else {
        None
    }
}

fn key_from_extended(s: &[u8]) -> (r: Option<VirtualKey>)
    ensures
        r == key_of_extended(s@),
{
    if eq_lit(s, "left windows") || eq_lit(s, "left win") || eq_lit(s, "left super") {
        Some(VirtualKey::LeftWindows)
    } else if eq_lit(s, "right windows") || eq_lit(s, "right win") || eq_lit(s, "right super") {
        Some(VirtualKey::RightWindows)
    } else if eq_lit(s, "applications") || eq_lit(s, "apps") {
        Some(VirtualKey::Applications)
    } else if eq_lit(s, "sleep") {
        Some(VirtualKey::Sleep)
    } else if eq_lit(s, "numpad zero") || eq_lit(s, "numpad 0") {
        Some(VirtualKey::NumpadZero)
    } else if eq_lit(s, "numpad one") || eq_lit(s, "numpad 1") {
        Some(VirtualKey::NumpadOne)
    } else if eq_lit(s, "numpad two") || eq_lit(s, "numpad 2") {
        Some(VirtualKey::NumpadTwo)
    } else if eq_lit(s, "numpad three") || eq_lit(s, "numpad 3") {
        Some(VirtualKey::NumpadThree)
    } else if eq_lit(s, "numpad four") || eq_lit(s, "numpad 4") {
        Some(VirtualKey::NumpadFour)
    } else if eq_lit(s, "numpad five") || eq_lit(s, "numpad 5") {
        Some(VirtualKey::NumpadFive)
    } else if eq_lit(s, "numpad six") || eq_lit(s, "numpad 6") {
        Some(VirtualKey::NumpadSix)
    } else if eq_lit(s, "numpad seven") || eq_lit(s, "numpad 7") {
        Some(VirtualKey::NumpadSeven)
    } else if eq_lit(s, "numpad eight") || eq_lit(s, "numpad 8") {
        Some(VirtualKey::NumpadEight)
    } else if eq_lit(s, "numpad nine") || eq_lit(s, "numpad 9") {
        Some(VirtualKey::NumpadNine)
    } else if eq_lit(s, "f1") {
        Some(VirtualKey::F1)
    } else if eq_lit(s, "f2") {
        Some(VirtualKey::F2)
    } else if eq_lit(s, "f3") {
        Some(VirtualKey::F3)
    } else if eq_lit(s, "f4") {
        Some(VirtualKey::F4)
    } else if eq_lit(s, "f5") {
        Some(VirtualKey::F5)
    } else if eq_lit(s, "f6") {
        Some(VirtualKey::F6)
    } else if eq_lit(s, "f7") {
        Some(VirtualKey::F7)
    } else if eq_lit(s, "f8") {
        Some(VirtualKey::F8)
    } else if eq_lit(s, "f9") {
        Some(VirtualKey::F9)
    } else if eq_lit(s, "f10") {
        Some(VirtualKey::F10)
    } else if eq_lit(s, "f11") {
        Some(VirtualKey::F11)
    } else if eq_lit(s, "f12") {
        Some(VirtualKey::F12)
    } else if eq_lit(s, "f13") {
        Some(VirtualKey::F13)
    } else if eq_lit(s, "f14") {
        Some(VirtualKey::F14)
    } else if eq_lit(s, "f15") {
        Some(VirtualKey::F15)
    } else if eq_lit(s, "f16") {
        Some(VirtualKey::F16)
    } else if eq_lit(s, "f17") {
        Some(VirtualKey::F17)
    } else if eq_lit(s, "f18") {
        Some(VirtualKey::F18)
    } else if eq_lit(s, "f19") {
        Some(VirtualKey::F19)
    } else if eq_lit(s, "f20") {
        Some(VirtualKey::F20)
    } else if eq_lit(s, "f21") {
        Some(VirtualKey::F21)
    } else if eq_lit(s, "f22") {
        Some(VirtualKey::F22)
    } else if eq_lit(s, "f23") {
        Some(VirtualKey::F23)
    } else if eq_lit(s, "f24") {
        Some(VirtualKey::F24)
    } else {
        None
    }
}

fn key_from_sided(s: &[u8]) -> (r: Option<VirtualKey>)
    ensures
        r == key_of_sided(s@),
{
    if eq_lit(s, "numlock") || eq_lit(s, "num lock") {
        Some(VirtualKey::Numlock)
    } else if eq_lit(s, "left shift") {
        Some(VirtualKey::LeftShift)
    } else if eq_lit(s, "right shift") {
        Some(VirtualKey::RightShift)
    } else if eq_lit(s, "left control") {
        Some(VirtualKey::LeftControl)
    } else if eq_lit(s, "right control") {
        Some(VirtualKey::RightControl)
    } else if eq_lit(s, "left alt") {
        Some(VirtualKey::LeftAlt)
    } else if eq_lit(s, "right alt") {
        Some(VirtualKey::RightAlt)
    } else if eq_lit(s, "play") {
        Some(VirtualKey::Play)
    } else if eq_lit(s, "zoom") {
        Some(VirtualKey::Zoom)
    } else {
        None
    }
}

impl VirtualKey {
    /// Read one key name, case-insensitively. An unrecognized name is
    /// reported with the lower-cased bytes that were seen.
    pub fn parse(token: &[u8]) -> (r: Result<VirtualKey, ParseVirtualKeyError>)
        ensures
            match r {
                Ok(k) => key_of(lower(token@)) == Some(k),
                Err(ParseVirtualKeyError::UnknownKey(got)) => key_of(lower(token@)) is None
                    && got@ == lower(token@),
            },
    {
        let l = to_lower(token);
        if let Some(k) = key_from_basic(l.as_slice()) {
            return Ok(k);
        }
        if let Some(k) = key_from_alnum(l.as_slice()) {
            return Ok(k);
        }
        if let Some(k) = key_from_extended(l.as_slice()) {
            return Ok(k);
        }
        if let Some(k) = key_from_sided(l.as_slice()) {
            return Ok(k);
        }
        Err(ParseVirtualKeyError::UnknownKey(l))
    }

    /// Whether this key is itself a modifier key, which would normally be
    /// combined with another key rather than bound on its own.
    pub fn is_modifier(self) -> (r: bool)
        ensures
            r == (self == VirtualKey::Alt || self == VirtualKey::Control || self
                == VirtualKey::Shift || self == VirtualKey::LeftWindows || self
                == VirtualKey::RightWindows || self == VirtualKey::LeftAlt || self
                == VirtualKey::RightAlt || self == VirtualKey::LeftControl || self
                == VirtualKey::RightControl || self == VirtualKey::LeftShift || self
                == VirtualKey::RightShift),
    {
        self == VirtualKey::Alt || self == VirtualKey::Control || self == VirtualKey::Shift
            || self == VirtualKey::LeftWindows || self == VirtualKey::RightWindows || self
            == VirtualKey::LeftAlt || self == VirtualKey::RightAlt || self
            == VirtualKey::LeftControl || self == VirtualKey::RightControl || self
            == VirtualKey::LeftShift || self == VirtualKey::RightShift
    }
}

} // verus!
