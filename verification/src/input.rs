//! Keys of the keyboard, and the number that names each of them at the
//! boundary.

use vstd::prelude::*;

verus! {

/// A key that can trigger a capture or move the debugger's focus.
///
/// Digits and letters are named by their ASCII code. The other keys are
/// numbered upward from `NonPrintable`, which is 0x100 and names no key.
#[derive(Clone, Copy, Debug, PartialEq, Eq, Hash, Structural)]
pub enum InputButton {
    /// The '0' key over the letters.
    Key0,
    /// The '1' key over the letters.
    Key1,
    /// The '2' key over the letters.
    Key2,
    /// The '3' key over the letters.
    Key3,
    /// The '4' key over the letters.
    Key4,
    /// The '5' key over the letters.
    Key5,
    /// The '6' key over the letters.
    Key6,
    /// The '7' key over the letters.
    Key7,
    /// The '8' key over the letters.
    Key8,
    /// The '9' key over the letters.
    Key9,
    A,
    B,
    C,
    D,
    E,
    F,
    G,
    H,
    I,
    J,
    K,
    L,
    M,
    N,
    O,
    P,
    Q,
    R,
    S,
    T,
    U,
    V,
    W,
    X,
    Y,
    Z,
    /// The start of the keys that print nothing. The ASCII range below it is
    /// left free.
    NonPrintable,
    /// Division key on the numpad.
    Divide,
    /// Multiplication key on the numpad.
    Multiply,
    /// Subtraction key on the numpad.
    Subtract,
    /// Addition key on the numpad.
    Plus,
    F1,
    F2,
    F3,
    F4,
    F5,
    F6,
    F7,
    F8,
    F9,
    F10,
    F11,
    F12,
    Home,
    End,
    Insert,
    Delete,
    PageUp,
    PageDn,
    Backspace,
    Tab,
    PrtScrn,
    Pause,
    /// One past the last key.
    Max,
}

impl InputButton {
    /// The number that names this key at the boundary.
    pub open spec fn spec_code(self) -> u32 {
        match self {
            InputButton::Key0 => 0x30,
            InputButton::Key1 => 0x31,
            InputButton::Key2 => 0x32,
            InputButton::Key3 => 0x33,
            InputButton::Key4 => 0x34,
            InputButton::Key5 => 0x35,
            InputButton::Key6 => 0x36,
            InputButton::Key7 => 0x37,
            InputButton::Key8 => 0x38,
            InputButton::Key9 => 0x39,
            InputButton::A => 0x41,
            InputButton::B => 0x42,
            InputButton::C => 0x43,
            InputButton::D => 0x44,
            InputButton::E => 0x45,
            InputButton::F => 0x46,
            InputButton::G => 0x47,
            InputButton::H => 0x48,
            InputButton::I => 0x49,
            InputButton::J => 0x4A,
            InputButton::K => 0x4B,
            InputButton::L => 0x4C,
            InputButton::M => 0x4D,
            InputButton::N => 0x4E,
            InputButton::O => 0x4F,
            InputButton::P => 0x50,
            InputButton::Q => 0x51,
            InputButton::R => 0x52,
            InputButton::S => 0x53,
            InputButton::T => 0x54,
            InputButton::U => 0x55,
            InputButton::V => 0x56,
            InputButton::W => 0x57,
            InputButton::X => 0x58,
            InputButton::Y => 0x59,
            InputButton::Z => 0x5A,
            InputButton::NonPrintable => 0x100,
            InputButton::Divide => 0x101,
            InputButton::Multiply => 0x102,
            InputButton::Subtract => 0x103,
            InputButton::Plus => 0x104,
            InputButton::F1 => 0x105,
            InputButton::F2 => 0x106,
            InputButton::F3 => 0x107,
            InputButton::F4 => 0x108,
            InputButton::F5 => 0x109,
            InputButton::F6 => 0x10A,
            InputButton::F7 => 0x10B,
            InputButton::F8 => 0x10C,
            InputButton::F9 => 0x10D,
            InputButton::F10 => 0x10E,
            InputButton::F11 => 0x10F,
            InputButton::F12 => 0x110,
            InputButton::Home => 0x111,
            InputButton::End => 0x112,
            InputButton::Insert => 0x113,
            InputButton::Delete => 0x114,
            InputButton::PageUp => 0x115,
            InputButton::PageDn => 0x116,
            InputButton::Backspace => 0x117,
            InputButton::Tab => 0x118,
            InputButton::PrtScrn => 0x119,
            InputButton::Pause => 0x11A,
            InputButton::Max => 0x11B,
        }
    }

    /// Whether this is the key of a digit or of a letter, whose number is the
    /// ASCII code of the character on it.
    pub open spec fn spec_is_printable(self) -> bool {
        self.spec_code() < 0x100
    }

    /// The number that names this key at the boundary.
    pub fn code(self) -> (c: u32)
        ensures
            c == self.spec_code(),
    {
        match self {
            InputButton::Key0 => 0x30,
            InputButton::Key1 => 0x31,
            InputButton::Key2 => 0x32,
            InputButton::Key3 => 0x33,
            InputButton::Key4 => 0x34,
            InputButton::Key5 => 0x35,
            InputButton::Key6 => 0x36,
            InputButton::Key7 => 0x37,
            InputButton::Key8 => 0x38,
            InputButton::Key9 => 0x39,
            InputButton::A => 0x41,
            InputButton::B => 0x42,
            InputButton::C => 0x43,
            InputButton::D => 0x44,
            InputButton::E => 0x45,
            InputButton::F => 0x46,
            InputButton::G => 0x47,
            InputButton::H => 0x48,
            InputButton::I => 0x49,
            InputButton::J => 0x4A,
            InputButton::K => 0x4B,
            InputButton::L => 0x4C,
            InputButton::M => 0x4D,
            InputButton::N => 0x4E,
            InputButton::O => 0x4F,
            InputButton::P => 0x50,
            InputButton::Q => 0x51,
            InputButton::R => 0x52,
            InputButton::S => 0x53,
            InputButton::T => 0x54,
            InputButton::U => 0x55,
            InputButton::V => 0x56,
            InputButton::W => 0x57,
            InputButton::X => 0x58,
            InputButton::Y => 0x59,
            InputButton::Z => 0x5A,
            InputButton::NonPrintable => 0x100,
            InputButton::Divide => 0x101,
            InputButton::Multiply => 0x102,
            InputButton::Subtract => 0x103,
            InputButton::Plus => 0x104,
            InputButton::F1 => 0x105,
            InputButton::F2 => 0x106,
            InputButton::F3 => 0x107,
            InputButton::F4 => 0x108,
            InputButton::F5 => 0x109,
            InputButton::F6 => 0x10A,
            InputButton::F7 => 0x10B,
            InputButton::F8 => 0x10C,
            InputButton::F9 => 0x10D,
            InputButton::F10 => 0x10E,
            InputButton::F11 => 0x10F,
            InputButton::F12 => 0x110,
            InputButton::Home => 0x111,
            InputButton::End => 0x112,
            InputButton::Insert => 0x113,
            InputButton::Delete => 0x114,
            InputButton::PageUp => 0x115,
            InputButton::PageDn => 0x116,
            InputButton::Backspace => 0x117,
            InputButton::Tab => 0x118,
            InputButton::PrtScrn => 0x119,
            InputButton::Pause => 0x11A,
            InputButton::Max => 0x11B,
        }
    }

    /// The key of a digit or of an upper-case letter, found by the ASCII code
    /// of the character on it; `None` for any other byte.
    pub fn from_ascii(byte: u8) -> (key: Option<InputButton>)
        ensures
            key is Some <==> (0x30 <= byte <= 0x39 || 0x41 <= byte <= 0x5A),
            key matches Some(found) ==> found.spec_code() == byte,
    {
        match byte {
            0x30 => Some(InputButton::Key0),
            0x31 => Some(InputButton::Key1),
            0x32 => Some(InputButton::Key2),
            0x33 => Some(InputButton::Key3),
            0x34 => Some(InputButton::Key4),
            0x35 => Some(InputButton::Key5),
            0x36 => Some(InputButton::Key6),
            0x37 => Some(InputButton::Key7),
            0x38 => Some(InputButton::Key8),
            0x39 => Some(InputButton::Key9),
            0x41 => Some(InputButton::A),
            0x42 => Some(InputButton::B),
            0x43 => Some(InputButton::C),
            0x44 => Some(InputButton::D),
            0x45 => Some(InputButton::E),
            0x46 => Some(InputButton::F),
            0x47 => Some(InputButton::G),
            0x48 => Some(InputButton::H),
            0x49 => Some(InputButton::I),
            0x4A => Some(InputButton::J),
            0x4B => Some(InputButton::K),
            0x4C => Some(InputButton::L),
            0x4D => Some(InputButton::M),
            0x4E => Some(InputButton::N),
            0x4F => Some(InputButton::O),
            0x50 => Some(InputButton::P),
            0x51 => Some(InputButton::Q),
            0x52 => Some(InputButton::R),
            0x53 => Some(InputButton::S),
            0x54 => Some(InputButton::T),
            0x55 => Some(InputButton::U),
            0x56 => Some(InputButton::V),
            0x57 => Some(InputButton::W),
            0x58 => Some(InputButton::X),
            0x59 => Some(InputButton::Y),
            0x5A => Some(InputButton::Z),
            _ => None,
        }
    }
}

/// The numbers of `keys`, in the same order: what the debugger is handed as a
/// contiguous array.
pub open spec fn spec_codes(keys: Seq<InputButton>) -> Seq<u32> {
    Seq::new(keys.len(), |i: int| keys[i].spec_code())
}

/// Lowers keys to their numbers, in the same order.
pub fn codes(keys: &[InputButton]) -> (lowered: Vec<u32>)
    ensures
        lowered@ == spec_codes(keys@),
{
    let mut lowered: Vec<u32> = Vec::new();
    let mut i: usize = 0;
    while i < keys.len()
        invariant
            i <= keys.len(),
            lowered@ == spec_codes(keys@.subrange(0, i as int)),
        decreases keys.len() - i,
    {
        lowered.push(keys[i].code());
        i = i + 1;
        assert(lowered@ == spec_codes(keys@.subrange(0, i as int)));
    }
    assert(keys@.subrange(0, i as int) == keys@);
    lowered
}

/// Each key has a number of its own, and the keys that print nothing are
/// numbered from 0x100 upward without a gap, in the order of their
/// declaration, so that `Max` is one past the last of them.
pub proof fn lemma_key_codes_are_distinct(a: InputButton, b: InputButton)
    ensures
        a.spec_code() == b.spec_code() ==> a == b,
        a.spec_is_printable() || (0x100 <= a.spec_code() <= InputButton::Max.spec_code()),
        InputButton::Max.spec_code() == 0x100 + 27,
{
}

} // verus!
