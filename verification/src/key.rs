//! Keys and mouse buttons, and the names under which a binding shows
//! and is stored.

use vstd::prelude::*;
use crate::text::same_text;

verus! {

/// A key of the keyboard.
#[derive(Clone, Copy, PartialEq, Eq, Structural, Debug)]
pub enum KeyboardKey {
    Null,
    Apostrophe,
    Comma,
    Minus,
    Period,
    Slash,
    Zero,
    One,
    Two,
    Three,
    Four,
    Five,
    Six,
    Seven,
    Eight,
    Nine,
    Semicolon,
    Equal,
    A,
    B,
    C,
    D,
    E,
    F,
    G,
    H,
    I,
    J,
    K,
    L,
    M,
    N,
    O,
    P,
    Q,
    R,
    S,
    T,
    U,
    V,
    W,
    X,
    Y,
    Z,
    LeftBracket,
    Backslash,
    RightBracket,
    Grave,
    Space,
    Escape,
    Enter,
    Tab,
    Backspace,
    Insert,
    Delete,
    Right,
    Left,
    Down,
    Up,
    PageUp,
    PageDown,
    Home,
    End,
    CapsLock,
    ScrollLock,
    NumLock,
    PrintScreen,
    Pause,
    F1,
    F2,
    F3,
    F4,
    F5,
    F6,
    F7,
    F8,
    F9,
    F10,
    F11,
    F12,
    LeftShift,
    LeftControl,
    LeftAlt,
    LeftSuper,
    RightShift,
    RightControl,
    RightAlt,
    RightSuper,
    KbMenu,
    Kp0,
    Kp1,
    Kp2,
    Kp3,
    Kp4,
    Kp5,
    Kp6,
    Kp7,
    Kp8,
    Kp9,
    KpDecimal,
    KpDivide,
    KpMultiply,
    KpSubtract,
    KpAdd,
    KpEnter,
    KpEqual,
    Back,
    Menu,
    VolumeUp,
    VolumeDown,
}

/// A button of the mouse.
#[derive(Clone, Copy, PartialEq, Eq, Structural, Debug)]
pub enum MouseButton {
    Left,
    Right,
    Middle,
    Side,
    Extra,
    Forward,
    Back,
}

/// A button in the wide sense: a key of the keyboard or a button of the
/// mouse.
#[derive(Clone, Copy, PartialEq, Eq, Structural, Debug)]
pub enum Key {
    Keyboard(KeyboardKey),
    Mouse(MouseButton),
}

impl Key {
    /// The name of a key.
    pub open spec fn label(self) -> Seq<char> {
        match self {
            Key::Keyboard(KeyboardKey::Null) => "Null"@,
            Key::Keyboard(KeyboardKey::Apostrophe) => "Apostrophe"@,
            Key::Keyboard(KeyboardKey::Comma) => "Comma"@,
            Key::Keyboard(KeyboardKey::Minus) => "Minus"@,
            Key::Keyboard(KeyboardKey::Period) => "Period"@,
            Key::Keyboard(KeyboardKey::Slash) => "Slash"@,
            Key::Keyboard(KeyboardKey::Zero) => "Zero"@,
            Key::Keyboard(KeyboardKey::One) => "1"@,
            Key::Keyboard(KeyboardKey::Two) => "2"@,
            Key::Keyboard(KeyboardKey::Three) => "3"@,
            Key::Keyboard(KeyboardKey::Four) => "4"@,
            Key::Keyboard(KeyboardKey::Five) => "5"@,
            Key::Keyboard(KeyboardKey::Six) => "6"@,
            Key::Keyboard(KeyboardKey::Seven) => "7"@,
            Key::Keyboard(KeyboardKey::Eight) => "8"@,
            Key::Keyboard(KeyboardKey::Nine) => "9"@,
            Key::Keyboard(KeyboardKey::Semicolon) => "Semicolon"@,
            Key::Keyboard(KeyboardKey::Equal) => "Equal"@,
            Key::Keyboard(KeyboardKey::A) => "A"@,
            Key::Keyboard(KeyboardKey::B) => "B"@,
            Key::Keyboard(KeyboardKey::C) => "C"@,
            Key::Keyboard(KeyboardKey::D) => "D"@,
            Key::Keyboard(KeyboardKey::E) => "E"@,
            Key::Keyboard(KeyboardKey::F) => "F"@,
            Key::Keyboard(KeyboardKey::G) => "G"@,
            Key::Keyboard(KeyboardKey::H) => "H"@,
            Key::Keyboard(KeyboardKey::I) => "I"@,
            Key::Keyboard(KeyboardKey::J) => "J"@,
            Key::Keyboard(KeyboardKey::K) => "K"@,
            Key::Keyboard(KeyboardKey::L) => "L"@,
            Key::Keyboard(KeyboardKey::M) => "M"@,
            Key::Keyboard(KeyboardKey::N) => "N"@,
            Key::Keyboard(KeyboardKey::O) => "O"@,
            Key::Keyboard(KeyboardKey::P) => "P"@,
            Key::Keyboard(KeyboardKey::Q) => "Q"@,
            Key::Keyboard(KeyboardKey::R) => "R"@,
            Key::Keyboard(KeyboardKey::S) => "S"@,
            Key::Keyboard(KeyboardKey::T) => "T"@,
            Key::Keyboard(KeyboardKey::U) => "U"@,
            Key::Keyboard(KeyboardKey::V) => "V"@,
            Key::Keyboard(KeyboardKey::W) => "W"@,
            Key::Keyboard(KeyboardKey::X) => "X"@,
            Key::Keyboard(KeyboardKey::Y) => "Y"@,
            Key::Keyboard(KeyboardKey::Z) => "Z"@,
            Key::Keyboard(KeyboardKey::LeftBracket) => "Left Bracket"@,
            Key::Keyboard(KeyboardKey::Backslash) => "Backslash"@,
            Key::Keyboard(KeyboardKey::RightBracket) => "Right Bracket"@,
            Key::Keyboard(KeyboardKey::Grave) => "Grave"@,
            Key::Keyboard(KeyboardKey::Space) => "Space"@,
            Key::Keyboard(KeyboardKey::Escape) => "Escape"@,
            Key::Keyboard(KeyboardKey::Enter) => "Enter"@,
            Key::Keyboard(KeyboardKey::Tab) => "Tabulator"@,
            Key::Keyboard(KeyboardKey::Backspace) => "Backspace"@,
            Key::Keyboard(KeyboardKey::Insert) => "Insert"@,
            Key::Keyboard(KeyboardKey::Delete) => "Delete"@,
            Key::Keyboard(KeyboardKey::Right) => "Right"@,
            Key::Keyboard(KeyboardKey::Left) => "Left"@,
            Key::Keyboard(KeyboardKey::Down) => "Down"@,
            Key::Keyboard(KeyboardKey::Up) => "Up"@,
            Key::Keyboard(KeyboardKey::PageUp) => "Page Up"@,
            Key::Keyboard(KeyboardKey::PageDown) => "Page Down"@,
            Key::Keyboard(KeyboardKey::Home) => "Home"@,
            Key::Keyboard(KeyboardKey::End) => "End"@,
            Key::Keyboard(KeyboardKey::CapsLock) => "Caps Lock"@,
            Key::Keyboard(KeyboardKey::ScrollLock) => "Scroll Lock"@,
            Key::Keyboard(KeyboardKey::NumLock) => "Number Lock"@,
            Key::Keyboard(KeyboardKey::PrintScreen) => "Print Screen"@,
            Key::Keyboard(KeyboardKey::Pause) => "Pause"@,
            Key::Keyboard(KeyboardKey::F1) => "F1"@,
            Key::Keyboard(KeyboardKey::F2) => "F2"@,
            Key::Keyboard(KeyboardKey::F3) => "F3"@,
            Key::Keyboard(KeyboardKey::F4) => "F4"@,
            Key::Keyboard(KeyboardKey::F5) => "F5"@,
            Key::Keyboard(KeyboardKey::F6) => "F6"@,
            Key::Keyboard(KeyboardKey::F7) => "F7"@,
            Key::Keyboard(KeyboardKey::F8) => "F8"@,
            Key::Keyboard(KeyboardKey::F9) => "F9"@,
            Key::Keyboard(KeyboardKey::F10) => "F10"@,
            Key::Keyboard(KeyboardKey::F11) => "F11"@,
            Key::Keyboard(KeyboardKey::F12) => "F12"@,
            Key::Keyboard(KeyboardKey::LeftShift) => "L. Shift"@,
            Key::Keyboard(KeyboardKey::LeftControl) => "L. Control"@,
            Key::Keyboard(KeyboardKey::LeftAlt) => "L. Alt"@,
            Key::Keyboard(KeyboardKey::LeftSuper) => "L. Super"@,
            Key::Keyboard(KeyboardKey::RightShift) => "R. Shift"@,
            Key::Keyboard(KeyboardKey::RightControl) => "R. Control"@,
            Key::Keyboard(KeyboardKey::RightAlt) => "R. Alt"@,
            Key::Keyboard(KeyboardKey::RightSuper) => "R. Super"@,
            Key::Keyboard(KeyboardKey::KbMenu) => "Keyboard Menu"@,
            Key::Keyboard(KeyboardKey::Kp0) => "Pad 0"@,
            Key::Keyboard(KeyboardKey::Kp1) => "Pad 1"@,
            Key::Keyboard(KeyboardKey::Kp2) => "Pad 2"@,
            Key::Keyboard(KeyboardKey::Kp3) => "Pad 3"@,
            Key::Keyboard(KeyboardKey::Kp4) => "Pad 4"@,
            Key::Keyboard(KeyboardKey::Kp5) => "Pad 5"@,
            Key::Keyboard(KeyboardKey::Kp6) => "Pad 6"@,
            Key::Keyboard(KeyboardKey::Kp7) => "Pad 7"@,
            Key::Keyboard(KeyboardKey::Kp8) => "Pad 8"@,
            Key::Keyboard(KeyboardKey::Kp9) => "Pad 9"@,
            Key::Keyboard(KeyboardKey::KpDecimal) => "Pad Decimal"@,
            Key::Keyboard(KeyboardKey::KpDivide) => "Pad Divide"@,
            Key::Keyboard(KeyboardKey::KpMultiply) => "Pad Multiply"@,
            Key::Keyboard(KeyboardKey::KpSubtract) => "Pad Subtract"@,
            Key::Keyboard(KeyboardKey::KpAdd) => "Pad Add"@,
            Key::Keyboard(KeyboardKey::KpEnter) => "Pad Enter"@,
            Key::Keyboard(KeyboardKey::KpEqual) => "Pad Equal"@,
            Key::Keyboard(KeyboardKey::Back) => "Back"@,
            Key::Keyboard(KeyboardKey::Menu) => "Menu"@,
            Key::Keyboard(KeyboardKey::VolumeUp) => "Volume Up"@,
            Key::Keyboard(KeyboardKey::VolumeDown) => "Volume Down"@,
            Key::Mouse(MouseButton::Left) => "Mouse Left"@,
            Key::Mouse(MouseButton::Right) => "Mouse Right"@,
            Key::Mouse(MouseButton::Middle) => "Mouse Middle"@,
            Key::Mouse(MouseButton::Side) => "Mouse Side"@,
            Key::Mouse(MouseButton::Extra) => "Mouse Extra"@,
            Key::Mouse(MouseButton::Forward) => "Mouse Forward"@,
            Key::Mouse(MouseButton::Back) => "Mouse Back"@,
        }
    }

    /// The key that a name stands for; a name of no key stands for
    /// `KeyboardKey::Null`.
    pub open spec fn named(text: Seq<char>) -> Key {
        if text == "Null"@ {
            Key::Keyboard(KeyboardKey::Null)
        } else if text == "Apostrophe"@ {
            Key::Keyboard(KeyboardKey::Apostrophe)
        } else if text == "Comma"@ {
            Key::Keyboard(KeyboardKey::Comma)
        } else if text == "Minus"@ {
            Key::Keyboard(KeyboardKey::Minus)
        } else if text == "Period"@ {
            Key::Keyboard(KeyboardKey::Period)
        } else if text == "Slash"@ {
            Key::Keyboard(KeyboardKey::Slash)
        } else if text == "Zero"@ {
            Key::Keyboard(KeyboardKey::Zero)
        } else if text == "1"@ {
            Key::Keyboard(KeyboardKey::One)
        } else if text == "2"@ {
            Key::Keyboard(KeyboardKey::Two)
        } else if text == "3"@ {
            Key::Keyboard(KeyboardKey::Three)
        } else if text == "4"@ {
            Key::Keyboard(KeyboardKey::Four)
        } else if text == "5"@ {
            Key::Keyboard(KeyboardKey::Five)
        } else if text == "6"@ {
            Key::Keyboard(KeyboardKey::Six)
        } else if text == "7"@ {
            Key::Keyboard(KeyboardKey::Seven)
        } else if text == "8"@ {
            Key::Keyboard(KeyboardKey::Eight)
        } else if text == "9"@ {
            Key::Keyboard(KeyboardKey::Nine)
        } else if text == "Semicolon"@ {
            Key::Keyboard(KeyboardKey::Semicolon)
        } else if text == "Equal"@ {
            Key::Keyboard(KeyboardKey::Equal)
        } else if text == "A"@ {
            Key::Keyboard(KeyboardKey::A)
        } else if text == "B"@ {
            Key::Keyboard(KeyboardKey::B)
        } else if text == "C"@ {
            Key::Keyboard(KeyboardKey::C)
        } else if text == "D"@ {
            Key::Keyboard(KeyboardKey::D)
        } else if text == "E"@ {
            Key::Keyboard(KeyboardKey::E)
        } else if text == "F"@ {
            Key::Keyboard(KeyboardKey::F)
        } else if text == "G"@ {
            Key::Keyboard(KeyboardKey::G)
        } else if text == "H"@ {
            Key::Keyboard(KeyboardKey::H)
        } else if text == "I"@ {
            Key::Keyboard(KeyboardKey::I)
        } else if text == "J"@ {
            Key::Keyboard(KeyboardKey::J)
        } else if text == "K"@ {
            Key::Keyboard(KeyboardKey::K)
        } else if text == "L"@ {
            Key::Keyboard(KeyboardKey::L)
        } else if text == "M"@ {
            Key::Keyboard(KeyboardKey::M)
        } else if text == "N"@ {
            Key::Keyboard(KeyboardKey::N)
        } else if text == "O"@ {
            Key::Keyboard(KeyboardKey::O)
        } else if text == "P"@ {
            Key::Keyboard(KeyboardKey::P)
        } else if text == "Q"@ {
            Key::Keyboard(KeyboardKey::Q)
        } else if text == "R"@ {
            Key::Keyboard(KeyboardKey::R)
        } else if text == "S"@ {
            Key::Keyboard(KeyboardKey::S)
        } else if text == "T"@ {
            Key::Keyboard(KeyboardKey::T)
        } else if text == "U"@ {
            Key::Keyboard(KeyboardKey::U)
        } else if text == "V"@ {
            Key::Keyboard(KeyboardKey::V)
        } else if text == "W"@ {
            Key::Keyboard(KeyboardKey::W)
        } else if text == "X"@ {
            Key::Keyboard(KeyboardKey::X)
        } else if text == "Y"@ {
            Key::Keyboard(KeyboardKey::Y)
        } else if text == "Z"@ {
            Key::Keyboard(KeyboardKey::Z)
        } else if text == "Left Bracket"@ {
            Key::Keyboard(KeyboardKey::LeftBracket)
        } else if text == "Backslash"@ {
            Key::Keyboard(KeyboardKey::Backslash)
        } else if text == "Right Bracket"@ {
            Key::Keyboard(KeyboardKey::RightBracket)
        } else if text == "Grave"@ {
            Key::Keyboard(KeyboardKey::Grave)
        } else if text == "Space"@ {
            Key::Keyboard(KeyboardKey::Space)
        } else if text == "Escape"@ {
            Key::Keyboard(KeyboardKey::Escape)
        } else if text == "Enter"@ {
            Key::Keyboard(KeyboardKey::Enter)
        } else if text == "Tabulator"@ {
            Key::Keyboard(KeyboardKey::Tab)
        } else if text == "Backspace"@ {
            Key::Keyboard(KeyboardKey::Backspace)
        } else if text == "Insert"@ {
            Key::Keyboard(KeyboardKey::Insert)
        } else if text == "Delete"@ {
            Key::Keyboard(KeyboardKey::Delete)
        } else if text == "Right"@ {
            Key::Keyboard(KeyboardKey::Right)
        } else if text == "Left"@ {
            Key::Keyboard(KeyboardKey::Left)
        } else if text == "Down"@ {
            Key::Keyboard(KeyboardKey::Down)
        } else if text == "Up"@ {
            Key::Keyboard(KeyboardKey::Up)
        } else if text == "Page Up"@ {
            Key::Keyboard(KeyboardKey::PageUp)
        } else if text == "Page Down"@ {
            Key::Keyboard(KeyboardKey::PageDown)
        } else if text == "Home"@ {
            Key::Keyboard(KeyboardKey::Home)
        } else if text == "End"@ {
            Key::Keyboard(KeyboardKey::End)
        } else if text == "Caps Lock"@ {
            Key::Keyboard(KeyboardKey::CapsLock)
        } else if text == "Scroll Lock"@ {
            Key::Keyboard(KeyboardKey::ScrollLock)
        } else if text == "Number Lock"@ {
            Key::Keyboard(KeyboardKey::NumLock)
        } else if text == "Print Screen"@ {
            Key::Keyboard(KeyboardKey::PrintScreen)
        } else if text == "Pause"@ {
            Key::Keyboard(KeyboardKey::Pause)
        } else if text == "F1"@ {
            Key::Keyboard(KeyboardKey::F1)
        } else if text == "F2"@ {
            Key::Keyboard(KeyboardKey::F2)
        } else if text == "F3"@ {
            Key::Keyboard(KeyboardKey::F3)
        } else if text == "F4"@ {
            Key::Keyboard(KeyboardKey::F4)
        } else if text == "F5"@ {
            Key::Keyboard(KeyboardKey::F5)
        } else if text == "F6"@ {
            Key::Keyboard(KeyboardKey::F6)
        } else if text == "F7"@ {
            Key::Keyboard(KeyboardKey::F7)
        } else if text == "F8"@ {
            Key::Keyboard(KeyboardKey::F8)
        } else if text == "F9"@ {
            Key::Keyboard(KeyboardKey::F9)
        } else if text == "F10"@ {
            Key::Keyboard(KeyboardKey::F10)
        } else if text == "F11"@ {
            Key::Keyboard(KeyboardKey::F11)
        } else if text == "F12"@ {
            Key::Keyboard(KeyboardKey::F12)
        } else if text == "L. Shift"@ {
            Key::Keyboard(KeyboardKey::LeftShift)
        } else if text == "L. Control"@ {
            Key::Keyboard(KeyboardKey::LeftControl)
        } else if text == "L. Alt"@ {
            Key::Keyboard(KeyboardKey::LeftAlt)
        } else if text == "L. Super"@ {
            Key::Keyboard(KeyboardKey::LeftSuper)
        } else if text == "R. Shift"@ {
            Key::Keyboard(KeyboardKey::RightShift)
        } else if text == "R. Control"@ {
            Key::Keyboard(KeyboardKey::RightControl)
        } else if text == "R. Alt"@ {
            Key::Keyboard(KeyboardKey::RightAlt)
        } else if text == "R. Super"@ {
            Key::Keyboard(KeyboardKey::RightSuper)
        } else if text == "Keyboard Menu"@ {
            Key::Keyboard(KeyboardKey::KbMenu)
        } else if text == "Pad 0"@ {
            Key::Keyboard(KeyboardKey::Kp0)
        } else if text == "Pad 1"@ {
            Key::Keyboard(KeyboardKey::Kp1)
        } else if text == "Pad 2"@ {
            Key::Keyboard(KeyboardKey::Kp2)
        } else if text == "Pad 3"@ {
            Key::Keyboard(KeyboardKey::Kp3)
        } else if text == "Pad 4"@ {
            Key::Keyboard(KeyboardKey::Kp4)
        } else if text == "Pad 5"@ {
            Key::Keyboard(KeyboardKey::Kp5)
        } else if text == "Pad 6"@ {
            Key::Keyboard(KeyboardKey::Kp6)
        } else if text == "Pad 7"@ {
            Key::Keyboard(KeyboardKey::Kp7)
        } else if text == "Pad 8"@ {
            Key::Keyboard(KeyboardKey::Kp8)
        } else if text == "Pad 9"@ {
            Key::Keyboard(KeyboardKey::Kp9)
        } else if text == "Pad Decimal"@ {
            Key::Keyboard(KeyboardKey::KpDecimal)
        } else if text == "Pad Divide"@ {
            Key::Keyboard(KeyboardKey::KpDivide)
        } else if text == "Pad Multiply"@ {
            Key::Keyboard(KeyboardKey::KpMultiply)
        } else if text == "Pad Subtract"@ {
            Key::Keyboard(KeyboardKey::KpSubtract)
        } else if text == "Pad Add"@ {
            Key::Keyboard(KeyboardKey::KpAdd)
        } else if text == "Pad Enter"@ {
            Key::Keyboard(KeyboardKey::KpEnter)
        } else if text == "Pad Equal"@ {
            Key::Keyboard(KeyboardKey::KpEqual)
        } else if text == "Back"@ {
            Key::Keyboard(KeyboardKey::Back)
        } else if text == "Menu"@ {
            Key::Keyboard(KeyboardKey::Menu)
        } else if text == "Volume Up"@ {
            Key::Keyboard(KeyboardKey::VolumeUp)
        } else if text == "Volume Down"@ {
            Key::Keyboard(KeyboardKey::VolumeDown)
        } else if text == "Mouse Left"@ {
            Key::Mouse(MouseButton::Left)
        } else if text == "Mouse Right"@ {
            Key::Mouse(MouseButton::Right)
        } else if text == "Mouse Middle"@ {
            Key::Mouse(MouseButton::Middle)
        } else if text == "Mouse Side"@ {
            Key::Mouse(MouseButton::Side)
        } else if text == "Mouse Extra"@ {
            Key::Mouse(MouseButton::Extra)
        } else if text == "Mouse Forward"@ {
            Key::Mouse(MouseButton::Forward)
        } else if text == "Mouse Back"@ {
            Key::Mouse(MouseButton::Back)
        } else {
            Key::Keyboard(KeyboardKey::Null)
        }
    }

    /// The name of this key.
    pub fn name(self) -> (text: &'static str)
        ensures
            text@ == self.label(),
    {
        match self {
            Key::Keyboard(KeyboardKey::Null) => "Null",
            Key::Keyboard(KeyboardKey::Apostrophe) => "Apostrophe",
            Key::Keyboard(KeyboardKey::Comma) => "Comma",
            Key::Keyboard(KeyboardKey::Minus) => "Minus",
            Key::Keyboard(KeyboardKey::Period) => "Period",
            Key::Keyboard(KeyboardKey::Slash) => "Slash",
            Key::Keyboard(KeyboardKey::Zero) => "Zero",
            Key::Keyboard(KeyboardKey::One) => "1",
            Key::Keyboard(KeyboardKey::Two) => "2",
            Key::Keyboard(KeyboardKey::Three) => "3",
            Key::Keyboard(KeyboardKey::Four) => "4",
            Key::Keyboard(KeyboardKey::Five) => "5",
            Key::Keyboard(KeyboardKey::Six) => "6",
            Key::Keyboard(KeyboardKey::Seven) => "7",
            Key::Keyboard(KeyboardKey::Eight) => "8",
            Key::Keyboard(KeyboardKey::Nine) => "9",
            Key::Keyboard(KeyboardKey::Semicolon) => "Semicolon",
            Key::Keyboard(KeyboardKey::Equal) => "Equal",
            Key::Keyboard(KeyboardKey::A) => "A",
            Key::Keyboard(KeyboardKey::B) => "B",
            Key::Keyboard(KeyboardKey::C) => "C",
            Key::Keyboard(KeyboardKey::D) => "D",
            Key::Keyboard(KeyboardKey::E) => "E",
            Key::Keyboard(KeyboardKey::F) => "F",
            Key::Keyboard(KeyboardKey::G) => "G",
            Key::Keyboard(KeyboardKey::H) => "H",
            Key::Keyboard(KeyboardKey::I) => "I",
            Key::Keyboard(KeyboardKey::J) => "J",
            Key::Keyboard(KeyboardKey::K) => "K",
            Key::Keyboard(KeyboardKey::L) => "L",
            Key::Keyboard(KeyboardKey::M) => "M",
            Key::Keyboard(KeyboardKey::N) => "N",
            Key::Keyboard(KeyboardKey::O) => "O",
            Key::Keyboard(KeyboardKey::P) => "P",
            Key::Keyboard(KeyboardKey::Q) => "Q",
            Key::Keyboard(KeyboardKey::R) => "R",
            Key::Keyboard(KeyboardKey::S) => "S",
            Key::Keyboard(KeyboardKey::T) => "T",
            Key::Keyboard(KeyboardKey::U) => "U",
            Key::Keyboard(KeyboardKey::V) => "V",
            Key::Keyboard(KeyboardKey::W) => "W",
            Key::Keyboard(KeyboardKey::X) => "X",
            Key::Keyboard(KeyboardKey::Y) => "Y",
            Key::Keyboard(KeyboardKey::Z) => "Z",
            Key::Keyboard(KeyboardKey::LeftBracket) => "Left Bracket",
            Key::Keyboard(KeyboardKey::Backslash) => "Backslash",
            Key::Keyboard(KeyboardKey::RightBracket) => "Right Bracket",
            Key::Keyboard(KeyboardKey::Grave) => "Grave",
            Key::Keyboard(KeyboardKey::Space) => "Space",
            Key::Keyboard(KeyboardKey::Escape) => "Escape",
            Key::Keyboard(KeyboardKey::Enter) => "Enter",
            Key::Keyboard(KeyboardKey::Tab) => "Tabulator",
            Key::Keyboard(KeyboardKey::Backspace) => "Backspace",
            Key::Keyboard(KeyboardKey::Insert) => "Insert",
            Key::Keyboard(KeyboardKey::Delete) => "Delete",
            Key::Keyboard(KeyboardKey::Right) => "Right",
            Key::Keyboard(KeyboardKey::Left) => "Left",
            Key::Keyboard(KeyboardKey::Down) => "Down",
            Key::Keyboard(KeyboardKey::Up) => "Up",
            Key::Keyboard(KeyboardKey::PageUp) => "Page Up",
            Key::Keyboard(KeyboardKey::PageDown) => "Page Down",
            Key::Keyboard(KeyboardKey::Home) => "Home",
            Key::Keyboard(KeyboardKey::End) => "End",
            Key::Keyboard(KeyboardKey::CapsLock) => "Caps Lock",
            Key::Keyboard(KeyboardKey::ScrollLock) => "Scroll Lock",
            Key::Keyboard(KeyboardKey::NumLock) => "Number Lock",
            Key::Keyboard(KeyboardKey::PrintScreen) => "Print Screen",
            Key::Keyboard(KeyboardKey::Pause) => "Pause",
            Key::Keyboard(KeyboardKey::F1) => "F1",
            Key::Keyboard(KeyboardKey::F2) => "F2",
            Key::Keyboard(KeyboardKey::F3) => "F3",
            Key::Keyboard(KeyboardKey::F4) => "F4",
            Key::Keyboard(KeyboardKey::F5) => "F5",
            Key::Keyboard(KeyboardKey::F6) => "F6",
            Key::Keyboard(KeyboardKey::F7) => "F7",
            Key::Keyboard(KeyboardKey::F8) => "F8",
            Key::Keyboard(KeyboardKey::F9) => "F9",
            Key::Keyboard(KeyboardKey::F10) => "F10",
            Key::Keyboard(KeyboardKey::F11) => "F11",
            Key::Keyboard(KeyboardKey::F12) => "F12",
            Key::Keyboard(KeyboardKey::LeftShift) => "L. Shift",
            Key::Keyboard(KeyboardKey::LeftControl) => "L. Control",
            Key::Keyboard(KeyboardKey::LeftAlt) => "L. Alt",
            Key::Keyboard(KeyboardKey::LeftSuper) => "L. Super",
            Key::Keyboard(KeyboardKey::RightShift) => "R. Shift",
            Key::Keyboard(KeyboardKey::RightControl) => "R. Control",
            Key::Keyboard(KeyboardKey::RightAlt) => "R. Alt",
            Key::Keyboard(KeyboardKey::RightSuper) => "R. Super",
            Key::Keyboard(KeyboardKey::KbMenu) => "Keyboard Menu",
            Key::Keyboard(KeyboardKey::Kp0) => "Pad 0",
            Key::Keyboard(KeyboardKey::Kp1) => "Pad 1",
            Key::Keyboard(KeyboardKey::Kp2) => "Pad 2",
            Key::Keyboard(KeyboardKey::Kp3) => "Pad 3",
            Key::Keyboard(KeyboardKey::Kp4) => "Pad 4",
            Key::Keyboard(KeyboardKey::Kp5) => "Pad 5",
            Key::Keyboard(KeyboardKey::Kp6) => "Pad 6",
            Key::Keyboard(KeyboardKey::Kp7) => "Pad 7",
            Key::Keyboard(KeyboardKey::Kp8) => "Pad 8",
            Key::Keyboard(KeyboardKey::Kp9) => "Pad 9",
            Key::Keyboard(KeyboardKey::KpDecimal) => "Pad Decimal",
            Key::Keyboard(KeyboardKey::KpDivide) => "Pad Divide",
            Key::Keyboard(KeyboardKey::KpMultiply) => "Pad Multiply",
            Key::Keyboard(KeyboardKey::KpSubtract) => "Pad Subtract",
            Key::Keyboard(KeyboardKey::KpAdd) => "Pad Add",
            Key::Keyboard(KeyboardKey::KpEnter) => "Pad Enter",
            Key::Keyboard(KeyboardKey::KpEqual) => "Pad Equal",
            Key::Keyboard(KeyboardKey::Back) => "Back",
            Key::Keyboard(KeyboardKey::Menu) => "Menu",
            Key::Keyboard(KeyboardKey::VolumeUp) => "Volume Up",
            Key::Keyboard(KeyboardKey::VolumeDown) => "Volume Down",
            Key::Mouse(MouseButton::Left) => "Mouse Left",
            Key::Mouse(MouseButton::Right) => "Mouse Right",
            Key::Mouse(MouseButton::Middle) => "Mouse Middle",
            Key::Mouse(MouseButton::Side) => "Mouse Side",
            Key::Mouse(MouseButton::Extra) => "Mouse Extra",
            Key::Mouse(MouseButton::Forward) => "Mouse Forward",
            Key::Mouse(MouseButton::Back) => "Mouse Back",
        }
    }
}

impl Key {
    /// The key that a name stands for, if it is the name of a key. A
    /// name of no key stands for nothing: whoever reads a binding can
    /// tell a name that is wrong from the name of the null key.
    pub fn parse(value: &str) -> (r: Option<Key>)
        ensures
            r == (if exists|k: Key| k.label() == value@ {
                Some(Key::named(value@))
            } else {
                None
            }),
    {
        let key = Key::from(value);
        if same_text(key.name(), value) {
            Some(key)
        } else {
            proof {
                assert forall|k: Key| k.label() != value@ by {
                    lemma_name_round_trip(k);
                }
            }
            None
        }
    }
}

impl From<&str> for Key {
    fn from(value: &str) -> (key: Self) {
        if same_text(value, "Null") {
            Key::Keyboard(KeyboardKey::Null)
        } else if same_text(value, "Apostrophe") {
            Key::Keyboard(KeyboardKey::Apostrophe)
        } else if same_text(value, "Comma") {
            Key::Keyboard(KeyboardKey::Comma)
        } else if same_text(value, "Minus") {
            Key::Keyboard(KeyboardKey::Minus)
        } else if same_text(value, "Period") {
            Key::Keyboard(KeyboardKey::Period)
        } else if same_text(value, "Slash") {
            Key::Keyboard(KeyboardKey::Slash)
        } else if same_text(value, "Zero") {
            Key::Keyboard(KeyboardKey::Zero)
        } else if same_text(value, "1") {
            Key::Keyboard(KeyboardKey::One)
        } else if same_text(value, "2") {
            Key::Keyboard(KeyboardKey::Two)
        } else if same_text(value, "3") {
            Key::Keyboard(KeyboardKey::Three)
        } else if same_text(value, "4") {
            Key::Keyboard(KeyboardKey::Four)
        } else if same_text(value, "5") {
            Key::Keyboard(KeyboardKey::Five)
        } else if same_text(value, "6") {
            Key::Keyboard(KeyboardKey::Six)
        } else if same_text(value, "7") {
            Key::Keyboard(KeyboardKey::Seven)
        } else if same_text(value, "8") {
            Key::Keyboard(KeyboardKey::Eight)
        } else if same_text(value, "9") {
            Key::Keyboard(KeyboardKey::Nine)
        } else if same_text(value, "Semicolon") {
            Key::Keyboard(KeyboardKey::Semicolon)
        } else if same_text(value, "Equal") {
            Key::Keyboard(KeyboardKey::Equal)
        } else if same_text(value, "A") {
            Key::Keyboard(KeyboardKey::A)
        } else if same_text(value, "B") {
            Key::Keyboard(KeyboardKey::B)
        } else if same_text(value, "C") {
            Key::Keyboard(KeyboardKey::C)
        } else if same_text(value, "D") {
            Key::Keyboard(KeyboardKey::D)
        } else if same_text(value, "E") {
            Key::Keyboard(KeyboardKey::E)
        } else if same_text(value, "F") {
            Key::Keyboard(KeyboardKey::F)
        } else if same_text(value, "G") {
            Key::Keyboard(KeyboardKey::G)
        } else if same_text(value, "H") {
            Key::Keyboard(KeyboardKey::H)
        } else if same_text(value, "I") {
            Key::Keyboard(KeyboardKey::I)
        } else if same_text(value, "J") {
            Key::Keyboard(KeyboardKey::J)
        } else if same_text(value, "K") {
            Key::Keyboard(KeyboardKey::K)
        } else if same_text(value, "L") {
            Key::Keyboard(KeyboardKey::L)
        } else if same_text(value, "M") {
            Key::Keyboard(KeyboardKey::M)
        } else if same_text(value, "N") {
            Key::Keyboard(KeyboardKey::N)
        } else if same_text(value, "O") {
            Key::Keyboard(KeyboardKey::O)
        } else if same_text(value, "P") {
            Key::Keyboard(KeyboardKey::P)
        } else if same_text(value, "Q") {
            Key::Keyboard(KeyboardKey::Q)
        } else if same_text(value, "R") {
            Key::Keyboard(KeyboardKey::R)
        } else if same_text(value, "S") {
            Key::Keyboard(KeyboardKey::S)
        } else if same_text(value, "T") {
            Key::Keyboard(KeyboardKey::T)
        } else if same_text(value, "U") {
            Key::Keyboard(KeyboardKey::U)
        } else if same_text(value, "V") {
            Key::Keyboard(KeyboardKey::V)
        } else if same_text(value, "W") {
            Key::Keyboard(KeyboardKey::W)
        } else if same_text(value, "X") {
            Key::Keyboard(KeyboardKey::X)
        } else if same_text(value, "Y") {
            Key::Keyboard(KeyboardKey::Y)
        } else if same_text(value, "Z") {
            Key::Keyboard(KeyboardKey::Z)
        } else if same_text(value, "Left Bracket") {
            Key::Keyboard(KeyboardKey::LeftBracket)
        } else if same_text(value, "Backslash") {
            Key::Keyboard(KeyboardKey::Backslash)
        } else if same_text(value, "Right Bracket") {
            Key::Keyboard(KeyboardKey::RightBracket)
        } else if same_text(value, "Grave") {
            Key::Keyboard(KeyboardKey::Grave)
        } else if same_text(value, "Space") {
            Key::Keyboard(KeyboardKey::Space)
        } else if same_text(value, "Escape") {
            Key::Keyboard(KeyboardKey::Escape)
        } else if same_text(value, "Enter") {
            Key::Keyboard(KeyboardKey::Enter)
        } else if same_text(value, "Tabulator") {
            Key::Keyboard(KeyboardKey::Tab)
        } else if same_text(value, "Backspace") {
            Key::Keyboard(KeyboardKey::Backspace)
        } else if same_text(value, "Insert") {
            Key::Keyboard(KeyboardKey::Insert)
        } else if same_text(value, "Delete") {
            Key::Keyboard(KeyboardKey::Delete)
        } else if same_text(value, "Right") {
            Key::Keyboard(KeyboardKey::Right)
        } else if same_text(value, "Left") {
            Key::Keyboard(KeyboardKey::Left)
        } else if same_text(value, "Down") {
            Key::Keyboard(KeyboardKey::Down)
        } else if same_text(value, "Up") {
            Key::Keyboard(KeyboardKey::Up)
        } else if same_text(value, "Page Up") {
            Key::Keyboard(KeyboardKey::PageUp)
        } else if same_text(value, "Page Down") {
            Key::Keyboard(KeyboardKey::PageDown)
        } else if same_text(value, "Home") {
            Key::Keyboard(KeyboardKey::Home)
        } else if same_text(value, "End") {
            Key::Keyboard(KeyboardKey::End)
        } else if same_text(value, "Caps Lock") {
            Key::Keyboard(KeyboardKey::CapsLock)
        } else if same_text(value, "Scroll Lock") {
            Key::Keyboard(KeyboardKey::ScrollLock)
        } else if same_text(value, "Number Lock") {
            Key::Keyboard(KeyboardKey::NumLock)
        } else if same_text(value, "Print Screen") {
            Key::Keyboard(KeyboardKey::PrintScreen)
        } else if same_text(value, "Pause") {
            Key::Keyboard(KeyboardKey::Pause)
        } else if same_text(value, "F1") {
            Key::Keyboard(KeyboardKey::F1)
        } else if same_text(value, "F2") {
            Key::Keyboard(KeyboardKey::F2)
        } else if same_text(value, "F3") {
            Key::Keyboard(KeyboardKey::F3)
        } else if same_text(value, "F4") {
            Key::Keyboard(KeyboardKey::F4)
        } else if same_text(value, "F5") {
            Key::Keyboard(KeyboardKey::F5)
        } else if same_text(value, "F6") {
            Key::Keyboard(KeyboardKey::F6)
        } else if same_text(value, "F7") {
            Key::Keyboard(KeyboardKey::F7)
        } else if same_text(value, "F8") {
            Key::Keyboard(KeyboardKey::F8)
        } else if same_text(value, "F9") {
            Key::Keyboard(KeyboardKey::F9)
        } else if same_text(value, "F10") {
            Key::Keyboard(KeyboardKey::F10)
        } else if same_text(value, "F11") {
            Key::Keyboard(KeyboardKey::F11)
        } else if same_text(value, "F12") {
            Key::Keyboard(KeyboardKey::F12)
        } else if same_text(value, "L. Shift") {
            Key::Keyboard(KeyboardKey::LeftShift)
        } else if same_text(value, "L. Control") {
            Key::Keyboard(KeyboardKey::LeftControl)
        } else if same_text(value, "L. Alt") {
            Key::Keyboard(KeyboardKey::LeftAlt)
        } else if same_text(value, "L. Super") {
            Key::Keyboard(KeyboardKey::LeftSuper)
        } else if same_text(value, "R. Shift") {
            Key::Keyboard(KeyboardKey::RightShift)
        } else if same_text(value, "R. Control") {
            Key::Keyboard(KeyboardKey::RightControl)
        } else if same_text(value, "R. Alt") {
            Key::Keyboard(KeyboardKey::RightAlt)
        } else if same_text(value, "R. Super") {
            Key::Keyboard(KeyboardKey::RightSuper)
        } else if same_text(value, "Keyboard Menu") {
            Key::Keyboard(KeyboardKey::KbMenu)
        } else if same_text(value, "Pad 0") {
            Key::Keyboard(KeyboardKey::Kp0)
        } else if same_text(value, "Pad 1") {
            Key::Keyboard(KeyboardKey::Kp1)
        } else if same_text(value, "Pad 2") {
            Key::Keyboard(KeyboardKey::Kp2)
        } else if same_text(value, "Pad 3") {
            Key::Keyboard(KeyboardKey::Kp3)
        } else if same_text(value, "Pad 4") {
            Key::Keyboard(KeyboardKey::Kp4)
        } else if same_text(value, "Pad 5") {
            Key::Keyboard(KeyboardKey::Kp5)
        } else if same_text(value, "Pad 6") {
            Key::Keyboard(KeyboardKey::Kp6)
        } else if same_text(value, "Pad 7") {
            Key::Keyboard(KeyboardKey::Kp7)
        } else if same_text(value, "Pad 8") {
            Key::Keyboard(KeyboardKey::Kp8)
        } else if same_text(value, "Pad 9") {
            Key::Keyboard(KeyboardKey::Kp9)
        } else if same_text(value, "Pad Decimal") {
            Key::Keyboard(KeyboardKey::KpDecimal)
        } else if same_text(value, "Pad Divide") {
            Key::Keyboard(KeyboardKey::KpDivide)
        } else if same_text(value, "Pad Multiply") {
            Key::Keyboard(KeyboardKey::KpMultiply)
        } else if same_text(value, "Pad Subtract") {
            Key::Keyboard(KeyboardKey::KpSubtract)
        } else if same_text(value, "Pad Add") {
            Key::Keyboard(KeyboardKey::KpAdd)
        } else if same_text(value, "Pad Enter") {
            Key::Keyboard(KeyboardKey::KpEnter)
        } else if same_text(value, "Pad Equal") {
            Key::Keyboard(KeyboardKey::KpEqual)
        } else if same_text(value, "Back") {
            Key::Keyboard(KeyboardKey::Back)
        } else if same_text(value, "Menu") {
            Key::Keyboard(KeyboardKey::Menu)
        } else if same_text(value, "Volume Up") {
            Key::Keyboard(KeyboardKey::VolumeUp)
        } else if same_text(value, "Volume Down") {
            Key::Keyboard(KeyboardKey::VolumeDown)
        } else if same_text(value, "Mouse Left") {
            Key::Mouse(MouseButton::Left)
        } else if same_text(value, "Mouse Right") {
            Key::Mouse(MouseButton::Right)
        } else if same_text(value, "Mouse Middle") {
            Key::Mouse(MouseButton::Middle)
        } else if same_text(value, "Mouse Side") {
            Key::Mouse(MouseButton::Side)
        } else if same_text(value, "Mouse Extra") {
            Key::Mouse(MouseButton::Extra)
        } else if same_text(value, "Mouse Forward") {
            Key::Mouse(MouseButton::Forward)
        } else if same_text(value, "Mouse Back") {
            Key::Mouse(MouseButton::Back)
        } else {
            Key::Keyboard(KeyboardKey::Null)
        }
    }
}

impl vstd::std_specs::convert::FromSpecImpl<&str> for Key {
    open spec fn obeys_from_spec() -> bool {
        true
    }

    open spec fn from_spec(value: &str) -> Self {
        Key::named(value@)
    }
}

/// What tells any two key names apart: the length, the first and the
/// last character.
pub open spec fn mark(text: Seq<char>) -> (nat, char, char) {
    (text.len(), text[0], text[text.len() - 1])
}

/// Every key is the key that its own name stands for: no two keys share
/// a name.
pub proof fn lemma_name_round_trip(key: Key)
    ensures
        Key::named(key.label()) == key,
{
    reveal_strlit("Null");
    assert(mark("Null"@) == (4nat, 'N', 'l'));
    reveal_strlit("Apostrophe");
    assert(mark("Apostrophe"@) == (10nat, 'A', 'e'));
    reveal_strlit("Comma");
    assert(mark("Comma"@) == (5nat, 'C', 'a'));
    reveal_strlit("Minus");
    assert(mark("Minus"@) == (5nat, 'M', 's'));
    reveal_strlit("Period");
    assert(mark("Period"@) == (6nat, 'P', 'd'));
    reveal_strlit("Slash");
    assert(mark("Slash"@) == (5nat, 'S', 'h'));
    reveal_strlit("Zero");
    assert(mark("Zero"@) == (4nat, 'Z', 'o'));
    reveal_strlit("1");
    assert(mark("1"@) == (1nat, '1', '1'));
    reveal_strlit("2");
    assert(mark("2"@) == (1nat, '2', '2'));
    reveal_strlit("3");
    assert(mark("3"@) == (1nat, '3', '3'));
    reveal_strlit("4");
    assert(mark("4"@) == (1nat, '4', '4'));
    reveal_strlit("5");
    assert(mark("5"@) == (1nat, '5', '5'));
    reveal_strlit("6");
    assert(mark("6"@) == (1nat, '6', '6'));
    reveal_strlit("7");
    assert(mark("7"@) == (1nat, '7', '7'));
    reveal_strlit("8");
    assert(mark("8"@) == (1nat, '8', '8'));
    reveal_strlit("9");
    assert(mark("9"@) == (1nat, '9', '9'));
    reveal_strlit("Semicolon");
    assert(mark("Semicolon"@) == (9nat, 'S', 'n'));
    reveal_strlit("Equal");
    assert(mark("Equal"@) == (5nat, 'E', 'l'));
    reveal_strlit("A");
    assert(mark("A"@) == (1nat, 'A', 'A'));
    reveal_strlit("B");
    assert(mark("B"@) == (1nat, 'B', 'B'));
    reveal_strlit("C");
    assert(mark("C"@) == (1nat, 'C', 'C'));
    reveal_strlit("D");
    assert(mark("D"@) == (1nat, 'D', 'D'));
    reveal_strlit("E");
    assert(mark("E"@) == (1nat, 'E', 'E'));
    reveal_strlit("F");
    assert(mark("F"@) == (1nat, 'F', 'F'));
    reveal_strlit("G");
    assert(mark("G"@) == (1nat, 'G', 'G'));
    reveal_strlit("H");
    assert(mark("H"@) == (1nat, 'H', 'H'));
    reveal_strlit("I");
    assert(mark("I"@) == (1nat, 'I', 'I'));
    reveal_strlit("J");
    assert(mark("J"@) == (1nat, 'J', 'J'));
    reveal_strlit("K");
    assert(mark("K"@) == (1nat, 'K', 'K'));
    reveal_strlit("L");
    assert(mark("L"@) == (1nat, 'L', 'L'));
    reveal_strlit("M");
    assert(mark("M"@) == (1nat, 'M', 'M'));
    reveal_strlit("N");
    assert(mark("N"@) == (1nat, 'N', 'N'));
    reveal_strlit("O");
    assert(mark("O"@) == (1nat, 'O', 'O'));
    reveal_strlit("P");
    assert(mark("P"@) == (1nat, 'P', 'P'));
    reveal_strlit("Q");
    assert(mark("Q"@) == (1nat, 'Q', 'Q'));
    reveal_strlit("R");
    assert(mark("R"@) == (1nat, 'R', 'R'));
    reveal_strlit("S");
    assert(mark("S"@) == (1nat, 'S', 'S'));
    reveal_strlit("T");
    assert(mark("T"@) == (1nat, 'T', 'T'));
    reveal_strlit("U");
    assert(mark("U"@) == (1nat, 'U', 'U'));
    reveal_strlit("V");
    assert(mark("V"@) == (1nat, 'V', 'V'));
    reveal_strlit("W");
    assert(mark("W"@) == (1nat, 'W', 'W'));
    reveal_strlit("X");
    assert(mark("X"@) == (1nat, 'X', 'X'));
    reveal_strlit("Y");
    assert(mark("Y"@) == (1nat, 'Y', 'Y'));
    reveal_strlit("Z");
    assert(mark("Z"@) == (1nat, 'Z', 'Z'));
    reveal_strlit("Left Bracket");
    assert(mark("Left Bracket"@) == (12nat, 'L', 't'));
    reveal_strlit("Backslash");
    assert(mark("Backslash"@) == (9nat, 'B', 'h'));
    reveal_strlit("Right Bracket");
    assert(mark("Right Bracket"@) == (13nat, 'R', 't'));
    reveal_strlit("Grave");
    assert(mark("Grave"@) == (5nat, 'G', 'e'));
    reveal_strlit("Space");
    assert(mark("Space"@) == (5nat, 'S', 'e'));
    reveal_strlit("Escape");
    assert(mark("Escape"@) == (6nat, 'E', 'e'));
    reveal_strlit("Enter");
    assert(mark("Enter"@) == (5nat, 'E', 'r'));
    reveal_strlit("Tabulator");
    assert(mark("Tabulator"@) == (9nat, 'T', 'r'));
    reveal_strlit("Backspace");
    assert(mark("Backspace"@) == (9nat, 'B', 'e'));
    reveal_strlit("Insert");
    assert(mark("Insert"@) == (6nat, 'I', 't'));
    reveal_strlit("Delete");
    assert(mark("Delete"@) == (6nat, 'D', 'e'));
    reveal_strlit("Right");
    assert(mark("Right"@) == (5nat, 'R', 't'));
    reveal_strlit("Left");
    assert(mark("Left"@) == (4nat, 'L', 't'));
    reveal_strlit("Down");
    assert(mark("Down"@) == (4nat, 'D', 'n'));
    reveal_strlit("Up");
    assert(mark("Up"@) == (2nat, 'U', 'p'));
    reveal_strlit("Page Up");
    assert(mark("Page Up"@) == (7nat, 'P', 'p'));
    reveal_strlit("Page Down");
    assert(mark("Page Down"@) == (9nat, 'P', 'n'));
    reveal_strlit("Home");
    assert(mark("Home"@) == (4nat, 'H', 'e'));
    reveal_strlit("End");
    assert(mark("End"@) == (3nat, 'E', 'd'));
    reveal_strlit("Caps Lock");
    assert(mark("Caps Lock"@) == (9nat, 'C', 'k'));
    reveal_strlit("Scroll Lock");
    assert(mark("Scroll Lock"@) == (11nat, 'S', 'k'));
    reveal_strlit("Number Lock");
    assert(mark("Number Lock"@) == (11nat, 'N', 'k'));
    reveal_strlit("Print Screen");
    assert(mark("Print Screen"@) == (12nat, 'P', 'n'));
    reveal_strlit("Pause");
    assert(mark("Pause"@) == (5nat, 'P', 'e'));
    reveal_strlit("F1");
    assert(mark("F1"@) == (2nat, 'F', '1'));
    reveal_strlit("F2");
    assert(mark("F2"@) == (2nat, 'F', '2'));
    reveal_strlit("F3");
    assert(mark("F3"@) == (2nat, 'F', '3'));
    reveal_strlit("F4");
    assert(mark("F4"@) == (2nat, 'F', '4'));
    reveal_strlit("F5");
    assert(mark("F5"@) == (2nat, 'F', '5'));
    reveal_strlit("F6");
    assert(mark("F6"@) == (2nat, 'F', '6'));
    reveal_strlit("F7");
    assert(mark("F7"@) == (2nat, 'F', '7'));
    reveal_strlit("F8");
    assert(mark("F8"@) == (2nat, 'F', '8'));
    reveal_strlit("F9");
    assert(mark("F9"@) == (2nat, 'F', '9'));
    reveal_strlit("F10");
    assert(mark("F10"@) == (3nat, 'F', '0'));
    reveal_strlit("F11");
    assert(mark("F11"@) == (3nat, 'F', '1'));
    reveal_strlit("F12");
    assert(mark("F12"@) == (3nat, 'F', '2'));
    reveal_strlit("L. Shift");
    assert(mark("L. Shift"@) == (8nat, 'L', 't'));
    reveal_strlit("L. Control");
    assert(mark("L. Control"@) == (10nat, 'L', 'l'));
    reveal_strlit("L. Alt");
    assert(mark("L. Alt"@) == (6nat, 'L', 't'));
    reveal_strlit("L. Super");
    assert(mark("L. Super"@) == (8nat, 'L', 'r'));
    reveal_strlit("R. Shift");
    assert(mark("R. Shift"@) == (8nat, 'R', 't'));
    reveal_strlit("R. Control");
    assert(mark("R. Control"@) == (10nat, 'R', 'l'));
    reveal_strlit("R. Alt");
    assert(mark("R. Alt"@) == (6nat, 'R', 't'));
    reveal_strlit("R. Super");
    assert(mark("R. Super"@) == (8nat, 'R', 'r'));
    reveal_strlit("Keyboard Menu");
    assert(mark("Keyboard Menu"@) == (13nat, 'K', 'u'));
    reveal_strlit("Pad 0");
    assert(mark("Pad 0"@) == (5nat, 'P', '0'));
    reveal_strlit("Pad 1");
    assert(mark("Pad 1"@) == (5nat, 'P', '1'));
    reveal_strlit("Pad 2");
    assert(mark("Pad 2"@) == (5nat, 'P', '2'));
    reveal_strlit("Pad 3");
    assert(mark("Pad 3"@) == (5nat, 'P', '3'));
    reveal_strlit("Pad 4");
    assert(mark("Pad 4"@) == (5nat, 'P', '4'));
    reveal_strlit("Pad 5");
    assert(mark("Pad 5"@) == (5nat, 'P', '5'));
    reveal_strlit("Pad 6");
    assert(mark("Pad 6"@) == (5nat, 'P', '6'));
    reveal_strlit("Pad 7");
    assert(mark("Pad 7"@) == (5nat, 'P', '7'));
    reveal_strlit("Pad 8");
    assert(mark("Pad 8"@) == (5nat, 'P', '8'));
    reveal_strlit("Pad 9");
    assert(mark("Pad 9"@) == (5nat, 'P', '9'));
    reveal_strlit("Pad Decimal");
    assert(mark("Pad Decimal"@) == (11nat, 'P', 'l'));
    reveal_strlit("Pad Divide");
    assert(mark("Pad Divide"@) == (10nat, 'P', 'e'));
    reveal_strlit("Pad Multiply");
    assert(mark("Pad Multiply"@) == (12nat, 'P', 'y'));
    reveal_strlit("Pad Subtract");
    assert(mark("Pad Subtract"@) == (12nat, 'P', 't'));
    reveal_strlit("Pad Add");
    assert(mark("Pad Add"@) == (7nat, 'P', 'd'));
    reveal_strlit("Pad Enter");
    assert(mark("Pad Enter"@) == (9nat, 'P', 'r'));
    reveal_strlit("Pad Equal");
    assert(mark("Pad Equal"@) == (9nat, 'P', 'l'));
    reveal_strlit("Back");
    assert(mark("Back"@) == (4nat, 'B', 'k'));
    reveal_strlit("Menu");
    assert(mark("Menu"@) == (4nat, 'M', 'u'));
    reveal_strlit("Volume Up");
    assert(mark("Volume Up"@) == (9nat, 'V', 'p'));
    reveal_strlit("Volume Down");
    assert(mark("Volume Down"@) == (11nat, 'V', 'n'));
    reveal_strlit("Mouse Left");
    assert(mark("Mouse Left"@) == (10nat, 'M', 't'));
    reveal_strlit("Mouse Right");
    assert(mark("Mouse Right"@) == (11nat, 'M', 't'));
    reveal_strlit("Mouse Middle");
    assert(mark("Mouse Middle"@) == (12nat, 'M', 'e'));
    reveal_strlit("Mouse Side");
    assert(mark("Mouse Side"@) == (10nat, 'M', 'e'));
    reveal_strlit("Mouse Extra");
    assert(mark("Mouse Extra"@) == (11nat, 'M', 'a'));
    reveal_strlit("Mouse Forward");
    assert(mark("Mouse Forward"@) == (13nat, 'M', 'd'));
    reveal_strlit("Mouse Back");
    assert(mark("Mouse Back"@) == (10nat, 'M', 'k'));
}

} // verus!
