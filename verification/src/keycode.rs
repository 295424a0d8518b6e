//! The closed set of keys that the terminal can report, independent of the
//! escape sequences that encode them.

use vstd::prelude::*;

verus! {

/// How many keys [`KeyCode`] names.
pub const KEY_COUNT: u16 = 94;

/// A key of a US keyboard, named by its position and not by the character it
/// types: `KeyA` stands for both `a` and `A`.
#[derive(Debug, Clone, Copy, PartialEq, Eq, Hash, Structural)]
pub enum KeyCode {
    // Writing-system keys
    /// The key that types `` ` `` and `~`.
    Backquote,
    /// The key that types `\` and `|`.
    Backslash,
    /// The key that types `[` and `{`.
    BracketLeft,
    /// The key that types `]` and `}`.
    BracketRight,
    /// The key that types `,` and `<`.
    Comma,
    /// The key that types `0` and `)`.
    Digit0,
    /// The key that types `1` and `!`.
    Digit1,
    /// The key that types `2` and `@`.
    Digit2,
    /// The key that types `3` and `#`.
    Digit3,
    /// The key that types `4` and `$`.
    Digit4,
    /// The key that types `5` and `%`.
    Digit5,
    /// The key that types `6` and `^`.
    Digit6,
    /// The key that types `7` and `&`.
    Digit7,
    /// The key that types `8` and `*`.
    Digit8,
    /// The key that types `9` and `(`.
    Digit9,
    /// The key that types `=` and `+`.
    Equal,
    /// The key that types `a` and `A`.
    KeyA,
    /// The key that types `b` and `B`.
    KeyB,
    /// The key that types `c` and `C`.
    KeyC,
    /// The key that types `d` and `D`.
    KeyD,
    /// The key that types `e` and `E`.
    KeyE,
    /// The key that types `f` and `F`.
    KeyF,
    /// The key that types `g` and `G`.
    KeyG,
    /// The key that types `h` and `H`.
    KeyH,
    /// The key that types `i` and `I`.
    KeyI,
    /// The key that types `j` and `J`.
    KeyJ,
    /// The key that types `k` and `K`.
    KeyK,
    /// The key that types `l` and `L`.
    KeyL,
    /// The key that types `m` and `M`.
    KeyM,
    /// The key that types `n` and `N`.
    KeyN,
    /// The key that types `o` and `O`.
    KeyO,
    /// The key that types `p` and `P`.
    KeyP,
    /// The key that types `q` and `Q`.
    KeyQ,
    /// The key that types `r` and `R`.
    KeyR,
    /// The key that types `s` and `S`.
    KeyS,
    /// The key that types `t` and `T`.
    KeyT,
    /// The key that types `u` and `U`.
    KeyU,
    /// The key that types `v` and `V`.
    KeyV,
    /// The key that types `w` and `W`.
    KeyW,
    /// The key that types `x` and `X`.
    KeyX,
    /// The key that types `y` and `Y`.
    KeyY,
    /// The key that types `z` and `Z`.
    KeyZ,
    /// The key that types `-` and `_`.
    Minus,
    /// The key that types `.` and `>`.
    Period,
    /// The key that types `'` and `"`.
    Quote,
    /// The key that types `;` and `:`.
    Semicolon,
    /// The key that types `/` and `?`.
    Slash,
    // Functional keys
    /// The backspace key.
    Backspace,
    /// The enter key.
    Enter,
    /// The space key.
    Space,
    /// The tab key.
    Tab,
    // Control pad
    /// The delete key.
    Delete,
    /// The end key.
    End,
    /// The home key.
    Home,
    /// The insert key.
    Insert,
    /// The page down key.
    PageDown,
    /// The page up key.
    PageUp,
    // Arrow pad
    /// The down arrow key.
    ArrowDown,
    /// The left arrow key.
    ArrowLeft,
    /// The right arrow key.
    ArrowRight,
    /// The up arrow key.
    ArrowUp,
    // Function row
    /// The escape key.
    Escape,
    /// Function key 1.
    F1,
    /// Function key 2.
    F2,
    /// Function key 3.
    F3,
    /// Function key 4.
    F4,
    /// Function key 5.
    F5,
    /// Function key 6.
    F6,
    /// Function key 7.
    F7,
    /// Function key 8.
    F8,
    /// Function key 9.
    F9,
    /// Function key 10.
    F10,
    /// Function key 11.
    F11,
    /// Function key 12.
    F12,
    /// Function key 13.
    F13,
    /// Function key 14.
    F14,
    /// Function key 15.
    F15,
    /// Function key 16.
    F16,
    /// Function key 17.
    F17,
    /// Function key 18.
    F18,
    /// Function key 19.
    F19,
    /// Function key 20.
    F20,
    /// Function key 21.
    F21,
    /// Function key 22.
    F22,
    /// Function key 23.
    F23,
    /// Function key 24.
    F24,
    // Modifiers
    /// The left shift key.
    ShiftLeft,
    /// The right shift key.
    ShiftRight,
    /// The left control key.
    ControlLeft,
    /// The right control key.
    ControlRight,
    /// The left alt key.
    AltLeft,
    /// The right alt key.
    AltRight,
    /// The left super key.
    SuperLeft,
    /// The right super key.
    SuperRight,
}

impl KeyCode {
    /// The number that stands for this key wherever keys are stored as
    /// integers. Distinct keys have distinct codes, all below [`KEY_COUNT`].
    pub open spec fn spec_code(self) -> u16 {
        match self {
            KeyCode::Backquote => 0,
            KeyCode::Backslash => 1,
            KeyCode::BracketLeft => 2,
            KeyCode::BracketRight => 3,
            KeyCode::Comma => 4,
            KeyCode::Digit0 => 5,
            KeyCode::Digit1 => 6,
            KeyCode::Digit2 => 7,
            KeyCode::Digit3 => 8,
            KeyCode::Digit4 => 9,
            KeyCode::Digit5 => 10,
            KeyCode::Digit6 => 11,
            KeyCode::Digit7 => 12,
            KeyCode::Digit8 => 13,
            KeyCode::Digit9 => 14,
            KeyCode::Equal => 15,
            KeyCode::KeyA => 16,
            KeyCode::KeyB => 17,
            KeyCode::KeyC => 18,
            KeyCode::KeyD => 19,
            KeyCode::KeyE => 20,
            KeyCode::KeyF => 21,
            KeyCode::KeyG => 22,
            KeyCode::KeyH => 23,
            KeyCode::KeyI => 24,
            KeyCode::KeyJ => 25,
            KeyCode::KeyK => 26,
            KeyCode::KeyL => 27,
            KeyCode::KeyM => 28,
            KeyCode::KeyN => 29,
            KeyCode::KeyO => 30,
            KeyCode::KeyP => 31,
            KeyCode::KeyQ => 32,
            KeyCode::KeyR => 33,
            KeyCode::KeyS => 34,
            KeyCode::KeyT => 35,
            KeyCode::KeyU => 36,
            KeyCode::KeyV => 37,
            KeyCode::KeyW => 38,
            KeyCode::KeyX => 39,
            KeyCode::KeyY => 40,
            KeyCode::KeyZ => 41,
            KeyCode::Minus => 42,
            KeyCode::Period => 43,
            KeyCode::Quote => 44,
            KeyCode::Semicolon => 45,
            KeyCode::Slash => 46,
            KeyCode::Backspace => 47,
            KeyCode::Enter => 48,
            KeyCode::Space => 49,
            KeyCode::Tab => 50,
            KeyCode::Delete => 51,
            KeyCode::End => 52,
            KeyCode::Home => 53,
            KeyCode::Insert => 54,
            KeyCode::PageDown => 55,
            KeyCode::PageUp => 56,
            KeyCode::ArrowDown => 57,
            KeyCode::ArrowLeft => 58,
            KeyCode::ArrowRight => 59,
            KeyCode::ArrowUp => 60,
            KeyCode::Escape => 61,
            KeyCode::F1 => 62,
            KeyCode::F2 => 63,
            KeyCode::F3 => 64,
            KeyCode::F4 => 65,
            KeyCode::F5 => 66,
            KeyCode::F6 => 67,
            KeyCode::F7 => 68,
            KeyCode::F8 => 69,
            KeyCode::F9 => 70,
            KeyCode::F10 => 71,
            KeyCode::F11 => 72,
            KeyCode::F12 => 73,
            KeyCode::F13 => 74,
            KeyCode::F14 => 75,
            KeyCode::F15 => 76,
            KeyCode::F16 => 77,
            KeyCode::F17 => 78,
            KeyCode::F18 => 79,
            KeyCode::F19 => 80,
            KeyCode::F20 => 81,
            KeyCode::F21 => 82,
            KeyCode::F22 => 83,
            KeyCode::F23 => 84,
            KeyCode::F24 => 85,
            KeyCode::ShiftLeft => 86,
            KeyCode::ShiftRight => 87,
            KeyCode::ControlLeft => 88,
            KeyCode::ControlRight => 89,
            KeyCode::AltLeft => 90,
            KeyCode::AltRight => 91,
            KeyCode::SuperLeft => 92,
            KeyCode::SuperRight => 93,
        }
    }

    /// Returns the key's code.
    #[verifier::when_used_as_spec(spec_code)]
    pub fn code(self) -> (c: u16)
        ensures
            c == self.spec_code(),
            c < KEY_COUNT,
    {
        match self {
            KeyCode::Backquote => 0,
            KeyCode::Backslash => 1,
            KeyCode::BracketLeft => 2,
            KeyCode::BracketRight => 3,
            KeyCode::Comma => 4,
            KeyCode::Digit0 => 5,
            KeyCode::Digit1 => 6,
            KeyCode::Digit2 => 7,
            KeyCode::Digit3 => 8,
            KeyCode::Digit4 => 9,
            KeyCode::Digit5 => 10,
            KeyCode::Digit6 => 11,
            KeyCode::Digit7 => 12,
            KeyCode::Digit8 => 13,
            KeyCode::Digit9 => 14,
            KeyCode::Equal => 15,
            KeyCode::KeyA => 16,
            KeyCode::KeyB => 17,
            KeyCode::KeyC => 18,
            KeyCode::KeyD => 19,
            KeyCode::KeyE => 20,
            KeyCode::KeyF => 21,
            KeyCode::KeyG => 22,
            KeyCode::KeyH => 23,
            KeyCode::KeyI => 24,
            KeyCode::KeyJ => 25,
            KeyCode::KeyK => 26,
            KeyCode::KeyL => 27,
            KeyCode::KeyM => 28,
            KeyCode::KeyN => 29,
            KeyCode::KeyO => 30,
            KeyCode::KeyP => 31,
            KeyCode::KeyQ => 32,
            KeyCode::KeyR => 33,
            KeyCode::KeyS => 34,
            KeyCode::KeyT => 35,
            KeyCode::KeyU => 36,
            KeyCode::KeyV => 37,
            KeyCode::KeyW => 38,
            KeyCode::KeyX => 39,
            KeyCode::KeyY => 40,
            KeyCode::KeyZ => 41,
            KeyCode::Minus => 42,
            KeyCode::Period => 43,
            KeyCode::Quote => 44,
            KeyCode::Semicolon => 45,
            KeyCode::Slash => 46,
            KeyCode::Backspace => 47,
            KeyCode::Enter => 48,
            KeyCode::Space => 49,
            KeyCode::Tab => 50,
            KeyCode::Delete => 51,
            KeyCode::End => 52,
            KeyCode::Home => 53,
            KeyCode::Insert => 54,
            KeyCode::PageDown => 55,
            KeyCode::PageUp => 56,
            KeyCode::ArrowDown => 57,
            KeyCode::ArrowLeft => 58,
            KeyCode::ArrowRight => 59,
            KeyCode::ArrowUp => 60,
            KeyCode::Escape => 61,
            KeyCode::F1 => 62,
            KeyCode::F2 => 63,
            KeyCode::F3 => 64,
            KeyCode::F4 => 65,
            KeyCode::F5 => 66,
            KeyCode::F6 => 67,
            KeyCode::F7 => 68,
            KeyCode::F8 => 69,
            KeyCode::F9 => 70,
            KeyCode::F10 => 71,
            KeyCode::F11 => 72,
            KeyCode::F12 => 73,
            KeyCode::F13 => 74,
            KeyCode::F14 => 75,
            KeyCode::F15 => 76,
            KeyCode::F16 => 77,
            KeyCode::F17 => 78,
            KeyCode::F18 => 79,
            KeyCode::F19 => 80,
            KeyCode::F20 => 81,
            KeyCode::F21 => 82,
            KeyCode::F22 => 83,
            KeyCode::F23 => 84,
            KeyCode::F24 => 85,
            KeyCode::ShiftLeft => 86,
            KeyCode::ShiftRight => 87,
            KeyCode::ControlLeft => 88,
            KeyCode::ControlRight => 89,
            KeyCode::AltLeft => 90,
            KeyCode::AltRight => 91,
            KeyCode::SuperLeft => 92,
            KeyCode::SuperRight => 93,
        }
    }

    /// Returns the key that `code` stands for, if it stands for one.
    pub fn from_code(code: u16) -> (key: Option<KeyCode>)
        ensures
            code < KEY_COUNT <==> key.is_some(),
            key matches Some(k) ==> k.spec_code() == code,
    {
        match code {
            0 => Some(KeyCode::Backquote),
            1 => Some(KeyCode::Backslash),
            2 => Some(KeyCode::BracketLeft),
            3 => Some(KeyCode::BracketRight),
            4 => Some(KeyCode::Comma),
            5 => Some(KeyCode::Digit0),
            6 => Some(KeyCode::Digit1),
            7 => Some(KeyCode::Digit2),
            8 => Some(KeyCode::Digit3),
            9 => Some(KeyCode::Digit4),
            10 => Some(KeyCode::Digit5),
            11 => Some(KeyCode::Digit6),
            12 => Some(KeyCode::Digit7),
            13 => Some(KeyCode::Digit8),
            14 => Some(KeyCode::Digit9),
            15 => Some(KeyCode::Equal),
            16 => Some(KeyCode::KeyA),
            17 => Some(KeyCode::KeyB),
            18 => Some(KeyCode::KeyC),
            19 => Some(KeyCode::KeyD),
            20 => Some(KeyCode::KeyE),
            21 => Some(KeyCode::KeyF),
            22 => Some(KeyCode::KeyG),
            23 => Some(KeyCode::KeyH),
            24 => Some(KeyCode::KeyI),
            25 => Some(KeyCode::KeyJ),
            26 => Some(KeyCode::KeyK),
            27 => Some(KeyCode::KeyL),
            28 => Some(KeyCode::KeyM),
            29 => Some(KeyCode::KeyN),
            30 => Some(KeyCode::KeyO),
            31 => Some(KeyCode::KeyP),
            32 => Some(KeyCode::KeyQ),
            33 => Some(KeyCode::KeyR),
            34 => Some(KeyCode::KeyS),
            35 => Some(KeyCode::KeyT),
            36 => Some(KeyCode::KeyU),
            37 => Some(KeyCode::KeyV),
            38 => Some(KeyCode::KeyW),
            39 => Some(KeyCode::KeyX),
            40 => Some(KeyCode::KeyY),
            41 => Some(KeyCode::KeyZ),
            42 => Some(KeyCode::Minus),
            43 => Some(KeyCode::Period),
            44 => Some(KeyCode::Quote),
            45 => Some(KeyCode::Semicolon),
            46 => Some(KeyCode::Slash),
            47 => Some(KeyCode::Backspace),
            48 => Some(KeyCode::Enter),
            49 => Some(KeyCode::Space),
            50 => Some(KeyCode::Tab),
            51 => Some(KeyCode::Delete),
            52 => Some(KeyCode::End),
            53 => Some(KeyCode::Home),
            54 => Some(KeyCode::Insert),
            55 => Some(KeyCode::PageDown),
            56 => Some(KeyCode::PageUp),
            57 => Some(KeyCode::ArrowDown),
            58 => Some(KeyCode::ArrowLeft),
            59 => Some(KeyCode::ArrowRight),
            60 => Some(KeyCode::ArrowUp),
            61 => Some(KeyCode::Escape),
            62 => Some(KeyCode::F1),
            63 => Some(KeyCode::F2),
            64 => Some(KeyCode::F3),
            65 => Some(KeyCode::F4),
            66 => Some(KeyCode::F5),
            67 => Some(KeyCode::F6),
            68 => Some(KeyCode::F7),
            69 => Some(KeyCode::F8),
            70 => Some(KeyCode::F9),
            71 => Some(KeyCode::F10),
            72 => Some(KeyCode::F11),
            73 => Some(KeyCode::F12),
            74 => Some(KeyCode::F13),
            75 => Some(KeyCode::F14),
            76 => Some(KeyCode::F15),
            77 => Some(KeyCode::F16),
            78 => Some(KeyCode::F17),
            79 => Some(KeyCode::F18),
            80 => Some(KeyCode::F19),
            81 => Some(KeyCode::F20),
            82 => Some(KeyCode::F21),
            83 => Some(KeyCode::F22),
            84 => Some(KeyCode::F23),
            85 => Some(KeyCode::F24),
            86 => Some(KeyCode::ShiftLeft),
            87 => Some(KeyCode::ShiftRight),
            88 => Some(KeyCode::ControlLeft),
            89 => Some(KeyCode::ControlRight),
            90 => Some(KeyCode::AltLeft),
            91 => Some(KeyCode::AltRight),
            92 => Some(KeyCode::SuperLeft),
            93 => Some(KeyCode::SuperRight),
            _ => None,
        }
    }

    /// Every key's code is below [`KEY_COUNT`].
    pub proof fn lemma_code_in_range(self)
        ensures
            self.spec_code() < KEY_COUNT,
    {
    }

    /// Two keys with the same code are the same key.
    pub proof fn lemma_code_injective(a: KeyCode, b: KeyCode)
        requires
            a.spec_code() == b.spec_code(),
        ensures
            a == b,
    {
    }
}

} // verus!
