//! Stable numeric identifiers of physical keys, independent of layout.

use vstd::prelude::*;

verus! {

/// A physical key, named after its evdev scan code.
#[allow(non_camel_case_types)]
#[derive(Debug, Clone, Copy, PartialEq, Eq, Structural, Hash)]
pub enum KeyCode {
    KEY_RESERVED,
    KEY_ESC,
    KEY_KEY1,
    KEY_KEY2,
    KEY_KEY3,
    KEY_KEY4,
    KEY_KEY5,
    KEY_KEY6,
    KEY_KEY7,
    KEY_KEY8,
    KEY_KEY9,
    KEY_KEY0,
    KEY_MINUS,
    KEY_EQUAL,
    KEY_BACKSPACE,
    KEY_TAB,
    KEY_Q,
    KEY_W,
    KEY_E,
    KEY_R,
    KEY_T,
    KEY_Y,
    KEY_U,
    KEY_I,
    KEY_O,
    KEY_P,
    KEY_LEFTBRACE,
    KEY_RIGHTBRACE,
    KEY_ENTER,
    KEY_LEFTCTRL,
    KEY_A,
    KEY_S,
    KEY_D,
    KEY_F,
    KEY_G,
    KEY_H,
    KEY_J,
    KEY_K,
    KEY_L,
    KEY_SEMICOLON,
    KEY_APOSTROPHE,
    KEY_GRAVE,
    KEY_LEFTSHIFT,
    KEY_BACKSLASH,
    KEY_Z,
    KEY_X,
    KEY_C,
    KEY_V,
    KEY_B,
    KEY_N,
    KEY_M,
    KEY_COMMA,
    KEY_DOT,
    KEY_SLASH,
    KEY_RIGHTSHIFT,
    KEY_KPASTERISK,
    KEY_LEFTALT,
    KEY_SPACE,
    KEY_CAPSLOCK,
    KEY_F1,
    KEY_F2,
    KEY_F3,
    KEY_F4,
    KEY_F5,
    KEY_F6,
    KEY_F7,
    KEY_F8,
    KEY_F9,
    KEY_F10,
    KEY_F13,
    KEY_F14,
    KEY_F15,
    KEY_F16,
    KEY_F17,
    KEY_F18,
    KEY_F19,
    KEY_F20,
    KEY_F21,
    KEY_F22,
    KEY_F23,
    KEY_F24,
    KEY_NUMLOCK,
    KEY_SCROLLLOCK,
    KEY_KP7,
    KEY_KP8,
    KEY_KP9,
    KEY_KPMINUS,
    KEY_KP4,
    KEY_KP5,
    KEY_KP6,
    KEY_KPPLUS,
    KEY_KP1,
    KEY_KP2,
    KEY_KP3,
    KEY_KP0,
    KEY_KPDOT,
}

/// The scan code that identifies `k`.
pub open spec fn code_of(k: KeyCode) -> u32 {
    match k {
        KeyCode::KEY_RESERVED => 0,
        KeyCode::KEY_ESC => 1,
        KeyCode::KEY_KEY1 => 2,
        KeyCode::KEY_KEY2 => 3,
        KeyCode::KEY_KEY3 => 4,
        KeyCode::KEY_KEY4 => 5,
        KeyCode::KEY_KEY5 => 6,
        KeyCode::KEY_KEY6 => 7,
        KeyCode::KEY_KEY7 => 8,
        KeyCode::KEY_KEY8 => 9,
        KeyCode::KEY_KEY9 => 10,
        KeyCode::KEY_KEY0 => 11,
        KeyCode::KEY_MINUS => 12,
        KeyCode::KEY_EQUAL => 13,
        KeyCode::KEY_BACKSPACE => 14,
        KeyCode::KEY_TAB => 15,
        KeyCode::KEY_Q => 16,
        KeyCode::KEY_W => 17,
        KeyCode::KEY_E => 18,
        KeyCode::KEY_R => 19,
        KeyCode::KEY_T => 20,
        KeyCode::KEY_Y => 21,
        KeyCode::KEY_U => 22,
        KeyCode::KEY_I => 23,
        KeyCode::KEY_O => 24,
        KeyCode::KEY_P => 25,
        KeyCode::KEY_LEFTBRACE => 26,
        KeyCode::KEY_RIGHTBRACE => 27,
        KeyCode::KEY_ENTER => 28,
        KeyCode::KEY_LEFTCTRL => 29,
        KeyCode::KEY_A => 30,
        KeyCode::KEY_S => 31,
        KeyCode::KEY_D => 32,
        KeyCode::KEY_F => 33,
        KeyCode::KEY_G => 34,
        KeyCode::KEY_H => 35,
        KeyCode::KEY_J => 36,
        KeyCode::KEY_K => 37,
        KeyCode::KEY_L => 38,
        KeyCode::KEY_SEMICOLON => 39,
        KeyCode::KEY_APOSTROPHE => 40,
        KeyCode::KEY_GRAVE => 41,
        KeyCode::KEY_LEFTSHIFT => 42,
        KeyCode::KEY_BACKSLASH => 43,
        KeyCode::KEY_Z => 44,
        KeyCode::KEY_X => 45,
        KeyCode::KEY_C => 46,
        KeyCode::KEY_V => 47,
        KeyCode::KEY_B => 48,
        KeyCode::KEY_N => 49,
        KeyCode::KEY_M => 50,
        KeyCode::KEY_COMMA => 51,
        KeyCode::KEY_DOT => 52,
        KeyCode::KEY_SLASH => 53,
        KeyCode::KEY_RIGHTSHIFT => 54,
        KeyCode::KEY_KPASTERISK => 55,
        KeyCode::KEY_LEFTALT => 56,
        KeyCode::KEY_SPACE => 57,
        KeyCode::KEY_CAPSLOCK => 58,
        KeyCode::KEY_F1 => 59,
        KeyCode::KEY_F2 => 60,
        KeyCode::KEY_F3 => 61,
        KeyCode::KEY_F4 => 62,
        KeyCode::KEY_F5 => 63,
        KeyCode::KEY_F6 => 64,
        KeyCode::KEY_F7 => 65,
        KeyCode::KEY_F8 => 66,
        KeyCode::KEY_F9 => 67,
        KeyCode::KEY_F10 => 68,
        KeyCode::KEY_F13 => 183,
        KeyCode::KEY_F14 => 184,
        KeyCode::KEY_F15 => 185,
        KeyCode::KEY_F16 => 186,
        KeyCode::KEY_F17 => 187,
        KeyCode::KEY_F18 => 188,
        KeyCode::KEY_F19 => 189,
        KeyCode::KEY_F20 => 190,
        KeyCode::KEY_F21 => 191,
        KeyCode::KEY_F22 => 192,
        KeyCode::KEY_F23 => 193,
        KeyCode::KEY_F24 => 194,
        KeyCode::KEY_NUMLOCK => 69,
        KeyCode::KEY_SCROLLLOCK => 70,
        KeyCode::KEY_KP7 => 71,
        KeyCode::KEY_KP8 => 72,
        KeyCode::KEY_KP9 => 73,
        KeyCode::KEY_KPMINUS => 74,
        KeyCode::KEY_KP4 => 75,
        KeyCode::KEY_KP5 => 76,
        KeyCode::KEY_KP6 => 77,
        KeyCode::KEY_KPPLUS => 78,
        KeyCode::KEY_KP1 => 79,
        KeyCode::KEY_KP2 => 80,
        KeyCode::KEY_KP3 => 81,
        KeyCode::KEY_KP0 => 82,
        KeyCode::KEY_KPDOT => 83,
    }
}

/// True when some key has scan code `c`.
pub open spec fn is_known_code(c: u32) -> bool {
    exists|k: KeyCode| code_of(k) == c
}

impl KeyCode {
    /// The scan code of this key.
    pub fn code(&self) -> (r: u32)
        ensures
            r == code_of(*self),
    {
        match self {
            KeyCode::KEY_RESERVED => 0,
            KeyCode::KEY_ESC => 1,
            KeyCode::KEY_KEY1 => 2,
            KeyCode::KEY_KEY2 => 3,
            KeyCode::KEY_KEY3 => 4,
            KeyCode::KEY_KEY4 => 5,
            KeyCode::KEY_KEY5 => 6,
            KeyCode::KEY_KEY6 => 7,
            KeyCode::KEY_KEY7 => 8,
            KeyCode::KEY_KEY8 => 9,
            KeyCode::KEY_KEY9 => 10,
            KeyCode::KEY_KEY0 => 11,
            KeyCode::KEY_MINUS => 12,
            KeyCode::KEY_EQUAL => 13,
            KeyCode::KEY_BACKSPACE => 14,
            KeyCode::KEY_TAB => 15,
            KeyCode::KEY_Q => 16,
            KeyCode::KEY_W => 17,
            KeyCode::KEY_E => 18,
            KeyCode::KEY_R => 19,
            KeyCode::KEY_T => 20,
            KeyCode::KEY_Y => 21,
            KeyCode::KEY_U => 22,
            KeyCode::KEY_I => 23,
            KeyCode::KEY_O => 24,
            KeyCode::KEY_P => 25,
            KeyCode::KEY_LEFTBRACE => 26,
            KeyCode::KEY_RIGHTBRACE => 27,
            KeyCode::KEY_ENTER => 28,
            KeyCode::KEY_LEFTCTRL => 29,
            KeyCode::KEY_A => 30,
            KeyCode::KEY_S => 31,
            KeyCode::KEY_D => 32,
            KeyCode::KEY_F => 33,
            KeyCode::KEY_G => 34,
            KeyCode::KEY_H => 35,
            KeyCode::KEY_J => 36,
            KeyCode::KEY_K => 37,
            KeyCode::KEY_L => 38,
            KeyCode::KEY_SEMICOLON => 39,
            KeyCode::KEY_APOSTROPHE => 40,
            KeyCode::KEY_GRAVE => 41,
            KeyCode::KEY_LEFTSHIFT => 42,
            KeyCode::KEY_BACKSLASH => 43,
            KeyCode::KEY_Z => 44,
            KeyCode::KEY_X => 45,
            KeyCode::KEY_C => 46,
            KeyCode::KEY_V => 47,
            KeyCode::KEY_B => 48,
            KeyCode::KEY_N => 49,
            KeyCode::KEY_M => 50,
            KeyCode::KEY_COMMA => 51,
            KeyCode::KEY_DOT => 52,
            KeyCode::KEY_SLASH => 53,
            KeyCode::KEY_RIGHTSHIFT => 54,
            KeyCode::KEY_KPASTERISK => 55,
            KeyCode::KEY_LEFTALT => 56,
            KeyCode::KEY_SPACE => 57,
            KeyCode::KEY_CAPSLOCK => 58,
            KeyCode::KEY_F1 => 59,
            KeyCode::KEY_F2 => 60,
            KeyCode::KEY_F3 => 61,
            KeyCode::KEY_F4 => 62,
            KeyCode::KEY_F5 => 63,
            KeyCode::KEY_F6 => 64,
            KeyCode::KEY_F7 => 65,
            KeyCode::KEY_F8 => 66,
            KeyCode::KEY_F9 => 67,
            KeyCode::KEY_F10 => 68,
            KeyCode::KEY_F13 => 183,
            KeyCode::KEY_F14 => 184,
            KeyCode::KEY_F15 => 185,
            KeyCode::KEY_F16 => 186,
            KeyCode::KEY_F17 => 187,
            KeyCode::KEY_F18 => 188,
            KeyCode::KEY_F19 => 189,
            KeyCode::KEY_F20 => 190,
            KeyCode::KEY_F21 => 191,
            KeyCode::KEY_F22 => 192,
            KeyCode::KEY_F23 => 193,
            KeyCode::KEY_F24 => 194,
            KeyCode::KEY_NUMLOCK => 69,
            KeyCode::KEY_SCROLLLOCK => 70,
            KeyCode::KEY_KP7 => 71,
            KeyCode::KEY_KP8 => 72,
            KeyCode::KEY_KP9 => 73,
            KeyCode::KEY_KPMINUS => 74,
            KeyCode::KEY_KP4 => 75,
            KeyCode::KEY_KP5 => 76,
            KeyCode::KEY_KP6 => 77,
            KeyCode::KEY_KPPLUS => 78,
            KeyCode::KEY_KP1 => 79,
            KeyCode::KEY_KP2 => 80,
            KeyCode::KEY_KP3 => 81,
            KeyCode::KEY_KP0 => 82,
            KeyCode::KEY_KPDOT => 83,
        }
    }

    /// Decodes a raw scan code; codes that name no key give `None`.
    pub fn from_code(c: u32) -> (r: Option<KeyCode>)
        ensures
            match r {
                Some(k) => code_of(k) == c,
                None => !is_known_code(c),
            },
    {
        match c {
            0 => Some(KeyCode::KEY_RESERVED),
            1 => Some(KeyCode::KEY_ESC),
            2 => Some(KeyCode::KEY_KEY1),
            3 => Some(KeyCode::KEY_KEY2),
            4 => Some(KeyCode::KEY_KEY3),
            5 => Some(KeyCode::KEY_KEY4),
            6 => Some(KeyCode::KEY_KEY5),
            7 => Some(KeyCode::KEY_KEY6),
            8 => Some(KeyCode::KEY_KEY7),
            9 => Some(KeyCode::KEY_KEY8),
            10 => Some(KeyCode::KEY_KEY9),
            11 => Some(KeyCode::KEY_KEY0),
            12 => Some(KeyCode::KEY_MINUS),
            13 => Some(KeyCode::KEY_EQUAL),
            14 => Some(KeyCode::KEY_BACKSPACE),
            15 => Some(KeyCode::KEY_TAB),
            16 => Some(KeyCode::KEY_Q),
            17 => Some(KeyCode::KEY_W),
            18 => Some(KeyCode::KEY_E),
            19 => Some(KeyCode::KEY_R),
            20 => Some(KeyCode::KEY_T),
            21 => Some(KeyCode::KEY_Y),
            22 => Some(KeyCode::KEY_U),
            23 => Some(KeyCode::KEY_I),
            24 => Some(KeyCode::KEY_O),
            25 => Some(KeyCode::KEY_P),
            26 => Some(KeyCode::KEY_LEFTBRACE),
            27 => Some(KeyCode::KEY_RIGHTBRACE),
            28 => Some(KeyCode::KEY_ENTER),
            29 => Some(KeyCode::KEY_LEFTCTRL),
            30 => Some(KeyCode::KEY_A),
            31 => Some(KeyCode::KEY_S),
            32 => Some(KeyCode::KEY_D),
            33 => Some(KeyCode::KEY_F),
            34 => Some(KeyCode::KEY_G),
            35 => Some(KeyCode::KEY_H),
            36 => Some(KeyCode::KEY_J),
            37 => Some(KeyCode::KEY_K),
            38 => Some(KeyCode::KEY_L),
            39 => Some(KeyCode::KEY_SEMICOLON),
            40 => Some(KeyCode::KEY_APOSTROPHE),
            41 => Some(KeyCode::KEY_GRAVE),
            42 => Some(KeyCode::KEY_LEFTSHIFT),
            43 => Some(KeyCode::KEY_BACKSLASH),
            44 => Some(KeyCode::KEY_Z),
            45 => Some(KeyCode::KEY_X),
            46 => Some(KeyCode::KEY_C),
            47 => Some(KeyCode::KEY_V),
            48 => Some(KeyCode::KEY_B),
            49 => Some(KeyCode::KEY_N),
            50 => Some(KeyCode::KEY_M),
            51 => Some(KeyCode::KEY_COMMA),
            52 => Some(KeyCode::KEY_DOT),
            53 => Some(KeyCode::KEY_SLASH),
            54 => Some(KeyCode::KEY_RIGHTSHIFT),
            55 => Some(KeyCode::KEY_KPASTERISK),
            56 => Some(KeyCode::KEY_LEFTALT),
            57 => Some(KeyCode::KEY_SPACE),
            58 => Some(KeyCode::KEY_CAPSLOCK),
            59 => Some(KeyCode::KEY_F1),
            60 => Some(KeyCode::KEY_F2),
            61 => Some(KeyCode::KEY_F3),
            62 => Some(KeyCode::KEY_F4),
            63 => Some(KeyCode::KEY_F5),
            64 => Some(KeyCode::KEY_F6),
            65 => Some(KeyCode::KEY_F7),
            66 => Some(KeyCode::KEY_F8),
            67 => Some(KeyCode::KEY_F9),
            68 => Some(KeyCode::KEY_F10),
            183 => Some(KeyCode::KEY_F13),
            184 => Some(KeyCode::KEY_F14),
            185 => Some(KeyCode::KEY_F15),
            186 => Some(KeyCode::KEY_F16),
            187 => Some(KeyCode::KEY_F17),
            188 => Some(KeyCode::KEY_F18),
            189 => Some(KeyCode::KEY_F19),
            190 => Some(KeyCode::KEY_F20),
            191 => Some(KeyCode::KEY_F21),
            192 => Some(KeyCode::KEY_F22),
            193 => Some(KeyCode::KEY_F23),
            194 => Some(KeyCode::KEY_F24),
            69 => Some(KeyCode::KEY_NUMLOCK),
            70 => Some(KeyCode::KEY_SCROLLLOCK),
            71 => Some(KeyCode::KEY_KP7),
            72 => Some(KeyCode::KEY_KP8),
            73 => Some(KeyCode::KEY_KP9),
            74 => Some(KeyCode::KEY_KPMINUS),
            75 => Some(KeyCode::KEY_KP4),
            76 => Some(KeyCode::KEY_KP5),
            77 => Some(KeyCode::KEY_KP6),
            78 => Some(KeyCode::KEY_KPPLUS),
            79 => Some(KeyCode::KEY_KP1),
            80 => Some(KeyCode::KEY_KP2),
            81 => Some(KeyCode::KEY_KP3),
            82 => Some(KeyCode::KEY_KP0),
            83 => Some(KeyCode::KEY_KPDOT),
            _ => None,
        }
    }
}

/// Distinct keys have distinct scan codes.
pub proof fn lemma_code_injective(a: KeyCode, b: KeyCode)
    ensures
        code_of(a) == code_of(b) ==> a == b,
{
}

} // verus!
