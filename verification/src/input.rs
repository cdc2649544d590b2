//! Keyboard and mouse input codes.
//!
//! The windowing backend reports keys and mouse buttons as small integer
//! codes. This module gives each supported key and mouse button a name and
//! proves that the translation between names and codes is exact: every key
//! maps back to itself.

use vstd::prelude::*;

verus! {

/// An enum which stores a mouse button.
#[derive(Clone, Copy, Debug, PartialEq, Eq, Structural)]
pub enum MouseButton {
    /// The *left* mouse button.
    Left,

    /// The *middle* mouse button, usually the *scroll wheel*.
    Middle,

    /// The *right* mouse button.
    Right,

    /// Another mouse button that is not yet supported by name.
    Other,
}

/// Which `MouseButton` a backend button number stands for: the backend
/// counts its buttons from zero, and the first three are the left, right
/// and middle buttons.
pub open spec fn mouse_button_from_code(code: u32) -> MouseButton {
    if code == 0 {
        MouseButton::Left
    } else if code == 1 {
        MouseButton::Right
    } else if code == 2 {
        MouseButton::Middle
    } else {
        MouseButton::Other
    }
}

impl MouseButton {
    /// Translate a backend button number into a `MouseButton`.
    pub fn from_code(code: u32) -> (b: MouseButton)
        ensures
            b == mouse_button_from_code(code),
    {
        if code == 0 {
            MouseButton::Left
        } else if code == 1 {
            MouseButton::Right
        } else if code == 2 {
            MouseButton::Middle
        } else {
            MouseButton::Other
        }
    }
}

/// An enum storing a list of keyboard keys, each standing for the keycode
/// that the windowing backend reports for it.
#[derive(Clone, Copy, Debug, PartialEq, Eq, Structural)]
pub enum Key {
    /// Keycode `32`.
    Space,

    /// Keycode `39`.
    Apostrophe,

    /// Keycode `44`.
    Comma,

    /// Keycode `45`.
    Minus,

    /// Keycode `46`.
    Period,

    /// Keycode `47`.
    Slash,

    /// Keycode `48`.
    Num0,

    /// Keycode `49`.
    Num1,

    /// Keycode `50`.
    Num2,

    /// Keycode `51`.
    Num3,

    /// Keycode `52`.
    Num4,

    /// Keycode `53`.
    Num5,

    /// Keycode `54`.
    Num6,

    /// Keycode `55`.
    Num7,

    /// Keycode `56`.
    Num8,

    /// Keycode `57`.
    Num9,

    /// Keycode `59`.
    Semicolon,

    /// Keycode `61`.
    Equal,

    /// Keycode `65`.
    A,

    /// Keycode `66`.
    B,

    /// Keycode `67`.
    C,

    /// Keycode `68`.
    D,

    /// Keycode `69`.
    E,

    /// Keycode `70`.
    F,

    /// Keycode `71`.
    G,

    /// Keycode `72`.
    H,

    /// Keycode `73`.
    I,

    /// Keycode `74`.
    J,

    /// Keycode `75`.
    K,

    /// Keycode `76`.
    L,

    /// Keycode `77`.
    M,

    /// Keycode `78`.
    N,

    /// Keycode `79`.
    O,

    /// Keycode `80`.
    P,

    /// Keycode `81`.
    Q,

    /// Keycode `82`.
    R,

    /// Keycode `83`.
    S,

    /// Keycode `84`.
    T,

    /// Keycode `85`.
    U,

    /// Keycode `86`.
    V,

    /// Keycode `87`.
    W,

    /// Keycode `88`.
    X,

    /// Keycode `89`.
    Y,

    /// Keycode `90`.
    Z,

    /// Keycode `91`.
    LeftBracket,

    /// Keycode `92`.
    Backslash,

    /// Keycode `93`.
    RightBracket,

    /// Keycode `96`.
    GraveAccent,

    /// Keycode `161`.
    World1,

    /// Keycode `162`.
    World2,

    /// Keycode `256`.
    Escape,

    /// Keycode `257`.
    Enter,

    /// Keycode `258`.
    Tab,

    /// Keycode `259`.
    Backspace,

    /// Keycode `260`.
    Insert,

    /// Keycode `261`.
    Delete,

    /// Keycode `262`.
    Right,

    /// Keycode `263`.
    Left,

    /// Keycode `264`.
    Down,

    /// Keycode `265`.
    Up,

    /// Keycode `266`.
    PageUp,

    /// Keycode `267`.
    PageDown,

    /// Keycode `268`.
    Home,

    /// Keycode `269`.
    End,

    /// Keycode `280`.
    CapsLock,

    /// Keycode `281`.
    ScrollLock,

    /// Keycode `282`.
    NumLock,

    /// Keycode `283`.
    PrintScreen,

    /// Keycode `284`.
    Pause,

    /// Keycode `290`.
    F1,

    /// Keycode `291`.
    F2,

    /// Keycode `292`.
    F3,

    /// Keycode `293`.
    F4,

    /// Keycode `294`.
    F5,

    /// Keycode `295`.
    F6,

    /// Keycode `296`.
    F7,

    /// Keycode `297`.
    F8,

    /// Keycode `298`.
    F9,

    /// Keycode `299`.
    F10,

    /// Keycode `300`.
    F11,

    /// Keycode `301`.
    F12,

    /// Keycode `302`.
    F13,

    /// Keycode `303`.
    F14,

    /// Keycode `304`.
    F15,

    /// Keycode `305`.
    F16,

    /// Keycode `306`.
    F17,

    /// Keycode `307`.
    F18,

    /// Keycode `308`.
    F19,

    /// Keycode `309`.
    F20,

    /// Keycode `310`.
    F21,

    /// Keycode `311`.
    F22,

    /// Keycode `312`.
    F23,

    /// Keycode `313`.
    F24,

    /// Keycode `314`.
    F25,

    /// Keycode `320`.
    Keypad0,

    /// Keycode `321`.
    Keypad1,

    /// Keycode `322`.
    Keypad2,

    /// Keycode `323`.
    Keypad3,

    /// Keycode `324`.
    Keypad4,

    /// Keycode `325`.
    Keypad5,

    /// Keycode `326`.
    Keypad6,

    /// Keycode `327`.
    Keypad7,

    /// Keycode `328`.
    Keypad8,

    /// Keycode `329`.
    Keypad9,

    /// Keycode `330`.
    KeypadDecimal,

    /// Keycode `331`.
    KeypadDivide,

    /// Keycode `332`.
    KeypadMultiply,

    /// Keycode `333`.
    KeypadSubtract,

    /// Keycode `334`.
    KeypadAdd,

    /// Keycode `335`.
    KeypadEnter,

    /// Keycode `336`.
    KeypadEqual,

    /// Keycode `340`.
    LeftShift,

    /// Keycode `341`.
    LeftControl,

    /// Keycode `342`.
    LeftAlt,

    /// Keycode `343`.
    LeftSuper,

    /// Keycode `344`.
    RightShift,

    /// Keycode `345`.
    RightControl,

    /// Keycode `346`.
    RightAlt,

    /// Keycode `347`.
    RightSuper,

    /// Keycode `348`.
    Menu,
}

/// The keycode that the windowing backend reports for each key.
pub open spec fn key_code(k: Key) -> u32 {
    match k {
        Key::Space => 32,
        Key::Apostrophe => 39,
        Key::Comma => 44,
        Key::Minus => 45,
        Key::Period => 46,
        Key::Slash => 47,
        Key::Num0 => 48,
        Key::Num1 => 49,
        Key::Num2 => 50,
        Key::Num3 => 51,
        Key::Num4 => 52,
        Key::Num5 => 53,
        Key::Num6 => 54,
        Key::Num7 => 55,
        Key::Num8 => 56,
        Key::Num9 => 57,
        Key::Semicolon => 59,
        Key::Equal => 61,
        Key::A => 65,
        Key::B => 66,
        Key::C => 67,
        Key::D => 68,
        Key::E => 69,
        Key::F => 70,
        Key::G => 71,
        Key::H => 72,
        Key::I => 73,
        Key::J => 74,
        Key::K => 75,
        Key::L => 76,
        Key::M => 77,
        Key::N => 78,
        Key::O => 79,
        Key::P => 80,
        Key::Q => 81,
        Key::R => 82,
        Key::S => 83,
        Key::T => 84,
        Key::U => 85,
        Key::V => 86,
        Key::W => 87,
        Key::X => 88,
        Key::Y => 89,
        Key::Z => 90,
        Key::LeftBracket => 91,
        Key::Backslash => 92,
        Key::RightBracket => 93,
        Key::GraveAccent => 96,
        Key::World1 => 161,
        Key::World2 => 162,
        Key::Escape => 256,
        Key::Enter => 257,
        Key::Tab => 258,
        Key::Backspace => 259,
        Key::Insert => 260,
        Key::Delete => 261,
        Key::Right => 262,
        Key::Left => 263,
        Key::Down => 264,
        Key::Up => 265,
        Key::PageUp => 266,
        Key::PageDown => 267,
        Key::Home => 268,
        Key::End => 269,
        Key::CapsLock => 280,
        Key::ScrollLock => 281,
        Key::NumLock => 282,
        Key::PrintScreen => 283,
        Key::Pause => 284,
        Key::F1 => 290,
        Key::F2 => 291,
        Key::F3 => 292,
        Key::F4 => 293,
        Key::F5 => 294,
        Key::F6 => 295,
        Key::F7 => 296,
        Key::F8 => 297,
        Key::F9 => 298,
        Key::F10 => 299,
        Key::F11 => 300,
        Key::F12 => 301,
        Key::F13 => 302,
        Key::F14 => 303,
        Key::F15 => 304,
        Key::F16 => 305,
        Key::F17 => 306,
        Key::F18 => 307,
        Key::F19 => 308,
        Key::F20 => 309,
        Key::F21 => 310,
        Key::F22 => 311,
        Key::F23 => 312,
        Key::F24 => 313,
        Key::F25 => 314,
        Key::Keypad0 => 320,
        Key::Keypad1 => 321,
        Key::Keypad2 => 322,
        Key::Keypad3 => 323,
        Key::Keypad4 => 324,
        Key::Keypad5 => 325,
        Key::Keypad6 => 326,
        Key::Keypad7 => 327,
        Key::Keypad8 => 328,
        Key::Keypad9 => 329,
        Key::KeypadDecimal => 330,
        Key::KeypadDivide => 331,
        Key::KeypadMultiply => 332,
        Key::KeypadSubtract => 333,
        Key::KeypadAdd => 334,
        Key::KeypadEnter => 335,
        Key::KeypadEqual => 336,
        Key::LeftShift => 340,
        Key::LeftControl => 341,
        Key::LeftAlt => 342,
        Key::LeftSuper => 343,
        Key::RightShift => 344,
        Key::RightControl => 345,
        Key::RightAlt => 346,
        Key::RightSuper => 347,
        Key::Menu => 348,
    }
}

/// The key that a backend keycode stands for, or `None` for a code that
/// no key of this list has.
pub open spec fn key_from_code(code: u32) -> Option<Key> {
    match code {
        32 => Some(Key::Space),
        39 => Some(Key::Apostrophe),
        44 => Some(Key::Comma),
        45 => Some(Key::Minus),
        46 => Some(Key::Period),
        47 => Some(Key::Slash),
        48 => Some(Key::Num0),
        49 => Some(Key::Num1),
        50 => Some(Key::Num2),
        51 => Some(Key::Num3),
        52 => Some(Key::Num4),
        53 => Some(Key::Num5),
        54 => Some(Key::Num6),
        55 => Some(Key::Num7),
        56 => Some(Key::Num8),
        57 => Some(Key::Num9),
        59 => Some(Key::Semicolon),
        61 => Some(Key::Equal),
        65 => Some(Key::A),
        66 => Some(Key::B),
        67 => Some(Key::C),
        68 => Some(Key::D),
        69 => Some(Key::E),
        70 => Some(Key::F),
        71 => Some(Key::G),
        72 => Some(Key::H),
        73 => Some(Key::I),
        74 => Some(Key::J),
        75 => Some(Key::K),
        76 => Some(Key::L),
        77 => Some(Key::M),
        78 => Some(Key::N),
        79 => Some(Key::O),
        80 => Some(Key::P),
        81 => Some(Key::Q),
        82 => Some(Key::R),
        83 => Some(Key::S),
        84 => Some(Key::T),
        85 => Some(Key::U),
        86 => Some(Key::V),
        87 => Some(Key::W),
        88 => Some(Key::X),
        89 => Some(Key::Y),
        90 => Some(Key::Z),
        91 => Some(Key::LeftBracket),
        92 => Some(Key::Backslash),
        93 => Some(Key::RightBracket),
        96 => Some(Key::GraveAccent),
        161 => Some(Key::World1),
        162 => Some(Key::World2),
        256 => Some(Key::Escape),
        257 => Some(Key::Enter),
        258 => Some(Key::Tab),
        259 => Some(Key::Backspace),
        260 => Some(Key::Insert),
        261 => Some(Key::Delete),
        262 => Some(Key::Right),
        263 => Some(Key::Left),
        264 => Some(Key::Down),
        265 => Some(Key::Up),
        266 => Some(Key::PageUp),
        267 => Some(Key::PageDown),
        268 => Some(Key::Home),
        269 => Some(Key::End),
        280 => Some(Key::CapsLock),
        281 => Some(Key::ScrollLock),
        282 => Some(Key::NumLock),
        283 => Some(Key::PrintScreen),
        284 => Some(Key::Pause),
        290 => Some(Key::F1),
        291 => Some(Key::F2),
        292 => Some(Key::F3),
        293 => Some(Key::F4),
        294 => Some(Key::F5),
        295 => Some(Key::F6),
        296 => Some(Key::F7),
        297 => Some(Key::F8),
        298 => Some(Key::F9),
        299 => Some(Key::F10),
        300 => Some(Key::F11),
        301 => Some(Key::F12),
        302 => Some(Key::F13),
        303 => Some(Key::F14),
        304 => Some(Key::F15),
        305 => Some(Key::F16),
        306 => Some(Key::F17),
        307 => Some(Key::F18),
        308 => Some(Key::F19),
        309 => Some(Key::F20),
        310 => Some(Key::F21),
        311 => Some(Key::F22),
        312 => Some(Key::F23),
        313 => Some(Key::F24),
        314 => Some(Key::F25),
        320 => Some(Key::Keypad0),
        321 => Some(Key::Keypad1),
        322 => Some(Key::Keypad2),
        323 => Some(Key::Keypad3),
        324 => Some(Key::Keypad4),
        325 => Some(Key::Keypad5),
        326 => Some(Key::Keypad6),
        327 => Some(Key::Keypad7),
        328 => Some(Key::Keypad8),
        329 => Some(Key::Keypad9),
        330 => Some(Key::KeypadDecimal),
        331 => Some(Key::KeypadDivide),
        332 => Some(Key::KeypadMultiply),
        333 => Some(Key::KeypadSubtract),
        334 => Some(Key::KeypadAdd),
        335 => Some(Key::KeypadEnter),
        336 => Some(Key::KeypadEqual),
        340 => Some(Key::LeftShift),
        341 => Some(Key::LeftControl),
        342 => Some(Key::LeftAlt),
        343 => Some(Key::LeftSuper),
        344 => Some(Key::RightShift),
        345 => Some(Key::RightControl),
        346 => Some(Key::RightAlt),
        347 => Some(Key::RightSuper),
        348 => Some(Key::Menu),
        _ => None,
    }
}

impl Key {
    /// The keycode that the windowing backend reports for this key.
    pub fn code(&self) -> (c: u32)
        ensures
            c == key_code(*self),
    {
        match *self {
            Key::Space => 32,
            Key::Apostrophe => 39,
            Key::Comma => 44,
            Key::Minus => 45,
            Key::Period => 46,
            Key::Slash => 47,
            Key::Num0 => 48,
            Key::Num1 => 49,
            Key::Num2 => 50,
            Key::Num3 => 51,
            Key::Num4 => 52,
            Key::Num5 => 53,
            Key::Num6 => 54,
            Key::Num7 => 55,
            Key::Num8 => 56,
            Key::Num9 => 57,
            Key::Semicolon => 59,
            Key::Equal => 61,
            Key::A => 65,
            Key::B => 66,
            Key::C => 67,
            Key::D => 68,
            Key::E => 69,
            Key::F => 70,
            Key::G => 71,
            Key::H => 72,
            Key::I => 73,
            Key::J => 74,
            Key::K => 75,
            Key::L => 76,
            Key::M => 77,
            Key::N => 78,
            Key::O => 79,
            Key::P => 80,
            Key::Q => 81,
            Key::R => 82,
            Key::S => 83,
            Key::T => 84,
            Key::U => 85,
            Key::V => 86,
            Key::W => 87,
            Key::X => 88,
            Key::Y => 89,
            Key::Z => 90,
            Key::LeftBracket => 91,
            Key::Backslash => 92,
            Key::RightBracket => 93,
            Key::GraveAccent => 96,
            Key::World1 => 161,
            Key::World2 => 162,
            Key::Escape => 256,
            Key::Enter => 257,
            Key::Tab => 258,
            Key::Backspace => 259,
            Key::Insert => 260,
            Key::Delete => 261,
            Key::Right => 262,
            Key::Left => 263,
            Key::Down => 264,
            Key::Up => 265,
            Key::PageUp => 266,
            Key::PageDown => 267,
            Key::Home => 268,
            Key::End => 269,
            Key::CapsLock => 280,
            Key::ScrollLock => 281,
            Key::NumLock => 282,
            Key::PrintScreen => 283,
            Key::Pause => 284,
            Key::F1 => 290,
            Key::F2 => 291,
            Key::F3 => 292,
            Key::F4 => 293,
            Key::F5 => 294,
            Key::F6 => 295,
            Key::F7 => 296,
            Key::F8 => 297,
            Key::F9 => 298,
            Key::F10 => 299,
            Key::F11 => 300,
            Key::F12 => 301,
            Key::F13 => 302,
            Key::F14 => 303,
            Key::F15 => 304,
            Key::F16 => 305,
            Key::F17 => 306,
            Key::F18 => 307,
            Key::F19 => 308,
            Key::F20 => 309,
            Key::F21 => 310,
            Key::F22 => 311,
            Key::F23 => 312,
            Key::F24 => 313,
            Key::F25 => 314,
            Key::Keypad0 => 320,
            Key::Keypad1 => 321,
            Key::Keypad2 => 322,
            Key::Keypad3 => 323,
            Key::Keypad4 => 324,
            Key::Keypad5 => 325,
            Key::Keypad6 => 326,
            Key::Keypad7 => 327,
            Key::Keypad8 => 328,
            Key::Keypad9 => 329,
            Key::KeypadDecimal => 330,
            Key::KeypadDivide => 331,
            Key::KeypadMultiply => 332,
            Key::KeypadSubtract => 333,
            Key::KeypadAdd => 334,
            Key::KeypadEnter => 335,
            Key::KeypadEqual => 336,
            Key::LeftShift => 340,
            Key::LeftControl => 341,
            Key::LeftAlt => 342,
            Key::LeftSuper => 343,
            Key::RightShift => 344,
            Key::RightControl => 345,
            Key::RightAlt => 346,
            Key::RightSuper => 347,
            Key::Menu => 348,
        }
    }

    /// Translate a backend keycode into a `Key`, or `None` for a code
    /// that no key of this list has.
    pub fn from_code(code: u32) -> (k: Option<Key>)
        ensures
            k == key_from_code(code),
    {
        match code {
            32 => Some(Key::Space),
            39 => Some(Key::Apostrophe),
            44 => Some(Key::Comma),
            45 => Some(Key::Minus),
            46 => Some(Key::Period),
            47 => Some(Key::Slash),
            48 => Some(Key::Num0),
            49 => Some(Key::Num1),
            50 => Some(Key::Num2),
            51 => Some(Key::Num3),
            52 => Some(Key::Num4),
            53 => Some(Key::Num5),
            54 => Some(Key::Num6),
            55 => Some(Key::Num7),
            56 => Some(Key::Num8),
            57 => Some(Key::Num9),
            59 => Some(Key::Semicolon),
            61 => Some(Key::Equal),
            65 => Some(Key::A),
            66 => Some(Key::B),
            67 => Some(Key::C),
            68 => Some(Key::D),
            69 => Some(Key::E),
            70 => Some(Key::F),
            71 => Some(Key::G),
            72 => Some(Key::H),
            73 => Some(Key::I),
            74 => Some(Key::J),
            75 => Some(Key::K),
            76 => Some(Key::L),
            77 => Some(Key::M),
            78 => Some(Key::N),
            79 => Some(Key::O),
            80 => Some(Key::P),
            81 => Some(Key::Q),
            82 => Some(Key::R),
            83 => Some(Key::S),
            84 => Some(Key::T),
            85 => Some(Key::U),
            86 => Some(Key::V),
            87 => Some(Key::W),
            88 => Some(Key::X),
            89 => Some(Key::Y),
            90 => Some(Key::Z),
            91 => Some(Key::LeftBracket),
            92 => Some(Key::Backslash),
            93 => Some(Key::RightBracket),
            96 => Some(Key::GraveAccent),
            161 => Some(Key::World1),
            162 => Some(Key::World2),
            256 => Some(Key::Escape),
            257 => Some(Key::Enter),
            258 => Some(Key::Tab),
            259 => Some(Key::Backspace),
            260 => Some(Key::Insert),
            261 => Some(Key::Delete),
            262 => Some(Key::Right),
            263 => Some(Key::Left),
            264 => Some(Key::Down),
            265 => Some(Key::Up),
            266 => Some(Key::PageUp),
            267 => Some(Key::PageDown),
            268 => Some(Key::Home),
            269 => Some(Key::End),
            280 => Some(Key::CapsLock),
            281 => Some(Key::ScrollLock),
            282 => Some(Key::NumLock),
            283 => Some(Key::PrintScreen),
            284 => Some(Key::Pause),
            290 => Some(Key::F1),
            291 => Some(Key::F2),
            292 => Some(Key::F3),
            293 => Some(Key::F4),
            294 => Some(Key::F5),
            295 => Some(Key::F6),
            296 => Some(Key::F7),
            297 => Some(Key::F8),
            298 => Some(Key::F9),
            299 => Some(Key::F10),
            300 => Some(Key::F11),
            301 => Some(Key::F12),
            302 => Some(Key::F13),
            303 => Some(Key::F14),
            304 => Some(Key::F15),
            305 => Some(Key::F16),
            306 => Some(Key::F17),
            307 => Some(Key::F18),
            308 => Some(Key::F19),
            309 => Some(Key::F20),
            310 => Some(Key::F21),
            311 => Some(Key::F22),
            312 => Some(Key::F23),
            313 => Some(Key::F24),
            314 => Some(Key::F25),
            320 => Some(Key::Keypad0),
            321 => Some(Key::Keypad1),
            322 => Some(Key::Keypad2),
            323 => Some(Key::Keypad3),
            324 => Some(Key::Keypad4),
            325 => Some(Key::Keypad5),
            326 => Some(Key::Keypad6),
            327 => Some(Key::Keypad7),
            328 => Some(Key::Keypad8),
            329 => Some(Key::Keypad9),
            330 => Some(Key::KeypadDecimal),
            331 => Some(Key::KeypadDivide),
            332 => Some(Key::KeypadMultiply),
            333 => Some(Key::KeypadSubtract),
            334 => Some(Key::KeypadAdd),
            335 => Some(Key::KeypadEnter),
            336 => Some(Key::KeypadEqual),
            340 => Some(Key::LeftShift),
            341 => Some(Key::LeftControl),
            342 => Some(Key::LeftAlt),
            343 => Some(Key::LeftSuper),
            344 => Some(Key::RightShift),
            345 => Some(Key::RightControl),
            346 => Some(Key::RightAlt),
            347 => Some(Key::RightSuper),
            348 => Some(Key::Menu),
            _ => None,
        }
    }
}

/// Translating a key to its keycode and back returns the same key: the
/// keycodes of the list are distinct, so no key is mistaken for another.
pub proof fn lemma_key_code_round_trip(k: Key)
    ensures
        key_from_code(key_code(k)) == Some(k),
{
}

/// A keycode that stands for a key translates back to the same code.
pub proof fn lemma_keycode_round_trip(code: u32)
    requires
        key_from_code(code) is Some,
    ensures
        key_code(key_from_code(code)->Some_0) == code,
{
}

} // verus!
