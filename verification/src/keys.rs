//! The closed set of physical key identifiers, and the device-type mask.
//!
//! The key codes mirror the vendor's scan-code space; each identifier has a
//! fixed numeric value that is the only form in which a key ever crosses
//! the native boundary.  The device-type mask selects which classes of
//! device a session's calls target.

use vstd::prelude::*;

verus! {

/// A physical key, by vendor scan-code name.
#[allow(non_camel_case_types)]
#[derive(Clone, Copy, Debug, PartialEq, Eq, Structural)]
pub enum Key {
    ESC,
    F1,
    F2,
    F3,
    F4,
    F5,
    F6,
    F7,
    F8,
    F9,
    F10,
    F11,
    F12,
    PRINT_SCREEN,
    SCROLL_LOCK,
    PAUSE_BREAK,
    TILDE,
    ONE,
    TWO,
    THREE,
    FOUR,
    FIVE,
    SIX,
    SEVEN,
    EIGHT,
    NINE,
    ZERO,
    MINUS,
    EQUALS,
    BACKSPACE,
    INSERT,
    HOME,
    PAGE_UP,
    NUM_LOCK,
    NUM_SLASH,
    NUM_ASTERISK,
    NUM_MINUS,
    TAB,
    Q,
    W,
    E,
    R,
    T,
    Y,
    U,
    I,
    O,
    P,
    OPEN_BRACKET,
    CLOSE_BRACKET,
    BACKSLASH,
    KEYBOARD_DELETE,
    END,
    PAGE_DOWN,
    NUM_SEVEN,
    NUM_EIGHT,
    NUM_NINE,
    NUM_PLUS,
    CAPS_LOCK,
    A,
    S,
    D,
    F,
    G,
    H,
    J,
    K,
    L,
    SEMICOLON,
    APOSTROPHE,
    ENTER,
    NUM_FOUR,
    NUM_FIVE,
    NUM_SIX,
    LEFT_SHIFT,
    Z,
    X,
    C,
    V,
    B,
    N,
    M,
    COMMA,
    PERIOD,
    FORWARD_SLASH,
    RIGHT_SHIFT,
    ARROW_UP,
    NUM_ONE,
    NUM_TWO,
    NUM_THREE,
    NUM_ENTER,
    LEFT_CONTROL,
    LEFT_WINDOWS,
    LEFT_ALT,
    SPACE,
    RIGHT_ALT,
    RIGHT_WINDOWS,
    APPLICATION_SELECT,
    RIGHT_CONTROL,
    ARROW_LEFT,
    ARROW_DOWN,
    ARROW_RIGHT,
    NUM_ZERO,
    NUM_PERIOD,
    G_1,
    G_2,
    G_3,
    G_4,
    G_5,
    G_6,
    G_7,
    G_8,
    G_9,
    G_LOGO,
    G_BADGE,
}

impl Key {
    /// The fixed numeric scan code of this key.
    pub open spec fn spec_code(self) -> u32 {
        match self {
            Key::ESC => 0x01,
            Key::F1 => 0x3b,
            Key::F2 => 0x3c,
            Key::F3 => 0x3d,
            Key::F4 => 0x3e,
            Key::F5 => 0x3f,
            Key::F6 => 0x40,
            Key::F7 => 0x41,
            Key::F8 => 0x42,
            Key::F9 => 0x43,
            Key::F10 => 0x44,
            Key::F11 => 0x57,
            Key::F12 => 0x58,
            Key::PRINT_SCREEN => 0x137,
            Key::SCROLL_LOCK => 0x46,
            Key::PAUSE_BREAK => 0x145,
            Key::TILDE => 0x29,
            Key::ONE => 0x02,
            Key::TWO => 0x03,
            Key::THREE => 0x04,
            Key::FOUR => 0x05,
            Key::FIVE => 0x06,
            Key::SIX => 0x07,
            Key::SEVEN => 0x08,
            Key::EIGHT => 0x09,
            Key::NINE => 0x0A,
            Key::ZERO => 0x0B,
            Key::MINUS => 0x0C,
            Key::EQUALS => 0x0D,
            Key::BACKSPACE => 0x0E,
            Key::INSERT => 0x152,
            Key::HOME => 0x147,
            Key::PAGE_UP => 0x149,
            Key::NUM_LOCK => 0x45,
            Key::NUM_SLASH => 0x135,
            Key::NUM_ASTERISK => 0x37,
            Key::NUM_MINUS => 0x4A,
            Key::TAB => 0x0F,
            Key::Q => 0x10,
            Key::W => 0x11,
            Key::E => 0x12,
            Key::R => 0x13,
            Key::T => 0x14,
            Key::Y => 0x15,
            Key::U => 0x16,
            Key::I => 0x17,
            Key::O => 0x18,
            Key::P => 0x19,
            Key::OPEN_BRACKET => 0x1A,
            Key::CLOSE_BRACKET => 0x1B,
            Key::BACKSLASH => 0x2B,
            Key::KEYBOARD_DELETE => 0x153,
            Key::END => 0x14F,
            Key::PAGE_DOWN => 0x151,
            Key::NUM_SEVEN => 0x47,
            Key::NUM_EIGHT => 0x48,
            Key::NUM_NINE => 0x49,
            Key::NUM_PLUS => 0x4E,
            Key::CAPS_LOCK => 0x3A,
            Key::A => 0x1E,
            Key::S => 0x1F,
            Key::D => 0x20,
            Key::F => 0x21,
            Key::G => 0x22,
            Key::H => 0x23,
            Key::J => 0x24,
            Key::K => 0x25,
            Key::L => 0x26,
            Key::SEMICOLON => 0x27,
            Key::APOSTROPHE => 0x28,
            Key::ENTER => 0x1C,
            Key::NUM_FOUR => 0x4B,
            Key::NUM_FIVE => 0x4C,
            Key::NUM_SIX => 0x4D,
            Key::LEFT_SHIFT => 0x2A,
            Key::Z => 0x2C,
            Key::X => 0x2D,
            Key::C => 0x2E,
            Key::V => 0x2F,
            Key::B => 0x30,
            Key::N => 0x31,
            Key::M => 0x32,
            Key::COMMA => 0x33,
            Key::PERIOD => 0x34,
            Key::FORWARD_SLASH => 0x35,
            Key::RIGHT_SHIFT => 0x36,
            Key::ARROW_UP => 0x148,
            Key::NUM_ONE => 0x4F,
            Key::NUM_TWO => 0x50,
            Key::NUM_THREE => 0x51,
            Key::NUM_ENTER => 0x11C,
            Key::LEFT_CONTROL => 0x1D,
            Key::LEFT_WINDOWS => 0x15B,
            Key::LEFT_ALT => 0x38,
            Key::SPACE => 0x39,
            Key::RIGHT_ALT => 0x138,
            Key::RIGHT_WINDOWS => 0x15C,
            Key::APPLICATION_SELECT => 0x15D,
            Key::RIGHT_CONTROL => 0x11D,
            Key::ARROW_LEFT => 0x14B,
            Key::ARROW_DOWN => 0x150,
            Key::ARROW_RIGHT => 0x14D,
            Key::NUM_ZERO => 0x52,
            Key::NUM_PERIOD => 0x53,
            Key::G_1 => 0xFFF1,
            Key::G_2 => 0xFFF2,
            Key::G_3 => 0xFFF3,
            Key::G_4 => 0xFFF4,
            Key::G_5 => 0xFFF5,
            Key::G_6 => 0xFFF6,
            Key::G_7 => 0xFFF7,
            Key::G_8 => 0xFFF8,
            Key::G_9 => 0xFFF9,
            Key::G_LOGO => 0xFFFF1,
            Key::G_BADGE => 0xFFFF2,
        }
    }

    /// The numeric scan code handed to the native layer for this key.
    pub fn code(self) -> (c: u32)
        ensures
            c == self.spec_code(),
    {
        match self {
            Key::ESC => 0x01,
            Key::F1 => 0x3b,
            Key::F2 => 0x3c,
            Key::F3 => 0x3d,
            Key::F4 => 0x3e,
            Key::F5 => 0x3f,
            Key::F6 => 0x40,
            Key::F7 => 0x41,
            Key::F8 => 0x42,
            Key::F9 => 0x43,
            Key::F10 => 0x44,
            Key::F11 => 0x57,
            Key::F12 => 0x58,
            Key::PRINT_SCREEN => 0x137,
            Key::SCROLL_LOCK => 0x46,
            Key::PAUSE_BREAK => 0x145,
            Key::TILDE => 0x29,
            Key::ONE => 0x02,
            Key::TWO => 0x03,
            Key::THREE => 0x04,
            Key::FOUR => 0x05,
            Key::FIVE => 0x06,
            Key::SIX => 0x07,
            Key::SEVEN => 0x08,
            Key::EIGHT => 0x09,
            Key::NINE => 0x0A,
            Key::ZERO => 0x0B,
            Key::MINUS => 0x0C,
            Key::EQUALS => 0x0D,
            Key::BACKSPACE => 0x0E,
            Key::INSERT => 0x152,
            Key::HOME => 0x147,
            Key::PAGE_UP => 0x149,
            Key::NUM_LOCK => 0x45,
            Key::NUM_SLASH => 0x135,
            Key::NUM_ASTERISK => 0x37,
            Key::NUM_MINUS => 0x4A,
            Key::TAB => 0x0F,
            Key::Q => 0x10,
            Key::W => 0x11,
            Key::E => 0x12,
            Key::R => 0x13,
            Key::T => 0x14,
            Key::Y => 0x15,
            Key::U => 0x16,
            Key::I => 0x17,
            Key::O => 0x18,
            Key::P => 0x19,
            Key::OPEN_BRACKET => 0x1A,
            Key::CLOSE_BRACKET => 0x1B,
            Key::BACKSLASH => 0x2B,
            Key::KEYBOARD_DELETE => 0x153,
            Key::END => 0x14F,
            Key::PAGE_DOWN => 0x151,
            Key::NUM_SEVEN => 0x47,
            Key::NUM_EIGHT => 0x48,
            Key::NUM_NINE => 0x49,
            Key::NUM_PLUS => 0x4E,
            Key::CAPS_LOCK => 0x3A,
            Key::A => 0x1E,
            Key::S => 0x1F,
            Key::D => 0x20,
            Key::F => 0x21,
            Key::G => 0x22,
            Key::H => 0x23,
            Key::J => 0x24,
            Key::K => 0x25,
            Key::L => 0x26,
            Key::SEMICOLON => 0x27,
            Key::APOSTROPHE => 0x28,
            Key::ENTER => 0x1C,
            Key::NUM_FOUR => 0x4B,
            Key::NUM_FIVE => 0x4C,
            Key::NUM_SIX => 0x4D,
            Key::LEFT_SHIFT => 0x2A,
            Key::Z => 0x2C,
            Key::X => 0x2D,
            Key::C => 0x2E,
            Key::V => 0x2F,
            Key::B => 0x30,
            Key::N => 0x31,
            Key::M => 0x32,
            Key::COMMA => 0x33,
            Key::PERIOD => 0x34,
            Key::FORWARD_SLASH => 0x35,
            Key::RIGHT_SHIFT => 0x36,
            Key::ARROW_UP => 0x148,
            Key::NUM_ONE => 0x4F,
            Key::NUM_TWO => 0x50,
            Key::NUM_THREE => 0x51,
            Key::NUM_ENTER => 0x11C,
            Key::LEFT_CONTROL => 0x1D,
            Key::LEFT_WINDOWS => 0x15B,
            Key::LEFT_ALT => 0x38,
            Key::SPACE => 0x39,
            Key::RIGHT_ALT => 0x138,
            Key::RIGHT_WINDOWS => 0x15C,
            Key::APPLICATION_SELECT => 0x15D,
            Key::RIGHT_CONTROL => 0x11D,
            Key::ARROW_LEFT => 0x14B,
            Key::ARROW_DOWN => 0x150,
            Key::ARROW_RIGHT => 0x14D,
            Key::NUM_ZERO => 0x52,
            Key::NUM_PERIOD => 0x53,
            Key::G_1 => 0xFFF1,
            Key::G_2 => 0xFFF2,
            Key::G_3 => 0xFFF3,
            Key::G_4 => 0xFFF4,
            Key::G_5 => 0xFFF5,
            Key::G_6 => 0xFFF6,
            Key::G_7 => 0xFFF7,
            Key::G_8 => 0xFFF8,
            Key::G_9 => 0xFFF9,
            Key::G_LOGO => 0xFFFF1,
            Key::G_BADGE => 0xFFFF2,
        }
    }
}

/// The class of device a session's calls target.  Each class occupies one
/// bit of the native mask; `All` is the union of the three.
#[derive(Clone, Copy, Debug, PartialEq, Eq, Structural)]
pub enum DeviceType {
    Monochrome,
    Rgb,
    PerkeyRgb,
    All,
}

impl DeviceType {
    /// The native bit mask of this device class.
    pub open spec fn spec_bits(self) -> u32 {
        match self {
            DeviceType::Monochrome => 0x1,
            DeviceType::Rgb => 0x2,
            DeviceType::PerkeyRgb => 0x4,
            DeviceType::All => 0x7,
        }
    }

    /// The bit mask handed to the native target-device call.
    pub fn bits(self) -> (b: u32)
        ensures
            b == self.spec_bits(),
    {
        match self {
            DeviceType::Monochrome => 0x1,
            DeviceType::Rgb => 0x2,
            DeviceType::PerkeyRgb => 0x4,
            DeviceType::All => 0x7,
        }
    }
}

} // verus!
