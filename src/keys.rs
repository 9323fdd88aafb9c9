//! Keys as the keyboard hook reports them, and their virtual key codes.

use vstd::prelude::*;

verus! {

/// A key on the keyboard. The names are those the keyboard hook uses; a key it
/// has no name for is `Unknown` with its platform code.
#[derive(Debug, Clone, Copy, PartialEq, Eq, Structural)]
pub enum Key {
    Alt,
    AltGr,
    Backspace,
    CapsLock,
    ControlLeft,
    ControlRight,
    Delete,
    DownArrow,
    End,
    Escape,
    F1,
    F2,
    F3,
    F4,
    F5,
    F6,
    F7,
    F8,
    F9,
    F10,
    F11,
    F12,
    Home,
    LeftArrow,
    MetaLeft,
    MetaRight,
    PageDown,
    PageUp,
    Return,
    RightArrow,
    ShiftLeft,
    ShiftRight,
    Space,
    Tab,
    UpArrow,
    PrintScreen,
    ScrollLock,
    Pause,
    NumLock,
    BackQuote,
    Num1,
    Num2,
    Num3,
    Num4,
    Num5,
    Num6,
    Num7,
    Num8,
    Num9,
    Num0,
    Minus,
    Equal,
    KeyQ,
    KeyW,
    KeyE,
    KeyR,
    KeyT,
    KeyY,
    KeyU,
    KeyI,
    KeyO,
    KeyP,
    LeftBracket,
    RightBracket,
    KeyA,
    KeyS,
    KeyD,
    KeyF,
    KeyG,
    KeyH,
    KeyJ,
    KeyK,
    KeyL,
    SemiColon,
    Quote,
    BackSlash,
    IntlBackslash,
    KeyZ,
    KeyX,
    KeyC,
    KeyV,
    KeyB,
    KeyN,
    KeyM,
    Comma,
    Dot,
    Slash,
    Insert,
    KpReturn,
    KpMinus,
    KpPlus,
    KpMultiply,
    KpDivide,
    Kp0,
    Kp1,
    Kp2,
    Kp3,
    Kp4,
    Kp5,
    Kp6,
    Kp7,
    Kp8,
    Kp9,
    KpDelete,
    Function,
    Unknown(u32),
}

/// The virtual key code of `key` (the Windows code of the key in the US
/// layout, and 179 for the Fn key), where it has one.
pub open spec fn key_code(key: Key) -> Option<u32> {
    match key {
        Key::Alt => Some(18u32),
        Key::AltGr => Some(225u32),
        Key::Backspace => Some(8u32),
        Key::CapsLock => Some(20u32),
        Key::ControlLeft => Some(17u32),
        Key::ControlRight => Some(17u32),
        Key::Delete => Some(46u32),
        Key::DownArrow => Some(40u32),
        Key::End => Some(35u32),
        Key::Escape => Some(27u32),
        Key::F1 => Some(112u32),
        Key::F2 => Some(113u32),
        Key::F3 => Some(114u32),
        Key::F4 => Some(115u32),
        Key::F5 => Some(116u32),
        Key::F6 => Some(117u32),
        Key::F7 => Some(118u32),
        Key::F8 => Some(119u32),
        Key::F9 => Some(120u32),
        Key::F10 => Some(121u32),
        Key::F11 => Some(122u32),
        Key::F12 => Some(123u32),
        Key::Home => Some(36u32),
        Key::LeftArrow => Some(37u32),
        Key::MetaLeft => Some(91u32),
        Key::MetaRight => Some(92u32),
        Key::PageDown => Some(34u32),
        Key::PageUp => Some(33u32),
        Key::Return => Some(13u32),
        Key::RightArrow => Some(39u32),
        Key::ShiftLeft => Some(16u32),
        Key::ShiftRight => Some(16u32),
        Key::Space => Some(32u32),
        Key::Tab => Some(9u32),
        Key::UpArrow => Some(38u32),
        Key::PrintScreen => Some(44u32),
        Key::ScrollLock => Some(145u32),
        Key::Pause => Some(19u32),
        Key::NumLock => Some(144u32),
        Key::BackQuote => Some(192u32),
        Key::Num1 => Some(49u32),
        Key::Num2 => Some(50u32),
        Key::Num3 => Some(51u32),
        Key::Num4 => Some(52u32),
        Key::Num5 => Some(53u32),
        Key::Num6 => Some(54u32),
        Key::Num7 => Some(55u32),
        Key::Num8 => Some(56u32),
        Key::Num9 => Some(57u32),
        Key::Num0 => Some(48u32),
        Key::Minus => Some(189u32),
        Key::Equal => Some(187u32),
        Key::KeyQ => Some(81u32),
        Key::KeyW => Some(87u32),
        Key::KeyE => Some(69u32),
        Key::KeyR => Some(82u32),
        Key::KeyT => Some(84u32),
        Key::KeyY => Some(89u32),
        Key::KeyU => Some(85u32),
        Key::KeyI => Some(73u32),
        Key::KeyO => Some(79u32),
        Key::KeyP => Some(80u32),
        Key::LeftBracket => Some(219u32),
        Key::RightBracket => Some(221u32),
        Key::KeyA => Some(65u32),
        Key::KeyS => Some(83u32),
        Key::KeyD => Some(68u32),
        Key::KeyF => Some(70u32),
        Key::KeyG => Some(71u32),
        Key::KeyH => Some(72u32),
        Key::KeyJ => Some(74u32),
        Key::KeyK => Some(75u32),
        Key::KeyL => Some(76u32),
        Key::SemiColon => Some(186u32),
        Key::Quote => Some(222u32),
        Key::BackSlash => Some(220u32),
        Key::IntlBackslash => Some(226u32),
        Key::KeyZ => Some(90u32),
        Key::KeyX => Some(88u32),
        Key::KeyC => Some(67u32),
        Key::KeyV => Some(86u32),
        Key::KeyB => Some(66u32),
        Key::KeyN => Some(78u32),
        Key::KeyM => Some(77u32),
        Key::Comma => Some(188u32),
        Key::Dot => Some(190u32),
        Key::Slash => Some(191u32),
        Key::Function => Some(179u32),
        _ => None,
    }
}

/// The virtual key code of `key`, where it has one.
pub fn key_to_code(key: &Key) -> (r: Option<u32>)
    ensures
        r == key_code(*key),
{
    match key {
        Key::Alt => Some(18),
        Key::AltGr => Some(225),
        Key::Backspace => Some(8),
        Key::CapsLock => Some(20),
        Key::ControlLeft => Some(17),
        Key::ControlRight => Some(17),
        Key::Delete => Some(46),
        Key::DownArrow => Some(40),
        Key::End => Some(35),
        Key::Escape => Some(27),
        Key::F1 => Some(112),
        Key::F2 => Some(113),
        Key::F3 => Some(114),
        Key::F4 => Some(115),
        Key::F5 => Some(116),
        Key::F6 => Some(117),
        Key::F7 => Some(118),
        Key::F8 => Some(119),
        Key::F9 => Some(120),
        Key::F10 => Some(121),
        Key::F11 => Some(122),
        Key::F12 => Some(123),
        Key::Home => Some(36),
        Key::LeftArrow => Some(37),
        Key::MetaLeft => Some(91),
        Key::MetaRight => Some(92),
        Key::PageDown => Some(34),
        Key::PageUp => Some(33),
        Key::Return => Some(13),
        Key::RightArrow => Some(39),
        Key::ShiftLeft => Some(16),
        Key::ShiftRight => Some(16),
        Key::Space => Some(32),
        Key::Tab => Some(9),
        Key::UpArrow => Some(38),
        Key::PrintScreen => Some(44),
        Key::ScrollLock => Some(145),
        Key::Pause => Some(19),
        Key::NumLock => Some(144),
        Key::BackQuote => Some(192),
        Key::Num1 => Some(49),
        Key::Num2 => Some(50),
        Key::Num3 => Some(51),
        Key::Num4 => Some(52),
        Key::Num5 => Some(53),
        Key::Num6 => Some(54),
        Key::Num7 => Some(55),
        Key::Num8 => Some(56),
        Key::Num9 => Some(57),
        Key::Num0 => Some(48),
        Key::Minus => Some(189),
        Key::Equal => Some(187),
        Key::KeyQ => Some(81),
        Key::KeyW => Some(87),
        Key::KeyE => Some(69),
        Key::KeyR => Some(82),
        Key::KeyT => Some(84),
        Key::KeyY => Some(89),
        Key::KeyU => Some(85),
        Key::KeyI => Some(73),
        Key::KeyO => Some(79),
        Key::KeyP => Some(80),
        Key::LeftBracket => Some(219),
        Key::RightBracket => Some(221),
        Key::KeyA => Some(65),
        Key::KeyS => Some(83),
        Key::KeyD => Some(68),
        Key::KeyF => Some(70),
        Key::KeyG => Some(71),
        Key::KeyH => Some(72),
        Key::KeyJ => Some(74),
        Key::KeyK => Some(75),
        Key::KeyL => Some(76),
        Key::SemiColon => Some(186),
        Key::Quote => Some(222),
        Key::BackSlash => Some(220),
        Key::IntlBackslash => Some(226),
        Key::KeyZ => Some(90),
        Key::KeyX => Some(88),
        Key::KeyC => Some(67),
        Key::KeyV => Some(86),
        Key::KeyB => Some(66),
        Key::KeyN => Some(78),
        Key::KeyM => Some(77),
        Key::Comma => Some(188),
        Key::Dot => Some(190),
        Key::Slash => Some(191),
        Key::Function => Some(179),
        _ => None,
    }
}

} // verus!
