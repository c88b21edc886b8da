//! Every key has a name of its own, so reading a key's name gives that key back.

use vstd::prelude::*;

use crate::config::{
    keyboard_input_at, keyboard_input_named, keyboard_input_named_from, lemma_keyboard_input_index,
    KeyboardInput, KEYBOARD_INPUT_COUNT,
};

verus! {

/// The length of each key's variant name.
spec fn name_len(k: KeyboardInput) -> int {
    match k {
        KeyboardInput::A => 1,
        KeyboardInput::B => 1,
        KeyboardInput::C => 1,
        KeyboardInput::D => 1,
        KeyboardInput::E => 1,
        KeyboardInput::F => 1,
        KeyboardInput::G => 1,
        KeyboardInput::H => 1,
        KeyboardInput::I => 1,
        KeyboardInput::J => 1,
        KeyboardInput::K => 1,
        KeyboardInput::L => 1,
        KeyboardInput::M => 1,
        KeyboardInput::N => 1,
        KeyboardInput::O => 1,
        KeyboardInput::P => 1,
        KeyboardInput::Q => 1,
        KeyboardInput::R => 1,
        KeyboardInput::S => 1,
        KeyboardInput::T => 1,
        KeyboardInput::U => 1,
        KeyboardInput::V => 1,
        KeyboardInput::W => 1,
        KeyboardInput::X => 1,
        KeyboardInput::Y => 1,
        KeyboardInput::Z => 1,
        KeyboardInput::TopRow1Exclamation => 18,
        KeyboardInput::TopRow2At => 9,
        KeyboardInput::TopRow3Hash => 11,
        KeyboardInput::TopRow4Dollar => 13,
        KeyboardInput::TopRow5Percent => 14,
        KeyboardInput::TopRow6Caret => 12,
        KeyboardInput::TopRow7Ampersand => 16,
        KeyboardInput::TopRow8Asterisk => 15,
        KeyboardInput::TopRow9OpenParens => 17,
        KeyboardInput::TopRow0CloseParens => 18,
        KeyboardInput::Enter => 5,
        KeyboardInput::Escape => 6,
        KeyboardInput::Backspace => 9,
        KeyboardInput::Tab => 3,
        KeyboardInput::Spacebar => 8,
        KeyboardInput::DashUnderscore => 14,
        KeyboardInput::EqualPlus => 9,
        KeyboardInput::OpenBracketBrace => 16,
        KeyboardInput::CloseBracketBrace => 17,
        KeyboardInput::BackslashBar => 12,
        KeyboardInput::NonUSHash => 9,
        KeyboardInput::SemiColon => 9,
        KeyboardInput::SingleDoubleQuote => 17,
        KeyboardInput::BacktickTilde => 13,
        KeyboardInput::CommaLessThan => 13,
        KeyboardInput::PeriodGreaterThan => 17,
        KeyboardInput::SlashQuestion => 13,
        KeyboardInput::CapsLock => 8,
        KeyboardInput::F1 => 2,
        KeyboardInput::F2 => 2,
        KeyboardInput::F3 => 2,
        KeyboardInput::F4 => 2,
        KeyboardInput::F5 => 2,
        KeyboardInput::F6 => 2,
        KeyboardInput::F7 => 2,
        KeyboardInput::F8 => 2,
        KeyboardInput::F9 => 2,
        KeyboardInput::F10 => 3,
        KeyboardInput::F11 => 3,
        KeyboardInput::F12 => 3,
        KeyboardInput::PrintScreen => 11,
        KeyboardInput::ScrollLock => 10,
        KeyboardInput::Pause => 5,
        KeyboardInput::Insert => 6,
        KeyboardInput::Home => 4,
        KeyboardInput::PageUp => 6,
        KeyboardInput::Delete => 6,
        KeyboardInput::End => 3,
        KeyboardInput::PageDown => 8,
        KeyboardInput::RightArrow => 10,
        KeyboardInput::LeftArrow => 9,
        KeyboardInput::DownArrow => 9,
        KeyboardInput::UpArrow => 7,
        KeyboardInput::KeypadNumLock => 13,
        KeyboardInput::KeypadDivide => 12,
        KeyboardInput::KeypadMultiply => 14,
        KeyboardInput::KeypadMinus => 11,
        KeyboardInput::KeypadPlus => 10,
        KeyboardInput::KeypadEnter => 11,
        KeyboardInput::Keypad1End => 10,
        KeyboardInput::Keypad2DownArrow => 16,
        KeyboardInput::Keypad3PageDown => 15,
        KeyboardInput::Keypad4LeftArrow => 16,
        KeyboardInput::Keypad5 => 7,
        KeyboardInput::Keypad6RightArrow => 17,
        KeyboardInput::Keypad7Home => 11,
        KeyboardInput::Keypad8UpArrow => 14,
        KeyboardInput::Keypad9PageUp => 13,
        KeyboardInput::Keypad0Insert => 13,
        KeyboardInput::KeypadPeriodDelete => 18,
        KeyboardInput::NonUSSlash => 10,
        KeyboardInput::Application => 11,
        KeyboardInput::Power => 5,
        KeyboardInput::KeypadEqual => 11,
        KeyboardInput::F13 => 3,
        KeyboardInput::F14 => 3,
        KeyboardInput::F15 => 3,
        KeyboardInput::F16 => 3,
        KeyboardInput::F17 => 3,
        KeyboardInput::F18 => 3,
        KeyboardInput::F19 => 3,
        KeyboardInput::F20 => 3,
        KeyboardInput::F21 => 3,
        KeyboardInput::F22 => 3,
        KeyboardInput::F23 => 3,
        KeyboardInput::F24 => 3,
        KeyboardInput::Execute => 7,
        KeyboardInput::Help => 4,
        KeyboardInput::Menu => 4,
        KeyboardInput::Select => 6,
        KeyboardInput::Stop => 4,
        KeyboardInput::Again => 5,
        KeyboardInput::Undo => 4,
        KeyboardInput::Cut => 3,
        KeyboardInput::Copy => 4,
        KeyboardInput::Paste => 5,
        KeyboardInput::Find => 4,
        KeyboardInput::Mute => 4,
        KeyboardInput::VolumeUp => 8,
        KeyboardInput::VolumeDown => 10,
        KeyboardInput::LockingCapsLock => 15,
        KeyboardInput::LockingNumLock => 14,
        KeyboardInput::LockingScrollLock => 17,
        KeyboardInput::KeypadComma => 11,
        KeyboardInput::KeypadEqualSign => 15,
        KeyboardInput::International1 => 14,
        KeyboardInput::International2 => 14,
        KeyboardInput::International3 => 14,
        KeyboardInput::International4 => 14,
        KeyboardInput::International5 => 14,
        KeyboardInput::International6 => 14,
        KeyboardInput::International7 => 14,
        KeyboardInput::International8 => 14,
        KeyboardInput::International9 => 14,
        KeyboardInput::LANG1 => 5,
        KeyboardInput::LANG2 => 5,
        KeyboardInput::LANG3 => 5,
        KeyboardInput::LANG4 => 5,
        KeyboardInput::LANG5 => 5,
        KeyboardInput::LANG6 => 5,
        KeyboardInput::LANG7 => 5,
        KeyboardInput::LANG8 => 5,
        KeyboardInput::LANG9 => 5,
        KeyboardInput::AlternateErase => 14,
        KeyboardInput::SysReqAttention => 15,
        KeyboardInput::Cancel => 6,
        KeyboardInput::Clear => 5,
        KeyboardInput::Prior => 5,
        KeyboardInput::Return => 6,
        KeyboardInput::Separator => 9,
        KeyboardInput::Out => 3,
        KeyboardInput::Oper => 4,
        KeyboardInput::ClearAgain => 10,
        KeyboardInput::CrSelProps => 10,
        KeyboardInput::ExSel => 5,
        KeyboardInput::LeftControl => 11,
        KeyboardInput::LeftShift => 9,
        KeyboardInput::LeftAlt => 7,
        KeyboardInput::LeftWindows => 11,
        KeyboardInput::RightControl => 12,
        KeyboardInput::RightShift => 10,
        KeyboardInput::RightAlt => 8,
        KeyboardInput::RightWindows => 12,
        KeyboardInput::MediaPlayPause => 14,
        KeyboardInput::MediaPreviousSong => 17,
        KeyboardInput::MediaNextSong => 13,
    }
}

/// Character `i` of each key's variant name.
spec fn name_char(k: KeyboardInput, i: int) -> char {
    match k {
        KeyboardInput::A => if i == 0 { 'A' } else { ' ' },
        KeyboardInput::B => if i == 0 { 'B' } else { ' ' },
        KeyboardInput::C => if i == 0 { 'C' } else { ' ' },
        KeyboardInput::D => if i == 0 { 'D' } else { ' ' },
        KeyboardInput::E => if i == 0 { 'E' } else { ' ' },
        KeyboardInput::F => if i == 0 { 'F' } else { ' ' },
        KeyboardInput::G => if i == 0 { 'G' } else { ' ' },
        KeyboardInput::H => if i == 0 { 'H' } else { ' ' },
        KeyboardInput::I => if i == 0 { 'I' } else { ' ' },
        KeyboardInput::J => if i == 0 { 'J' } else { ' ' },
        KeyboardInput::K => if i == 0 { 'K' } else { ' ' },
        KeyboardInput::L => if i == 0 { 'L' } else { ' ' },
        KeyboardInput::M => if i == 0 { 'M' } else { ' ' },
        KeyboardInput::N => if i == 0 { 'N' } else { ' ' },
        KeyboardInput::O => if i == 0 { 'O' } else { ' ' },
        KeyboardInput::P => if i == 0 { 'P' } else { ' ' },
        KeyboardInput::Q => if i == 0 { 'Q' } else { ' ' },
        KeyboardInput::R => if i == 0 { 'R' } else { ' ' },
        KeyboardInput::S => if i == 0 { 'S' } else { ' ' },
        KeyboardInput::T => if i == 0 { 'T' } else { ' ' },
        KeyboardInput::U => if i == 0 { 'U' } else { ' ' },
        KeyboardInput::V => if i == 0 { 'V' } else { ' ' },
        KeyboardInput::W => if i == 0 { 'W' } else { ' ' },
        KeyboardInput::X => if i == 0 { 'X' } else { ' ' },
        KeyboardInput::Y => if i == 0 { 'Y' } else { ' ' },
        KeyboardInput::Z => if i == 0 { 'Z' } else { ' ' },
        KeyboardInput::TopRow1Exclamation => if i == 0 { 'T' } else if i == 1 { 'o' } else if i == 2 { 'p' } else if i == 3 { 'R' } else if i == 4 { 'o' } else if i == 5 { 'w' } else if i == 6 { '1' } else if i == 7 { 'E' } else if i == 8 { 'x' } else if i == 9 { 'c' } else if i == 10 { 'l' } else if i == 11 { 'a' } else if i == 12 { 'm' } else if i == 13 { 'a' } else if i == 14 { 't' } else if i == 15 { 'i' } else if i == 16 { 'o' } else if i == 17 { 'n' } else { ' ' },
        KeyboardInput::TopRow2At => if i == 0 { 'T' } else if i == 1 { 'o' } else if i == 2 { 'p' } else if i == 3 { 'R' } else if i == 4 { 'o' } else if i == 5 { 'w' } else if i == 6 { '2' } else if i == 7 { 'A' } else if i == 8 { 't' } else { ' ' },
        KeyboardInput::TopRow3Hash => if i == 0 { 'T' } else if i == 1 { 'o' } else if i == 2 { 'p' } else if i == 3 { 'R' } else if i == 4 { 'o' } else if i == 5 { 'w' } else if i == 6 { '3' } else if i == 7 { 'H' } else if i == 8 { 'a' } else if i == 9 { 's' } else if i == 10 { 'h' } else { ' ' },
        KeyboardInput::TopRow4Dollar => if i == 0 { 'T' } else if i == 1 { 'o' } else if i == 2 { 'p' } else if i == 3 { 'R' } else if i == 4 { 'o' } else if i == 5 { 'w' } else if i == 6 { '4' } else if i == 7 { 'D' } else if i == 8 { 'o' } else if i == 9 { 'l' } else if i == 10 { 'l' } else if i == 11 { 'a' } else if i == 12 { 'r' } else { ' ' },
        KeyboardInput::TopRow5Percent => if i == 0 { 'T' } else if i == 1 { 'o' } else if i == 2 { 'p' } else if i == 3 { 'R' } else if i == 4 { 'o' } else if i == 5 { 'w' } else if i == 6 { '5' } else if i == 7 { 'P' } else if i == 8 { 'e' } else if i == 9 { 'r' } else if i == 10 { 'c' } else if i == 11 { 'e' } else if i == 12 { 'n' } else if i == 13 { 't' } else { ' ' },
        KeyboardInput::TopRow6Caret => if i == 0 { 'T' } else if i == 1 { 'o' } else if i == 2 { 'p' } else if i == 3 { 'R' } else if i == 4 { 'o' } else if i == 5 { 'w' } else if i == 6 { '6' } else if i == 7 { 'C' } else if i == 8 { 'a' } else if i == 9 { 'r' } else if i == 10 { 'e' } else if i == 11 { 't' } else { ' ' },
        KeyboardInput::TopRow7Ampersand => if i == 0 { 'T' } else if i == 1 { 'o' } else if i == 2 { 'p' } else if i == 3 { 'R' } else if i == 4 { 'o' } else if i == 5 { 'w' } else if i == 6 { '7' } else if i == 7 { 'A' } else if i == 8 { 'm' } else if i == 9 { 'p' } else if i == 10 { 'e' } else if i == 11 { 'r' } else if i == 12 { 's' } else if i == 13 { 'a' } else if i == 14 { 'n' } else if i == 15 { 'd' } else { ' ' },
        KeyboardInput::TopRow8Asterisk => if i == 0 { 'T' } else if i == 1 { 'o' } else if i == 2 { 'p' } else if i == 3 { 'R' } else if i == 4 { 'o' } else if i == 5 { 'w' } else if i == 6 { '8' } else if i == 7 { 'A' } else if i == 8 { 's' } else if i == 9 { 't' } else if i == 10 { 'e' } else if i == 11 { 'r' } else if i == 12 { 'i' } else if i == 13 { 's' } else if i == 14 { 'k' } else { ' ' },
        KeyboardInput::TopRow9OpenParens => if i == 0 { 'T' } else if i == 1 { 'o' } else if i == 2 { 'p' } else if i == 3 { 'R' } else if i == 4 { 'o' } else if i == 5 { 'w' } else if i == 6 { '9' } else if i == 7 { 'O' } else if i == 8 { 'p' } else if i == 9 { 'e' } else if i == 10 { 'n' } else if i == 11 { 'P' } else if i == 12 { 'a' } else if i == 13 { 'r' } else if i == 14 { 'e' } else if i == 15 { 'n' } else if i == 16 { 's' } else { ' ' },
        KeyboardInput::TopRow0CloseParens => if i == 0 { 'T' } else if i == 1 { 'o' } else if i == 2 { 'p' } else if i == 3 { 'R' } else if i == 4 { 'o' } else if i == 5 { 'w' } else if i == 6 { '0' } else if i == 7 { 'C' } else if i == 8 { 'l' } else if i == 9 { 'o' } else if i == 10 { 's' } else if i == 11 { 'e' } else if i == 12 { 'P' } else if i == 13 { 'a' } else if i == 14 { 'r' } else if i == 15 { 'e' } else if i == 16 { 'n' } else if i == 17 { 's' } else { ' ' },
        KeyboardInput::Enter => if i == 0 { 'E' } else if i == 1 { 'n' } else if i == 2 { 't' } else if i == 3 { 'e' } else if i == 4 { 'r' } else { ' ' },
        KeyboardInput::Escape => if i == 0 { 'E' } else if i == 1 { 's' } else if i == 2 { 'c' } else if i == 3 { 'a' } else if i == 4 { 'p' } else if i == 5 { 'e' } else { ' ' },
        KeyboardInput::Backspace => if i == 0 { 'B' } else if i == 1 { 'a' } else if i == 2 { 'c' } else if i == 3 { 'k' } else if i == 4 { 's' } else if i == 5 { 'p' } else if i == 6 { 'a' } else if i == 7 { 'c' } else if i == 8 { 'e' } else { ' ' },
        KeyboardInput::Tab => if i == 0 { 'T' } else if i == 1 { 'a' } else if i == 2 { 'b' } else { ' ' },
        KeyboardInput::Spacebar => if i == 0 { 'S' } else if i == 1 { 'p' } else if i == 2 { 'a' } else if i == 3 { 'c' } else if i == 4 { 'e' } else if i == 5 { 'b' } else if i == 6 { 'a' } else if i == 7 { 'r' } else { ' ' },
        KeyboardInput::DashUnderscore => if i == 0 { 'D' } else if i == 1 { 'a' } else if i == 2 { 's' } else if i == 3 { 'h' } else if i == 4 { 'U' } else if i == 5 { 'n' } else if i == 6 { 'd' } else if i == 7 { 'e' } else if i == 8 { 'r' } else if i == 9 { 's' } else if i == 10 { 'c' } else if i == 11 { 'o' } else if i == 12 { 'r' } else if i == 13 { 'e' } else { ' ' },
        KeyboardInput::EqualPlus => if i == 0 { 'E' } else if i == 1 { 'q' } else if i == 2 { 'u' } else if i == 3 { 'a' } else if i == 4 { 'l' } else if i == 5 { 'P' } else if i == 6 { 'l' } else if i == 7 { 'u' } else if i == 8 { 's' } else { ' ' },
        KeyboardInput::OpenBracketBrace => if i == 0 { 'O' } else if i == 1 { 'p' } else if i == 2 { 'e' } else if i == 3 { 'n' } else if i == 4 { 'B' } else if i == 5 { 'r' } else if i == 6 { 'a' } else if i == 7 { 'c' } else if i == 8 { 'k' } else if i == 9 { 'e' } else if i == 10 { 't' } else if i == 11 { 'B' } else if i == 12 { 'r' } else if i == 13 { 'a' } else if i == 14 { 'c' } else if i == 15 { 'e' } else { ' ' },
        KeyboardInput::CloseBracketBrace => if i == 0 { 'C' } else if i == 1 { 'l' } else if i == 2 { 'o' } else if i == 3 { 's' } else if i == 4 { 'e' } else if i == 5 { 'B' } else if i == 6 { 'r' } else if i == 7 { 'a' } else if i == 8 { 'c' } else if i == 9 { 'k' } else if i == 10 { 'e' } else if i == 11 { 't' } else if i == 12 { 'B' } else if i == 13 { 'r' } else if i == 14 { 'a' } else if i == 15 { 'c' } else if i == 16 { 'e' } else { ' ' },
        KeyboardInput::BackslashBar => if i == 0 { 'B' } else if i == 1 { 'a' } else if i == 2 { 'c' } else if i == 3 { 'k' } else if i == 4 { 's' } else if i == 5 { 'l' } else if i == 6 { 'a' } else if i == 7 { 's' } else if i == 8 { 'h' } else if i == 9 { 'B' } else if i == 10 { 'a' } else if i == 11 { 'r' } else { ' ' },
        KeyboardInput::NonUSHash => if i == 0 { 'N' } else if i == 1 { 'o' } else if i == 2 { 'n' } else if i == 3 { 'U' } else if i == 4 { 'S' } else if i == 5 { 'H' } else if i == 6 { 'a' } else if i == 7 { 's' } else if i == 8 { 'h' } else { ' ' },
        KeyboardInput::SemiColon => if i == 0 { 'S' } else if i == 1 { 'e' } else if i == 2 { 'm' } else if i == 3 { 'i' } else if i == 4 { 'C' } else if i == 5 { 'o' } else if i == 6 { 'l' } else if i == 7 { 'o' } else if i == 8 { 'n' } else { ' ' },
        KeyboardInput::SingleDoubleQuote => if i == 0 { 'S' } else if i == 1 { 'i' } else if i == 2 { 'n' } else if i == 3 { 'g' } else if i == 4 { 'l' } else if i == 5 { 'e' } else if i == 6 { 'D' } else if i == 7 { 'o' } else if i == 8 { 'u' } else if i == 9 { 'b' } else if i == 10 { 'l' } else if i == 11 { 'e' } else if i == 12 { 'Q' } else if i == 13 { 'u' } else if i == 14 { 'o' } else if i == 15 { 't' } else if i == 16 { 'e' } else { ' ' },
        KeyboardInput::BacktickTilde => if i == 0 { 'B' } else if i == 1 { 'a' } else if i == 2 { 'c' } else if i == 3 { 'k' } else if i == 4 { 't' } else if i == 5 { 'i' } else if i == 6 { 'c' } else if i == 7 { 'k' } else if i == 8 { 'T' } else if i == 9 { 'i' } else if i == 10 { 'l' } else if i == 11 { 'd' } else if i == 12 { 'e' } else { ' ' },
        KeyboardInput::CommaLessThan => if i == 0 { 'C' } else if i == 1 { 'o' } else if i == 2 { 'm' } else if i == 3 { 'm' } else if i == 4 { 'a' } else if i == 5 { 'L' } else if i == 6 { 'e' } else if i == 7 { 's' } else if i == 8 { 's' } else if i == 9 { 'T' } else if i == 10 { 'h' } else if i == 11 { 'a' } else if i == 12 { 'n' } else { ' ' },
        KeyboardInput::PeriodGreaterThan => if i == 0 { 'P' } else if i == 1 { 'e' } else if i == 2 { 'r' } else if i == 3 { 'i' } else if i == 4 { 'o' } else if i == 5 { 'd' } else if i == 6 { 'G' } else if i == 7 { 'r' } else if i == 8 { 'e' } else if i == 9 { 'a' } else if i == 10 { 't' } else if i == 11 { 'e' } else if i == 12 { 'r' } else if i == 13 { 'T' } else if i == 14 { 'h' } else if i == 15 { 'a' } else if i == 16 { 'n' } else { ' ' },
        KeyboardInput::SlashQuestion => if i == 0 { 'S' } else if i == 1 { 'l' } else if i == 2 { 'a' } else if i == 3 { 's' } else if i == 4 { 'h' } else if i == 5 { 'Q' } else if i == 6 { 'u' } else if i == 7 { 'e' } else if i == 8 { 's' } else if i == 9 { 't' } else if i == 10 { 'i' } else if i == 11 { 'o' } else if i == 12 { 'n' } else { ' ' },
        KeyboardInput::CapsLock => if i == 0 { 'C' } else if i == 1 { 'a' } else if i == 2 { 'p' } else if i == 3 { 's' } else if i == 4 { 'L' } else if i == 5 { 'o' } else if i == 6 { 'c' } else if i == 7 { 'k' } else { ' ' },
        KeyboardInput::F1 => if i == 0 { 'F' } else if i == 1 { '1' } else { ' ' },
        KeyboardInput::F2 => if i == 0 { 'F' } else if i == 1 { '2' } else { ' ' },
        KeyboardInput::F3 => if i == 0 { 'F' } else if i == 1 { '3' } else { ' ' },
        KeyboardInput::F4 => if i == 0 { 'F' } else if i == 1 { '4' } else { ' ' },
        KeyboardInput::F5 => if i == 0 { 'F' } else if i == 1 { '5' } else { ' ' },
        KeyboardInput::F6 => if i == 0 { 'F' } else if i == 1 { '6' } else { ' ' },
        KeyboardInput::F7 => if i == 0 { 'F' } else if i == 1 { '7' } else { ' ' },
        KeyboardInput::F8 => if i == 0 { 'F' } else if i == 1 { '8' } else { ' ' },
        KeyboardInput::F9 => if i == 0 { 'F' } else if i == 1 { '9' } else { ' ' },
        KeyboardInput::F10 => if i == 0 { 'F' } else if i == 1 { '1' } else if i == 2 { '0' } else { ' ' },
        KeyboardInput::F11 => if i == 0 { 'F' } else if i == 1 { '1' } else if i == 2 { '1' } else { ' ' },
        KeyboardInput::F12 => if i == 0 { 'F' } else if i == 1 { '1' } else if i == 2 { '2' } else { ' ' },
        KeyboardInput::PrintScreen => if i == 0 { 'P' } else if i == 1 { 'r' } else if i == 2 { 'i' } else if i == 3 { 'n' } else if i == 4 { 't' } else if i == 5 { 'S' } else if i == 6 { 'c' } else if i == 7 { 'r' } else if i == 8 { 'e' } else if i == 9 { 'e' } else if i == 10 { 'n' } else { ' ' },
        KeyboardInput::ScrollLock => if i == 0 { 'S' } else if i == 1 { 'c' } else if i == 2 { 'r' } else if i == 3 { 'o' } else if i == 4 { 'l' } else if i == 5 { 'l' } else if i == 6 { 'L' } else if i == 7 { 'o' } else if i == 8 { 'c' } else if i == 9 { 'k' } else { ' ' },
        KeyboardInput::Pause => if i == 0 { 'P' } else if i == 1 { 'a' } else if i == 2 { 'u' } else if i == 3 { 's' } else if i == 4 { 'e' } else { ' ' },
        KeyboardInput::Insert => if i == 0 { 'I' } else if i == 1 { 'n' } else if i == 2 { 's' } else if i == 3 { 'e' } else if i == 4 { 'r' } else if i == 5 { 't' } else { ' ' },
        KeyboardInput::Home => if i == 0 { 'H' } else if i == 1 { 'o' } else if i == 2 { 'm' } else if i == 3 { 'e' } else { ' ' },
        KeyboardInput::PageUp => if i == 0 { 'P' } else if i == 1 { 'a' } else if i == 2 { 'g' } else if i == 3 { 'e' } else if i == 4 { 'U' } else if i == 5 { 'p' } else { ' ' },
        KeyboardInput::Delete => if i == 0 { 'D' } else if i == 1 { 'e' } else if i == 2 { 'l' } else if i == 3 { 'e' } else if i == 4 { 't' } else if i == 5 { 'e' } else { ' ' },
        KeyboardInput::End => if i == 0 { 'E' } else if i == 1 { 'n' } else if i == 2 { 'd' } else { ' ' },
        KeyboardInput::PageDown => if i == 0 { 'P' } else if i == 1 { 'a' } else if i == 2 { 'g' } else if i == 3 { 'e' } else if i == 4 { 'D' } else if i == 5 { 'o' } else if i == 6 { 'w' } else if i == 7 { 'n' } else { ' ' },
        KeyboardInput::RightArrow => if i == 0 { 'R' } else if i == 1 { 'i' } else if i == 2 { 'g' } else if i == 3 { 'h' } else if i == 4 { 't' } else if i == 5 { 'A' } else if i == 6 { 'r' } else if i == 7 { 'r' } else if i == 8 { 'o' } else if i == 9 { 'w' } else { ' ' },
        KeyboardInput::LeftArrow => if i == 0 { 'L' } else if i == 1 { 'e' } else if i == 2 { 'f' } else if i == 3 { 't' } else if i == 4 { 'A' } else if i == 5 { 'r' } else if i == 6 { 'r' } else if i == 7 { 'o' } else if i == 8 { 'w' } else { ' ' },
        KeyboardInput::DownArrow => if i == 0 { 'D' } else if i == 1 { 'o' } else if i == 2 { 'w' } else if i == 3 { 'n' } else if i == 4 { 'A' } else if i == 5 { 'r' } else if i == 6 { 'r' } else if i == 7 { 'o' } else if i == 8 { 'w' } else { ' ' },
        KeyboardInput::UpArrow => if i == 0 { 'U' } else if i == 1 { 'p' } else if i == 2 { 'A' } else if i == 3 { 'r' } else if i == 4 { 'r' } else if i == 5 { 'o' } else if i == 6 { 'w' } else { ' ' },
        KeyboardInput::KeypadNumLock => if i == 0 { 'K' } else if i == 1 { 'e' } else if i == 2 { 'y' } else if i == 3 { 'p' } else if i == 4 { 'a' } else if i == 5 { 'd' } else if i == 6 { 'N' } else if i == 7 { 'u' } else if i == 8 { 'm' } else if i == 9 { 'L' } else if i == 10 { 'o' } else if i == 11 { 'c' } else if i == 12 { 'k' } else { ' ' },
        KeyboardInput::KeypadDivide => if i == 0 { 'K' } else if i == 1 { 'e' } else if i == 2 { 'y' } else if i == 3 { 'p' } else if i == 4 { 'a' } else if i == 5 { 'd' } else if i == 6 { 'D' } else if i == 7 { 'i' } else if i == 8 { 'v' } else if i == 9 { 'i' } else if i == 10 { 'd' } else if i == 11 { 'e' } else { ' ' },
        KeyboardInput::KeypadMultiply => if i == 0 { 'K' } else if i == 1 { 'e' } else if i == 2 { 'y' } else if i == 3 { 'p' } else if i == 4 { 'a' } else if i == 5 { 'd' } else if i == 6 { 'M' } else if i == 7 { 'u' } else if i == 8 { 'l' } else if i == 9 { 't' } else if i == 10 { 'i' } else if i == 11 { 'p' } else if i == 12 { 'l' } else if i == 13 { 'y' } else { ' ' },
        KeyboardInput::KeypadMinus => if i == 0 { 'K' } else if i == 1 { 'e' } else if i == 2 { 'y' } else if i == 3 { 'p' } else if i == 4 { 'a' } else if i == 5 { 'd' } else if i == 6 { 'M' } else if i == 7 { 'i' } else if i == 8 { 'n' } else if i == 9 { 'u' } else if i == 10 { 's' } else { ' ' },
        KeyboardInput::KeypadPlus => if i == 0 { 'K' } else if i == 1 { 'e' } else if i == 2 { 'y' } else if i == 3 { 'p' } else if i == 4 { 'a' } else if i == 5 { 'd' } else if i == 6 { 'P' } else if i == 7 { 'l' } else if i == 8 { 'u' } else if i == 9 { 's' } else { ' ' },
        KeyboardInput::KeypadEnter => if i == 0 { 'K' } else if i == 1 { 'e' } else if i == 2 { 'y' } else if i == 3 { 'p' } else if i == 4 { 'a' } else if i == 5 { 'd' } else if i == 6 { 'E' } else if i == 7 { 'n' } else if i == 8 { 't' } else if i == 9 { 'e' } else if i == 10 { 'r' } else { ' ' },
        KeyboardInput::Keypad1End => if i == 0 { 'K' } else if i == 1 { 'e' } else if i == 2 { 'y' } else if i == 3 { 'p' } else if i == 4 { 'a' } else if i == 5 { 'd' } else if i == 6 { '1' } else if i == 7 { 'E' } else if i == 8 { 'n' } else if i == 9 { 'd' } else { ' ' },
        KeyboardInput::Keypad2DownArrow => if i == 0 { 'K' } else if i == 1 { 'e' } else if i == 2 { 'y' } else if i == 3 { 'p' } else if i == 4 { 'a' } else if i == 5 { 'd' } else if i == 6 { '2' } else if i == 7 { 'D' } else if i == 8 { 'o' } else if i == 9 { 'w' } else if i == 10 { 'n' } else if i == 11 { 'A' } else if i == 12 { 'r' } else if i == 13 { 'r' } else if i == 14 { 'o' } else if i == 15 { 'w' } else { ' ' },
        KeyboardInput::Keypad3PageDown => if i == 0 { 'K' } else if i == 1 { 'e' } else if i == 2 { 'y' } else if i == 3 { 'p' } else if i == 4 { 'a' } else if i == 5 { 'd' } else if i == 6 { '3' } else if i == 7 { 'P' } else if i == 8 { 'a' } else if i == 9 { 'g' } else if i == 10 { 'e' } else if i == 11 { 'D' } else if i == 12 { 'o' } else if i == 13 { 'w' } else if i == 14 { 'n' } else { ' ' },
        KeyboardInput::Keypad4LeftArrow => if i == 0 { 'K' } else if i == 1 { 'e' } else if i == 2 { 'y' } else if i == 3 { 'p' } else if i == 4 { 'a' } else if i == 5 { 'd' } else if i == 6 { '4' } else if i == 7 { 'L' } else if i == 8 { 'e' } else if i == 9 { 'f' } else if i == 10 { 't' } else if i == 11 { 'A' } else if i == 12 { 'r' } else if i == 13 { 'r' } else if i == 14 { 'o' } else if i == 15 { 'w' } else { ' ' },
        KeyboardInput::Keypad5 => if i == 0 { 'K' } else if i == 1 { 'e' } else if i == 2 { 'y' } else if i == 3 { 'p' } else if i == 4 { 'a' } else if i == 5 { 'd' } else if i == 6 { '5' } else { ' ' },
        KeyboardInput::Keypad6RightArrow => if i == 0 { 'K' } else if i == 1 { 'e' } else if i == 2 { 'y' } else if i == 3 { 'p' } else if i == 4 { 'a' } else if i == 5 { 'd' } else if i == 6 { '6' } else if i == 7 { 'R' } else if i == 8 { 'i' } else if i == 9 { 'g' } else if i == 10 { 'h' } else if i == 11 { 't' } else if i == 12 { 'A' } else if i == 13 { 'r' } else if i == 14 { 'r' } else if i == 15 { 'o' } else if i == 16 { 'w' } else { ' ' },
        KeyboardInput::Keypad7Home => if i == 0 { 'K' } else if i == 1 { 'e' } else if i == 2 { 'y' } else if i == 3 { 'p' } else if i == 4 { 'a' } else if i == 5 { 'd' } else if i == 6 { '7' } else if i == 7 { 'H' } else if i == 8 { 'o' } else if i == 9 { 'm' } else if i == 10 { 'e' } else { ' ' },
        KeyboardInput::Keypad8UpArrow => if i == 0 { 'K' } else if i == 1 { 'e' } else if i == 2 { 'y' } else if i == 3 { 'p' } else if i == 4 { 'a' } else if i == 5 { 'd' } else if i == 6 { '8' } else if i == 7 { 'U' } else if i == 8 { 'p' } else if i == 9 { 'A' } else if i == 10 { 'r' } else if i == 11 { 'r' } else if i == 12 { 'o' } else if i == 13 { 'w' } else { ' ' },
        KeyboardInput::Keypad9PageUp => if i == 0 { 'K' } else if i == 1 { 'e' } else if i == 2 { 'y' } else if i == 3 { 'p' } else if i == 4 { 'a' } else if i == 5 { 'd' } else if i == 6 { '9' } else if i == 7 { 'P' } else if i == 8 { 'a' } else if i == 9 { 'g' } else if i == 10 { 'e' } else if i == 11 { 'U' } else if i == 12 { 'p' } else { ' ' },
        KeyboardInput::Keypad0Insert => if i == 0 { 'K' } else if i == 1 { 'e' } else if i == 2 { 'y' } else if i == 3 { 'p' } else if i == 4 { 'a' } else if i == 5 { 'd' } else if i == 6 { '0' } else if i == 7 { 'I' } else if i == 8 { 'n' } else if i == 9 { 's' } else if i == 10 { 'e' } else if i == 11 { 'r' } else if i == 12 { 't' } else { ' ' },
        KeyboardInput::KeypadPeriodDelete => if i == 0 { 'K' } else if i == 1 { 'e' } else if i == 2 { 'y' } else if i == 3 { 'p' } else if i == 4 { 'a' } else if i == 5 { 'd' } else if i == 6 { 'P' } else if i == 7 { 'e' } else if i == 8 { 'r' } else if i == 9 { 'i' } else if i == 10 { 'o' } else if i == 11 { 'd' } else if i == 12 { 'D' } else if i == 13 { 'e' } else if i == 14 { 'l' } else if i == 15 { 'e' } else if i == 16 { 't' } else if i == 17 { 'e' } else { ' ' },
        KeyboardInput::NonUSSlash => if i == 0 { 'N' } else if i == 1 { 'o' } else if i == 2 { 'n' } else if i == 3 { 'U' } else if i == 4 { 'S' } else if i == 5 { 'S' } else if i == 6 { 'l' } else if i == 7 { 'a' } else if i == 8 { 's' } else if i == 9 { 'h' } else { ' ' },
        KeyboardInput::Application => if i == 0 { 'A' } else if i == 1 { 'p' } else if i == 2 { 'p' } else if i == 3 { 'l' } else if i == 4 { 'i' } else if i == 5 { 'c' } else if i == 6 { 'a' } else if i == 7 { 't' } else if i == 8 { 'i' } else if i == 9 { 'o' } else if i == 10 { 'n' } else { ' ' },
        KeyboardInput::Power => if i == 0 { 'P' } else if i == 1 { 'o' } else if i == 2 { 'w' } else if i == 3 { 'e' } else if i == 4 { 'r' } else { ' ' },
        KeyboardInput::KeypadEqual => if i == 0 { 'K' } else if i == 1 { 'e' } else if i == 2 { 'y' } else if i == 3 { 'p' } else if i == 4 { 'a' } else if i == 5 { 'd' } else if i == 6 { 'E' } else if i == 7 { 'q' } else if i == 8 { 'u' } else if i == 9 { 'a' } else if i == 10 { 'l' } else { ' ' },
        KeyboardInput::F13 => if i == 0 { 'F' } else if i == 1 { '1' } else if i == 2 { '3' } else { ' ' },
        KeyboardInput::F14 => if i == 0 { 'F' } else if i == 1 { '1' } else if i == 2 { '4' } else { ' ' },
        KeyboardInput::F15 => if i == 0 { 'F' } else if i == 1 { '1' } else if i == 2 { '5' } else { ' ' },
        KeyboardInput::F16 => if i == 0 { 'F' } else if i == 1 { '1' } else if i == 2 { '6' } else { ' ' },
        KeyboardInput::F17 => if i == 0 { 'F' } else if i == 1 { '1' } else if i == 2 { '7' } else { ' ' },
        KeyboardInput::F18 => if i == 0 { 'F' } else if i == 1 { '1' } else if i == 2 { '8' } else { ' ' },
        KeyboardInput::F19 => if i == 0 { 'F' } else if i == 1 { '1' } else if i == 2 { '9' } else { ' ' },
        KeyboardInput::F20 => if i == 0 { 'F' } else if i == 1 { '2' } else if i == 2 { '0' } else { ' ' },
        KeyboardInput::F21 => if i == 0 { 'F' } else if i == 1 { '2' } else if i == 2 { '1' } else { ' ' },
        KeyboardInput::F22 => if i == 0 { 'F' } else if i == 1 { '2' } else if i == 2 { '2' } else { ' ' },
        KeyboardInput::F23 => if i == 0 { 'F' } else if i == 1 { '2' } else if i == 2 { '3' } else { ' ' },
        KeyboardInput::F24 => if i == 0 { 'F' } else if i == 1 { '2' } else if i == 2 { '4' } else { ' ' },
        KeyboardInput::Execute => if i == 0 { 'E' } else if i == 1 { 'x' } else if i == 2 { 'e' } else if i == 3 { 'c' } else if i == 4 { 'u' } else if i == 5 { 't' } else if i == 6 { 'e' } else { ' ' },
        KeyboardInput::Help => if i == 0 { 'H' } else if i == 1 { 'e' } else if i == 2 { 'l' } else if i == 3 { 'p' } else { ' ' },
        KeyboardInput::Menu => if i == 0 { 'M' } else if i == 1 { 'e' } else if i == 2 { 'n' } else if i == 3 { 'u' } else { ' ' },
        KeyboardInput::Select => if i == 0 { 'S' } else if i == 1 { 'e' } else if i == 2 { 'l' } else if i == 3 { 'e' } else if i == 4 { 'c' } else if i == 5 { 't' } else { ' ' },
        KeyboardInput::Stop => if i == 0 { 'S' } else if i == 1 { 't' } else if i == 2 { 'o' } else if i == 3 { 'p' } else { ' ' },
        KeyboardInput::Again => if i == 0 { 'A' } else if i == 1 { 'g' } else if i == 2 { 'a' } else if i == 3 { 'i' } else if i == 4 { 'n' } else { ' ' },
        KeyboardInput::Undo => if i == 0 { 'U' } else if i == 1 { 'n' } else if i == 2 { 'd' } else if i == 3 { 'o' } else { ' ' },
        KeyboardInput::Cut => if i == 0 { 'C' } else if i == 1 { 'u' } else if i == 2 { 't' } else { ' ' },
        KeyboardInput::Copy => if i == 0 { 'C' } else if i == 1 { 'o' } else if i == 2 { 'p' } else if i == 3 { 'y' } else { ' ' },
        KeyboardInput::Paste => if i == 0 { 'P' } else if i == 1 { 'a' } else if i == 2 { 's' } else if i == 3 { 't' } else if i == 4 { 'e' } else { ' ' },
        KeyboardInput::Find => if i == 0 { 'F' } else if i == 1 { 'i' } else if i == 2 { 'n' } else if i == 3 { 'd' } else { ' ' },
        KeyboardInput::Mute => if i == 0 { 'M' } else if i == 1 { 'u' } else if i == 2 { 't' } else if i == 3 { 'e' } else { ' ' },
        KeyboardInput::VolumeUp => if i == 0 { 'V' } else if i == 1 { 'o' } else if i == 2 { 'l' } else if i == 3 { 'u' } else if i == 4 { 'm' } else if i == 5 { 'e' } else if i == 6 { 'U' } else if i == 7 { 'p' } else { ' ' },
        KeyboardInput::VolumeDown => if i == 0 { 'V' } else if i == 1 { 'o' } else if i == 2 { 'l' } else if i == 3 { 'u' } else if i == 4 { 'm' } else if i == 5 { 'e' } else if i == 6 { 'D' } else if i == 7 { 'o' } else if i == 8 { 'w' } else if i == 9 { 'n' } else { ' ' },
        KeyboardInput::LockingCapsLock => if i == 0 { 'L' } else if i == 1 { 'o' } else if i == 2 { 'c' } else if i == 3 { 'k' } else if i == 4 { 'i' } else if i == 5 { 'n' } else if i == 6 { 'g' } else if i == 7 { 'C' } else if i == 8 { 'a' } else if i == 9 { 'p' } else if i == 10 { 's' } else if i == 11 { 'L' } else if i == 12 { 'o' } else if i == 13 { 'c' } else if i == 14 { 'k' } else { ' ' },
        KeyboardInput::LockingNumLock => if i == 0 { 'L' } else if i == 1 { 'o' } else if i == 2 { 'c' } else if i == 3 { 'k' } else if i == 4 { 'i' } else if i == 5 { 'n' } else if i == 6 { 'g' } else if i == 7 { 'N' } else if i == 8 { 'u' } else if i == 9 { 'm' } else if i == 10 { 'L' } else if i == 11 { 'o' } else if i == 12 { 'c' } else if i == 13 { 'k' } else { ' ' },
        KeyboardInput::LockingScrollLock => if i == 0 { 'L' } else if i == 1 { 'o' } else if i == 2 { 'c' } else if i == 3 { 'k' } else if i == 4 { 'i' } else if i == 5 { 'n' } else if i == 6 { 'g' } else if i == 7 { 'S' } else if i == 8 { 'c' } else if i == 9 { 'r' } else if i == 10 { 'o' } else if i == 11 { 'l' } else if i == 12 { 'l' } else if i == 13 { 'L' } else if i == 14 { 'o' } else if i == 15 { 'c' } else if i == 16 { 'k' } else { ' ' },
        KeyboardInput::KeypadComma => if i == 0 { 'K' } else if i == 1 { 'e' } else if i == 2 { 'y' } else if i == 3 { 'p' } else if i == 4 { 'a' } else if i == 5 { 'd' } else if i == 6 { 'C' } else if i == 7 { 'o' } else if i == 8 { 'm' } else if i == 9 { 'm' } else if i == 10 { 'a' } else { ' ' },
        KeyboardInput::KeypadEqualSign => if i == 0 { 'K' } else if i == 1 { 'e' } else if i == 2 { 'y' } else if i == 3 { 'p' } else if i == 4 { 'a' } else if i == 5 { 'd' } else if i == 6 { 'E' } else if i == 7 { 'q' } else if i == 8 { 'u' } else if i == 9 { 'a' } else if i == 10 { 'l' } else if i == 11 { 'S' } else if i == 12 { 'i' } else if i == 13 { 'g' } else if i == 14 { 'n' } else { ' ' },
        KeyboardInput::International1 => if i == 0 { 'I' } else if i == 1 { 'n' } else if i == 2 { 't' } else if i == 3 { 'e' } else if i == 4 { 'r' } else if i == 5 { 'n' } else if i == 6 { 'a' } else if i == 7 { 't' } else if i == 8 { 'i' } else if i == 9 { 'o' } else if i == 10 { 'n' } else if i == 11 { 'a' } else if i == 12 { 'l' } else if i == 13 { '1' } else { ' ' },
        KeyboardInput::International2 => if i == 0 { 'I' } else if i == 1 { 'n' } else if i == 2 { 't' } else if i == 3 { 'e' } else if i == 4 { 'r' } else if i == 5 { 'n' } else if i == 6 { 'a' } else if i == 7 { 't' } else if i == 8 { 'i' } else if i == 9 { 'o' } else if i == 10 { 'n' } else if i == 11 { 'a' } else if i == 12 { 'l' } else if i == 13 { '2' } else { ' ' },
        KeyboardInput::International3 => if i == 0 { 'I' } else if i == 1 { 'n' } else if i == 2 { 't' } else if i == 3 { 'e' } else if i == 4 { 'r' } else if i == 5 { 'n' } else if i == 6 { 'a' } else if i == 7 { 't' } else if i == 8 { 'i' } else if i == 9 { 'o' } else if i == 10 { 'n' } else if i == 11 { 'a' } else if i == 12 { 'l' } else if i == 13 { '3' } else { ' ' },
        KeyboardInput::International4 => if i == 0 { 'I' } else if i == 1 { 'n' } else if i == 2 { 't' } else if i == 3 { 'e' } else if i == 4 { 'r' } else if i == 5 { 'n' } else if i == 6 { 'a' } else if i == 7 { 't' } else if i == 8 { 'i' } else if i == 9 { 'o' } else if i == 10 { 'n' } else if i == 11 { 'a' } else if i == 12 { 'l' } else if i == 13 { '4' } else { ' ' },
        KeyboardInput::International5 => if i == 0 { 'I' } else if i == 1 { 'n' } else if i == 2 { 't' } else if i == 3 { 'e' } else if i == 4 { 'r' } else if i == 5 { 'n' } else if i == 6 { 'a' } else if i == 7 { 't' } else if i == 8 { 'i' } else if i == 9 { 'o' } else if i == 10 { 'n' } else if i == 11 { 'a' } else if i == 12 { 'l' } else if i == 13 { '5' } else { ' ' },
        KeyboardInput::International6 => if i == 0 { 'I' } else if i == 1 { 'n' } else if i == 2 { 't' } else if i == 3 { 'e' } else if i == 4 { 'r' } else if i == 5 { 'n' } else if i == 6 { 'a' } else if i == 7 { 't' } else if i == 8 { 'i' } else if i == 9 { 'o' } else if i == 10 { 'n' } else if i == 11 { 'a' } else if i == 12 { 'l' } else if i == 13 { '6' } else { ' ' },
        KeyboardInput::International7 => if i == 0 { 'I' } else if i == 1 { 'n' } else if i == 2 { 't' } else if i == 3 { 'e' } else if i == 4 { 'r' } else if i == 5 { 'n' } else if i == 6 { 'a' } else if i == 7 { 't' } else if i == 8 { 'i' } else if i == 9 { 'o' } else if i == 10 { 'n' } else if i == 11 { 'a' } else if i == 12 { 'l' } else if i == 13 { '7' } else { ' ' },
        KeyboardInput::International8 => if i == 0 { 'I' } else if i == 1 { 'n' } else if i == 2 { 't' } else if i == 3 { 'e' } else if i == 4 { 'r' } else if i == 5 { 'n' } else if i == 6 { 'a' } else if i == 7 { 't' } else if i == 8 { 'i' } else if i == 9 { 'o' } else if i == 10 { 'n' } else if i == 11 { 'a' } else if i == 12 { 'l' } else if i == 13 { '8' } else { ' ' },
        KeyboardInput::International9 => if i == 0 { 'I' } else if i == 1 { 'n' } else if i == 2 { 't' } else if i == 3 { 'e' } else if i == 4 { 'r' } else if i == 5 { 'n' } else if i == 6 { 'a' } else if i == 7 { 't' } else if i == 8 { 'i' } else if i == 9 { 'o' } else if i == 10 { 'n' } else if i == 11 { 'a' } else if i == 12 { 'l' } else if i == 13 { '9' } else { ' ' },
        KeyboardInput::LANG1 => if i == 0 { 'L' } else if i == 1 { 'A' } else if i == 2 { 'N' } else if i == 3 { 'G' } else if i == 4 { '1' } else { ' ' },
        KeyboardInput::LANG2 => if i == 0 { 'L' } else if i == 1 { 'A' } else if i == 2 { 'N' } else if i == 3 { 'G' } else if i == 4 { '2' } else { ' ' },
        KeyboardInput::LANG3 => if i == 0 { 'L' } else if i == 1 { 'A' } else if i == 2 { 'N' } else if i == 3 { 'G' } else if i == 4 { '3' } else { ' ' },
        KeyboardInput::LANG4 => if i == 0 { 'L' } else if i == 1 { 'A' } else if i == 2 { 'N' } else if i == 3 { 'G' } else if i == 4 { '4' } else { ' ' },
        KeyboardInput::LANG5 => if i == 0 { 'L' } else if i == 1 { 'A' } else if i == 2 { 'N' } else if i == 3 { 'G' } else if i == 4 { '5' } else { ' ' },
        KeyboardInput::LANG6 => if i == 0 { 'L' } else if i == 1 { 'A' } else if i == 2 { 'N' } else if i == 3 { 'G' } else if i == 4 { '6' } else { ' ' },
        KeyboardInput::LANG7 => if i == 0 { 'L' } else if i == 1 { 'A' } else if i == 2 { 'N' } else if i == 3 { 'G' } else if i == 4 { '7' } else { ' ' },
        KeyboardInput::LANG8 => if i == 0 { 'L' } else if i == 1 { 'A' } else if i == 2 { 'N' } else if i == 3 { 'G' } else if i == 4 { '8' } else { ' ' },
        KeyboardInput::LANG9 => if i == 0 { 'L' } else if i == 1 { 'A' } else if i == 2 { 'N' } else if i == 3 { 'G' } else if i == 4 { '9' } else { ' ' },
        KeyboardInput::AlternateErase => if i == 0 { 'A' } else if i == 1 { 'l' } else if i == 2 { 't' } else if i == 3 { 'e' } else if i == 4 { 'r' } else if i == 5 { 'n' } else if i == 6 { 'a' } else if i == 7 { 't' } else if i == 8 { 'e' } else if i == 9 { 'E' } else if i == 10 { 'r' } else if i == 11 { 'a' } else if i == 12 { 's' } else if i == 13 { 'e' } else { ' ' },
        KeyboardInput::SysReqAttention => if i == 0 { 'S' } else if i == 1 { 'y' } else if i == 2 { 's' } else if i == 3 { 'R' } else if i == 4 { 'e' } else if i == 5 { 'q' } else if i == 6 { 'A' } else if i == 7 { 't' } else if i == 8 { 't' } else if i == 9 { 'e' } else if i == 10 { 'n' } else if i == 11 { 't' } else if i == 12 { 'i' } else if i == 13 { 'o' } else if i == 14 { 'n' } else { ' ' },
        KeyboardInput::Cancel => if i == 0 { 'C' } else if i == 1 { 'a' } else if i == 2 { 'n' } else if i == 3 { 'c' } else if i == 4 { 'e' } else if i == 5 { 'l' } else { ' ' },
        KeyboardInput::Clear => if i == 0 { 'C' } else if i == 1 { 'l' } else if i == 2 { 'e' } else if i == 3 { 'a' } else if i == 4 { 'r' } else { ' ' },
        KeyboardInput::Prior => if i == 0 { 'P' } else if i == 1 { 'r' } else if i == 2 { 'i' } else if i == 3 { 'o' } else if i == 4 { 'r' } else { ' ' },
        KeyboardInput::Return => if i == 0 { 'R' } else if i == 1 { 'e' } else if i == 2 { 't' } else if i == 3 { 'u' } else if i == 4 { 'r' } else if i == 5 { 'n' } else { ' ' },
        KeyboardInput::Separator => if i == 0 { 'S' } else if i == 1 { 'e' } else if i == 2 { 'p' } else if i == 3 { 'a' } else if i == 4 { 'r' } else if i == 5 { 'a' } else if i == 6 { 't' } else if i == 7 { 'o' } else if i == 8 { 'r' } else { ' ' },
        KeyboardInput::Out => if i == 0 { 'O' } else if i == 1 { 'u' } else if i == 2 { 't' } else { ' ' },
        KeyboardInput::Oper => if i == 0 { 'O' } else if i == 1 { 'p' } else if i == 2 { 'e' } else if i == 3 { 'r' } else { ' ' },
        KeyboardInput::ClearAgain => if i == 0 { 'C' } else if i == 1 { 'l' } else if i == 2 { 'e' } else if i == 3 { 'a' } else if i == 4 { 'r' } else if i == 5 { 'A' } else if i == 6 { 'g' } else if i == 7 { 'a' } else if i == 8 { 'i' } else if i == 9 { 'n' } else { ' ' },
        KeyboardInput::CrSelProps => if i == 0 { 'C' } else if i == 1 { 'r' } else if i == 2 { 'S' } else if i == 3 { 'e' } else if i == 4 { 'l' } else if i == 5 { 'P' } else if i == 6 { 'r' } else if i == 7 { 'o' } else if i == 8 { 'p' } else if i == 9 { 's' } else { ' ' },
        KeyboardInput::ExSel => if i == 0 { 'E' } else if i == 1 { 'x' } else if i == 2 { 'S' } else if i == 3 { 'e' } else if i == 4 { 'l' } else { ' ' },
        KeyboardInput::LeftControl => if i == 0 { 'L' } else if i == 1 { 'e' } else if i == 2 { 'f' } else if i == 3 { 't' } else if i == 4 { 'C' } else if i == 5 { 'o' } else if i == 6 { 'n' } else if i == 7 { 't' } else if i == 8 { 'r' } else if i == 9 { 'o' } else if i == 10 { 'l' } else { ' ' },
        KeyboardInput::LeftShift => if i == 0 { 'L' } else if i == 1 { 'e' } else if i == 2 { 'f' } else if i == 3 { 't' } else if i == 4 { 'S' } else if i == 5 { 'h' } else if i == 6 { 'i' } else if i == 7 { 'f' } else if i == 8 { 't' } else { ' ' },
        KeyboardInput::LeftAlt => if i == 0 { 'L' } else if i == 1 { 'e' } else if i == 2 { 'f' } else if i == 3 { 't' } else if i == 4 { 'A' } else if i == 5 { 'l' } else if i == 6 { 't' } else { ' ' },
        KeyboardInput::LeftWindows => if i == 0 { 'L' } else if i == 1 { 'e' } else if i == 2 { 'f' } else if i == 3 { 't' } else if i == 4 { 'W' } else if i == 5 { 'i' } else if i == 6 { 'n' } else if i == 7 { 'd' } else if i == 8 { 'o' } else if i == 9 { 'w' } else if i == 10 { 's' } else { ' ' },
        KeyboardInput::RightControl => if i == 0 { 'R' } else if i == 1 { 'i' } else if i == 2 { 'g' } else if i == 3 { 'h' } else if i == 4 { 't' } else if i == 5 { 'C' } else if i == 6 { 'o' } else if i == 7 { 'n' } else if i == 8 { 't' } else if i == 9 { 'r' } else if i == 10 { 'o' } else if i == 11 { 'l' } else { ' ' },
        KeyboardInput::RightShift => if i == 0 { 'R' } else if i == 1 { 'i' } else if i == 2 { 'g' } else if i == 3 { 'h' } else if i == 4 { 't' } else if i == 5 { 'S' } else if i == 6 { 'h' } else if i == 7 { 'i' } else if i == 8 { 'f' } else if i == 9 { 't' } else { ' ' },
        KeyboardInput::RightAlt => if i == 0 { 'R' } else if i == 1 { 'i' } else if i == 2 { 'g' } else if i == 3 { 'h' } else if i == 4 { 't' } else if i == 5 { 'A' } else if i == 6 { 'l' } else if i == 7 { 't' } else { ' ' },
        KeyboardInput::RightWindows => if i == 0 { 'R' } else if i == 1 { 'i' } else if i == 2 { 'g' } else if i == 3 { 'h' } else if i == 4 { 't' } else if i == 5 { 'W' } else if i == 6 { 'i' } else if i == 7 { 'n' } else if i == 8 { 'd' } else if i == 9 { 'o' } else if i == 10 { 'w' } else if i == 11 { 's' } else { ' ' },
        KeyboardInput::MediaPlayPause => if i == 0 { 'M' } else if i == 1 { 'e' } else if i == 2 { 'd' } else if i == 3 { 'i' } else if i == 4 { 'a' } else if i == 5 { 'P' } else if i == 6 { 'l' } else if i == 7 { 'a' } else if i == 8 { 'y' } else if i == 9 { 'P' } else if i == 10 { 'a' } else if i == 11 { 'u' } else if i == 12 { 's' } else if i == 13 { 'e' } else { ' ' },
        KeyboardInput::MediaPreviousSong => if i == 0 { 'M' } else if i == 1 { 'e' } else if i == 2 { 'd' } else if i == 3 { 'i' } else if i == 4 { 'a' } else if i == 5 { 'P' } else if i == 6 { 'r' } else if i == 7 { 'e' } else if i == 8 { 'v' } else if i == 9 { 'i' } else if i == 10 { 'o' } else if i == 11 { 'u' } else if i == 12 { 's' } else if i == 13 { 'S' } else if i == 14 { 'o' } else if i == 15 { 'n' } else if i == 16 { 'g' } else { ' ' },
        KeyboardInput::MediaNextSong => if i == 0 { 'M' } else if i == 1 { 'e' } else if i == 2 { 'd' } else if i == 3 { 'i' } else if i == 4 { 'a' } else if i == 5 { 'N' } else if i == 6 { 'e' } else if i == 7 { 'x' } else if i == 8 { 't' } else if i == 9 { 'S' } else if i == 10 { 'o' } else if i == 11 { 'n' } else if i == 12 { 'g' } else { ' ' },
    }
}

proof fn lemma_name_chars(k: KeyboardInput)
    ensures
        k.variant_name().len() == name_len(k),
        forall|i: int| 0 <= i < name_len(k) ==> #[trigger] k.variant_name()[i] == name_char(k, i),
{
    match k {
        KeyboardInput::A => reveal_strlit("A"),
        KeyboardInput::B => reveal_strlit("B"),
        KeyboardInput::C => reveal_strlit("C"),
        KeyboardInput::D => reveal_strlit("D"),
        KeyboardInput::E => reveal_strlit("E"),
        KeyboardInput::F => reveal_strlit("F"),
        KeyboardInput::G => reveal_strlit("G"),
        KeyboardInput::H => reveal_strlit("H"),
        KeyboardInput::I => reveal_strlit("I"),
        KeyboardInput::J => reveal_strlit("J"),
        KeyboardInput::K => reveal_strlit("K"),
        KeyboardInput::L => reveal_strlit("L"),
        KeyboardInput::M => reveal_strlit("M"),
        KeyboardInput::N => reveal_strlit("N"),
        KeyboardInput::O => reveal_strlit("O"),
        KeyboardInput::P => reveal_strlit("P"),
        KeyboardInput::Q => reveal_strlit("Q"),
        KeyboardInput::R => reveal_strlit("R"),
        KeyboardInput::S => reveal_strlit("S"),
        KeyboardInput::T => reveal_strlit("T"),
        KeyboardInput::U => reveal_strlit("U"),
        KeyboardInput::V => reveal_strlit("V"),
        KeyboardInput::W => reveal_strlit("W"),
        KeyboardInput::X => reveal_strlit("X"),
        KeyboardInput::Y => reveal_strlit("Y"),
        KeyboardInput::Z => reveal_strlit("Z"),
        KeyboardInput::TopRow1Exclamation => reveal_strlit("TopRow1Exclamation"),
        KeyboardInput::TopRow2At => reveal_strlit("TopRow2At"),
        KeyboardInput::TopRow3Hash => reveal_strlit("TopRow3Hash"),
        KeyboardInput::TopRow4Dollar => reveal_strlit("TopRow4Dollar"),
        KeyboardInput::TopRow5Percent => reveal_strlit("TopRow5Percent"),
        KeyboardInput::TopRow6Caret => reveal_strlit("TopRow6Caret"),
        KeyboardInput::TopRow7Ampersand => reveal_strlit("TopRow7Ampersand"),
        KeyboardInput::TopRow8Asterisk => reveal_strlit("TopRow8Asterisk"),
        KeyboardInput::TopRow9OpenParens => reveal_strlit("TopRow9OpenParens"),
        KeyboardInput::TopRow0CloseParens => reveal_strlit("TopRow0CloseParens"),
        KeyboardInput::Enter => reveal_strlit("Enter"),
        KeyboardInput::Escape => reveal_strlit("Escape"),
        KeyboardInput::Backspace => reveal_strlit("Backspace"),
        KeyboardInput::Tab => reveal_strlit("Tab"),
        KeyboardInput::Spacebar => reveal_strlit("Spacebar"),
        KeyboardInput::DashUnderscore => reveal_strlit("DashUnderscore"),
        KeyboardInput::EqualPlus => reveal_strlit("EqualPlus"),
        KeyboardInput::OpenBracketBrace => reveal_strlit("OpenBracketBrace"),
        KeyboardInput::CloseBracketBrace => reveal_strlit("CloseBracketBrace"),
        KeyboardInput::BackslashBar => reveal_strlit("BackslashBar"),
        KeyboardInput::NonUSHash => reveal_strlit("NonUSHash"),
        KeyboardInput::SemiColon => reveal_strlit("SemiColon"),
        KeyboardInput::SingleDoubleQuote => reveal_strlit("SingleDoubleQuote"),
        KeyboardInput::BacktickTilde => reveal_strlit("BacktickTilde"),
        KeyboardInput::CommaLessThan => reveal_strlit("CommaLessThan"),
        KeyboardInput::PeriodGreaterThan => reveal_strlit("PeriodGreaterThan"),
        KeyboardInput::SlashQuestion => reveal_strlit("SlashQuestion"),
        KeyboardInput::CapsLock => reveal_strlit("CapsLock"),
        KeyboardInput::F1 => reveal_strlit("F1"),
        KeyboardInput::F2 => reveal_strlit("F2"),
        KeyboardInput::F3 => reveal_strlit("F3"),
        KeyboardInput::F4 => reveal_strlit("F4"),
        KeyboardInput::F5 => reveal_strlit("F5"),
        KeyboardInput::F6 => reveal_strlit("F6"),
        KeyboardInput::F7 => reveal_strlit("F7"),
        KeyboardInput::F8 => reveal_strlit("F8"),
        KeyboardInput::F9 => reveal_strlit("F9"),
        KeyboardInput::F10 => reveal_strlit("F10"),
        KeyboardInput::F11 => reveal_strlit("F11"),
        KeyboardInput::F12 => reveal_strlit("F12"),
        KeyboardInput::PrintScreen => reveal_strlit("PrintScreen"),
        KeyboardInput::ScrollLock => reveal_strlit("ScrollLock"),
        KeyboardInput::Pause => reveal_strlit("Pause"),
        KeyboardInput::Insert => reveal_strlit("Insert"),
        KeyboardInput::Home => reveal_strlit("Home"),
        KeyboardInput::PageUp => reveal_strlit("PageUp"),
        KeyboardInput::Delete => reveal_strlit("Delete"),
        KeyboardInput::End => reveal_strlit("End"),
        KeyboardInput::PageDown => reveal_strlit("PageDown"),
        KeyboardInput::RightArrow => reveal_strlit("RightArrow"),
        KeyboardInput::LeftArrow => reveal_strlit("LeftArrow"),
        KeyboardInput::DownArrow => reveal_strlit("DownArrow"),
        KeyboardInput::UpArrow => reveal_strlit("UpArrow"),
        KeyboardInput::KeypadNumLock => reveal_strlit("KeypadNumLock"),
        KeyboardInput::KeypadDivide => reveal_strlit("KeypadDivide"),
        KeyboardInput::KeypadMultiply => reveal_strlit("KeypadMultiply"),
        KeyboardInput::KeypadMinus => reveal_strlit("KeypadMinus"),
        KeyboardInput::KeypadPlus => reveal_strlit("KeypadPlus"),
        KeyboardInput::KeypadEnter => reveal_strlit("KeypadEnter"),
        KeyboardInput::Keypad1End => reveal_strlit("Keypad1End"),
        KeyboardInput::Keypad2DownArrow => reveal_strlit("Keypad2DownArrow"),
        KeyboardInput::Keypad3PageDown => reveal_strlit("Keypad3PageDown"),
        KeyboardInput::Keypad4LeftArrow => reveal_strlit("Keypad4LeftArrow"),
        KeyboardInput::Keypad5 => reveal_strlit("Keypad5"),
        KeyboardInput::Keypad6RightArrow => reveal_strlit("Keypad6RightArrow"),
        KeyboardInput::Keypad7Home => reveal_strlit("Keypad7Home"),
        KeyboardInput::Keypad8UpArrow => reveal_strlit("Keypad8UpArrow"),
        KeyboardInput::Keypad9PageUp => reveal_strlit("Keypad9PageUp"),
        KeyboardInput::Keypad0Insert => reveal_strlit("Keypad0Insert"),
        KeyboardInput::KeypadPeriodDelete => reveal_strlit("KeypadPeriodDelete"),
        KeyboardInput::NonUSSlash => reveal_strlit("NonUSSlash"),
        KeyboardInput::Application => reveal_strlit("Application"),
        KeyboardInput::Power => reveal_strlit("Power"),
        KeyboardInput::KeypadEqual => reveal_strlit("KeypadEqual"),
        KeyboardInput::F13 => reveal_strlit("F13"),
        KeyboardInput::F14 => reveal_strlit("F14"),
        KeyboardInput::F15 => reveal_strlit("F15"),
        KeyboardInput::F16 => reveal_strlit("F16"),
        KeyboardInput::F17 => reveal_strlit("F17"),
        KeyboardInput::F18 => reveal_strlit("F18"),
        KeyboardInput::F19 => reveal_strlit("F19"),
        KeyboardInput::F20 => reveal_strlit("F20"),
        KeyboardInput::F21 => reveal_strlit("F21"),
        KeyboardInput::F22 => reveal_strlit("F22"),
        KeyboardInput::F23 => reveal_strlit("F23"),
        KeyboardInput::F24 => reveal_strlit("F24"),
        KeyboardInput::Execute => reveal_strlit("Execute"),
        KeyboardInput::Help => reveal_strlit("Help"),
        KeyboardInput::Menu => reveal_strlit("Menu"),
        KeyboardInput::Select => reveal_strlit("Select"),
        KeyboardInput::Stop => reveal_strlit("Stop"),
        KeyboardInput::Again => reveal_strlit("Again"),
        KeyboardInput::Undo => reveal_strlit("Undo"),
        KeyboardInput::Cut => reveal_strlit("Cut"),
        KeyboardInput::Copy => reveal_strlit("Copy"),
        KeyboardInput::Paste => reveal_strlit("Paste"),
        KeyboardInput::Find => reveal_strlit("Find"),
        KeyboardInput::Mute => reveal_strlit("Mute"),
        KeyboardInput::VolumeUp => reveal_strlit("VolumeUp"),
        KeyboardInput::VolumeDown => reveal_strlit("VolumeDown"),
        KeyboardInput::LockingCapsLock => reveal_strlit("LockingCapsLock"),
        KeyboardInput::LockingNumLock => reveal_strlit("LockingNumLock"),
        KeyboardInput::LockingScrollLock => reveal_strlit("LockingScrollLock"),
        KeyboardInput::KeypadComma => reveal_strlit("KeypadComma"),
        KeyboardInput::KeypadEqualSign => reveal_strlit("KeypadEqualSign"),
        KeyboardInput::International1 => reveal_strlit("International1"),
        KeyboardInput::International2 => reveal_strlit("International2"),
        KeyboardInput::International3 => reveal_strlit("International3"),
        KeyboardInput::International4 => reveal_strlit("International4"),
        KeyboardInput::International5 => reveal_strlit("International5"),
        KeyboardInput::International6 => reveal_strlit("International6"),
        KeyboardInput::International7 => reveal_strlit("International7"),
        KeyboardInput::International8 => reveal_strlit("International8"),
        KeyboardInput::International9 => reveal_strlit("International9"),
        KeyboardInput::LANG1 => reveal_strlit("LANG1"),
        KeyboardInput::LANG2 => reveal_strlit("LANG2"),
        KeyboardInput::LANG3 => reveal_strlit("LANG3"),
        KeyboardInput::LANG4 => reveal_strlit("LANG4"),
        KeyboardInput::LANG5 => reveal_strlit("LANG5"),
        KeyboardInput::LANG6 => reveal_strlit("LANG6"),
        KeyboardInput::LANG7 => reveal_strlit("LANG7"),
        KeyboardInput::LANG8 => reveal_strlit("LANG8"),
        KeyboardInput::LANG9 => reveal_strlit("LANG9"),
        KeyboardInput::AlternateErase => reveal_strlit("AlternateErase"),
        KeyboardInput::SysReqAttention => reveal_strlit("SysReqAttention"),
        KeyboardInput::Cancel => reveal_strlit("Cancel"),
        KeyboardInput::Clear => reveal_strlit("Clear"),
        KeyboardInput::Prior => reveal_strlit("Prior"),
        KeyboardInput::Return => reveal_strlit("Return"),
        KeyboardInput::Separator => reveal_strlit("Separator"),
        KeyboardInput::Out => reveal_strlit("Out"),
        KeyboardInput::Oper => reveal_strlit("Oper"),
        KeyboardInput::ClearAgain => reveal_strlit("ClearAgain"),
        KeyboardInput::CrSelProps => reveal_strlit("CrSelProps"),
        KeyboardInput::ExSel => reveal_strlit("ExSel"),
        KeyboardInput::LeftControl => reveal_strlit("LeftControl"),
        KeyboardInput::LeftShift => reveal_strlit("LeftShift"),
        KeyboardInput::LeftAlt => reveal_strlit("LeftAlt"),
        KeyboardInput::LeftWindows => reveal_strlit("LeftWindows"),
        KeyboardInput::RightControl => reveal_strlit("RightControl"),
        KeyboardInput::RightShift => reveal_strlit("RightShift"),
        KeyboardInput::RightAlt => reveal_strlit("RightAlt"),
        KeyboardInput::RightWindows => reveal_strlit("RightWindows"),
        KeyboardInput::MediaPlayPause => reveal_strlit("MediaPlayPause"),
        KeyboardInput::MediaPreviousSong => reveal_strlit("MediaPreviousSong"),
        KeyboardInput::MediaNextSong => reveal_strlit("MediaNextSong"),
    }
}

/// Two keys whose names agree in length and in every character are the same key.
#[verifier::spinoff_prover]
proof fn lemma_name_tables_identify_keys(a: KeyboardInput, b: KeyboardInput)
    requires
        name_len(a) == name_len(b),
        forall|i: int| 0 <= i < name_len(a) ==> name_char(a, i) == name_char(b, i),
    ensures
        a == b,
{
    assert(0 < name_len(a) ==> name_char(a, 0) == name_char(b, 0));
    assert(1 < name_len(a) ==> name_char(a, 1) == name_char(b, 1));
    assert(2 < name_len(a) ==> name_char(a, 2) == name_char(b, 2));
    assert(3 < name_len(a) ==> name_char(a, 3) == name_char(b, 3));
    assert(4 < name_len(a) ==> name_char(a, 4) == name_char(b, 4));
    assert(5 < name_len(a) ==> name_char(a, 5) == name_char(b, 5));
    assert(6 < name_len(a) ==> name_char(a, 6) == name_char(b, 6));
    assert(7 < name_len(a) ==> name_char(a, 7) == name_char(b, 7));
    assert(8 < name_len(a) ==> name_char(a, 8) == name_char(b, 8));
    assert(9 < name_len(a) ==> name_char(a, 9) == name_char(b, 9));
    assert(10 < name_len(a) ==> name_char(a, 10) == name_char(b, 10));
    assert(11 < name_len(a) ==> name_char(a, 11) == name_char(b, 11));
    assert(12 < name_len(a) ==> name_char(a, 12) == name_char(b, 12));
    assert(13 < name_len(a) ==> name_char(a, 13) == name_char(b, 13));
    assert(14 < name_len(a) ==> name_char(a, 14) == name_char(b, 14));
    assert(15 < name_len(a) ==> name_char(a, 15) == name_char(b, 15));
    assert(16 < name_len(a) ==> name_char(a, 16) == name_char(b, 16));
    assert(17 < name_len(a) ==> name_char(a, 17) == name_char(b, 17));
}

/// Distinct keys have distinct variant names.
pub proof fn lemma_key_names_are_distinct(a: KeyboardInput, b: KeyboardInput)
    requires
        a.variant_name() == b.variant_name(),
    ensures
        a == b,
{
    lemma_name_chars(a);
    lemma_name_chars(b);
    assert(name_len(a) == name_len(b));
    assert forall|i: int| 0 <= i < name_len(a) implies name_char(a, i) == name_char(b, i) by {
        assert(a.variant_name()[i] == name_char(a, i));
        assert(b.variant_name()[i] == name_char(b, i));
    }
    lemma_name_tables_identify_keys(a, b);
}

proof fn lemma_position_of_key_at(i: u8)
    requires
        i < KEYBOARD_INPUT_COUNT,
    ensures
        keyboard_input_at(i).declaration_index() == i,
{
}

proof fn lemma_first_key_named_from(k: KeyboardInput, i: nat)
    requires
        i <= k.declaration_index(),
    ensures
        keyboard_input_named_from(k.variant_name(), i) == Some(k),
    decreases k.declaration_index() - i,
{
    lemma_keyboard_input_index(k);
    if i < k.declaration_index() {
        let other = keyboard_input_at(i as u8);
        if other.variant_name() == k.variant_name() {
            lemma_key_names_are_distinct(other, k);
            lemma_position_of_key_at(i as u8);
        }
        lemma_first_key_named_from(k, i + 1);
    }
}

/// Reading a key's variant name gives that key back.
pub proof fn lemma_key_names_read_back(k: KeyboardInput)
    ensures
        keyboard_input_named(k.variant_name()) == Some(k),
{
    lemma_first_key_named_from(k, 0);
}

} // verus!
