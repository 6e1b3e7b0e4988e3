//! From keystrokes to commands.
//!
//! A decimal digit selects the track of that number, of the kind the
//! session binds the digit keys to. The interrupt chord, `c` with the
//! control modifier and no other, ends the session. Everything else is not
//! a command.

use vstd::prelude::*;
use crate::model::Command;

verus! {

/// The kind of track the digit keys select in a session.
#[derive(Clone, Copy, Debug, PartialEq, Eq, Structural)]
pub enum DigitBinding {
    Audio,
    Text,
}

/// What the decoder reads of a key event: the character, where the key
/// produces one, and the modifier bits.
#[derive(Clone, Copy, Debug, PartialEq, Eq, Structural)]
pub struct KeyPress {
    pub ch: Option<char>,
    pub modifiers: u8,
}

/// The modifier bits of a key pressed with the control key alone.
pub const CONTROL: u8 = 0x02;

/// The value of a decimal digit, and `None` for any other character.
pub open spec fn digit_of(c: char) -> Option<u32> {
    if '0' <= c && c <= '9' {
        Some((c as u32 - '0' as u32) as u32)
    } else {
        None
    }
}

/// Whether the key is the interrupt chord.
pub open spec fn is_interrupt(key: KeyPress) -> bool {
    key.ch == Some('c') && key.modifiers == CONTROL
}

/// The command a key stands for under `binding`, if any. A digit is a
/// selection whatever the modifiers.
pub open spec fn command_of(key: KeyPress, binding: DigitBinding) -> Option<Command> {
    match key.ch {
        Some(c) => match digit_of(c) {
            Some(d) => Some(
                match binding {
                    DigitBinding::Audio => Command::SelectAudioTrack(d),
                    DigitBinding::Text => Command::SelectTextTrack(d),
                },
            ),
            None => if is_interrupt(key) {
                Some(Command::Quit)
            } else {
                None
            },
        },
        None => None,
    }
}

/// The value of a decimal digit, and `None` for any other character.
pub fn digit_value(c: char) -> (r: Option<u32>)
    ensures
        r == digit_of(c),
        r matches Some(d) ==> d <= 9,
{
    let code: u32 = c as u32;
    if 48 <= code && code <= 57 {
        Some(code - 48)
    } else {
        None
    }
}

/// Decodes one key under `binding`.
pub fn decode_key(key: KeyPress, binding: DigitBinding) -> (r: Option<Command>)
    ensures
        r == command_of(key, binding),
{
    match key.ch {
        Some(c) => match digit_value(c) {
            Some(d) => match binding {
                DigitBinding::Audio => Some(Command::SelectAudioTrack(d)),
                DigitBinding::Text => Some(Command::SelectTextTrack(d)),
            },
            None => if c == 'c' && key.modifiers == CONTROL {
                Some(Command::Quit)
            } else {
                None
            },
        },
        None => None,
    }
}

/// `crossterm::event::KeyEvent`, carried through as an opaque value.
#[verifier::external_type_specification]
#[verifier::external_body]
pub struct ExKeyEvent(crossterm::event::KeyEvent);

/// What `key_press_of` reads of a key event: a function of the event
/// alone.
pub uninterp spec fn key_reading(ev: crossterm::event::KeyEvent) -> KeyPress;

/// Reads a `crossterm::event::KeyEvent`: the character of its
/// `KeyCode::Char` code, if it has one, and what `KeyModifiers::bits`
/// gives for its modifiers. The contract only names that reading; it is
/// not proved, and nothing is claimed of what it is on a given event.
#[verifier::external_body]
fn key_press_of(ev: &crossterm::event::KeyEvent) -> (r: KeyPress)
    ensures
        r == key_reading(*ev),
{
    KeyPress {
        ch: match ev.code {
            crossterm::event::KeyCode::Char(c) => Some(c),
            _ => None,
        },
        modifiers: ev.modifiers.bits(),
    }
}

/// Decodes one key event of the terminal under `binding`: what
/// `decode_key` gives for the character and modifiers read of it.
pub fn decode_key_event(ev: &crossterm::event::KeyEvent, binding: DigitBinding) -> (r: Option<
    Command,
>)
    ensures
        r == command_of(key_reading(*ev), binding),
{
    let key = key_press_of(ev);
    decode_key(key, binding)
}

/// A command that comes from a key is the interrupt, or selects a track
/// below ten of the bound kind.
pub proof fn decoded_commands(key: KeyPress, binding: DigitBinding)
    ensures
        match command_of(key, binding) {
            Some(Command::Quit) => is_interrupt(key),
            Some(Command::SelectAudioTrack(d)) => binding == DigitBinding::Audio && d <= 9,
            Some(Command::SelectTextTrack(d)) => binding == DigitBinding::Text && d <= 9,
            None => true,
        },
{
}

} // verus!
