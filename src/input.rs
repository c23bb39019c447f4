use vstd::arithmetic::power2::{lemma2_to64, pow2};
use vstd::prelude::*;

use crate::display::Rgb;

verus! {

/// The sixteen keys of the keypad: the hexadecimal digits.
#[derive(Debug, Clone, Copy, PartialEq, Eq, Structural)]
pub enum Key {
    Num0,
    Num1,
    Num2,
    Num3,
    Num4,
    Num5,
    Num6,
    Num7,
    Num8,
    Num9,
    A,
    B,
    C,
    D,
    E,
    F,
}

/// The digit that a key stands for, which is also its bit in the bitmask.
pub open spec fn key_digit(k: Key) -> nat {
    match k {
        Key::Num0 => 0,
        Key::Num1 => 1,
        Key::Num2 => 2,
        Key::Num3 => 3,
        Key::Num4 => 4,
        Key::Num5 => 5,
        Key::Num6 => 6,
        Key::Num7 => 7,
        Key::Num8 => 8,
        Key::Num9 => 9,
        Key::A => 10,
        Key::B => 11,
        Key::C => 12,
        Key::D => 13,
        Key::E => 14,
        Key::F => 15,
    }
}

impl Key {
    /// The bitmask with this key's bit alone set.
    pub fn mask(self) -> (r: u16)
        ensures
            r as nat == pow2(key_digit(self)),
    {
        proof {
            lemma2_to64();
        }
        match self {
            Key::Num0 => 0x01,
            Key::Num1 => 0x02,
            Key::Num2 => 0x04,
            Key::Num3 => 0x08,
            Key::Num4 => 0x10,
            Key::Num5 => 0x20,
            Key::Num6 => 0x40,
            Key::Num7 => 0x80,
            Key::Num8 => 0x100,
            Key::Num9 => 0x200,
            Key::A => 0x400,
            Key::B => 0x800,
            Key::C => 0x1000,
            Key::D => 0x2000,
            Key::E => 0x4000,
            Key::F => 0x8000,
        }
    }
}

/// The bitmask for an input event: the key's bit, or none for an event that is
/// not one of the sixteen keys.
pub fn key_mask(key: Option<Key>) -> (r: u16)
    ensures
        match key {
            Some(k) => r as nat == pow2(key_digit(k)),
            None => r == 0,
        },
{
    match key {
        Some(k) => k.mask(),
        None => 0,
    }
}

/// What the user interface hands to the executor.
#[derive(Debug, Clone, Copy, PartialEq, Eq, Structural)]
pub enum Event {
    Draw(u32, u32, Rgb),
    KeyEvent(u16),
    Shutdown,
}

/// What the executor does with one polled event.
#[derive(Debug, Clone, Copy, PartialEq, Eq, Structural)]
pub enum FrameAction {
    /// Run a frame, with the bitmask to inject first, if any.
    Run(Option<u16>),
    /// Leave the loop before running another batch.
    Stop,
}

/// Decides the next frame from the event polled before it, if one was pending:
/// a shutdown stops the loop, a key event's bitmask is injected, anything else
/// runs the frame with the input register as it is.
pub fn next_action(event: Option<Event>) -> (a: FrameAction)
    ensures
        a == match event {
            Some(Event::Shutdown) => FrameAction::Stop,
            Some(Event::KeyEvent(v)) => FrameAction::Run(Some(v)),
            _ => FrameAction::Run(None),
        },
{
    match event {
        Some(Event::Shutdown) => FrameAction::Stop,
        Some(Event::KeyEvent(v)) => FrameAction::Run(Some(v)),
        _ => FrameAction::Run(None),
    }
}

} // verus!
