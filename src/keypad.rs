use vstd::prelude::*;

use crate::machine::{Chip8State, Machine, REGISTER_COUNT};

verus! {

/// The keyboard layout of the keypad: the keypad key that a keyboard key (in
/// lower case) stands for. The left four columns of a QWERTY keyboard, rows
/// `1234`, `qwer`, `asdf` and `zxcv`, form the 4x4 keypad.
pub open spec fn keypad_key(c: char) -> Option<u8> {
    match c {
        '1' => Some(0x1u8),
        '2' => Some(0x2u8),
        '3' => Some(0x3u8),
        '4' => Some(0xCu8),
        'q' => Some(0x4u8),
        'w' => Some(0x5u8),
        'e' => Some(0x6u8),
        'r' => Some(0xDu8),
        'a' => Some(0x7u8),
        's' => Some(0x8u8),
        'd' => Some(0x9u8),
        'f' => Some(0xEu8),
        'z' => Some(0xAu8),
        'x' => Some(0x0u8),
        'c' => Some(0xBu8),
        'v' => Some(0xFu8),
        _ => None,
    }
}

/// The keypad key that keyboard key `key` stands for, if any.
pub fn keypad_index(key: char) -> (r: Option<u8>)
    ensures
        r == keypad_key(key),
        r matches Some(k) ==> k < REGISTER_COUNT,
{
    match key {
        '1' => Some(0x1),
        '2' => Some(0x2),
        '3' => Some(0x3),
        '4' => Some(0xC),
        'q' => Some(0x4),
        'w' => Some(0x5),
        'e' => Some(0x6),
        'r' => Some(0xD),
        'a' => Some(0x7),
        's' => Some(0x8),
        'd' => Some(0x9),
        'f' => Some(0xE),
        'z' => Some(0xA),
        'x' => Some(0x0),
        'c' => Some(0xB),
        'v' => Some(0xF),
        _ => None,
    }
}

impl Chip8State {
    /// Records that keyboard key `key` went down (`pressed`) or up; keys
    /// outside the layout change nothing.
    pub fn key_event(&mut self, key: char, pressed: bool)
        requires
            old(self).wf(),
        ensures
            final(self).wf(),
            match keypad_key(key) {
                Some(k) => final(self)@ == (Machine {
                    keys: old(self)@.keys.update(k as int, pressed),
                    ..old(self)@
                }),
                None => final(self)@ == old(self)@,
            },
    {
        match keypad_index(key) {
            Some(k) => self.set_key(k, pressed),
            None => {},
        }
    }

    /// The display cell at `row`, `col`.
    pub fn pixel(&self, row: usize, col: usize) -> (r: bool)
        requires
            self.wf(),
            row < 32,
            col < 64,
        ensures
            r == self@.cell(row as int, col as int),
    {
        self.video_buf[row * 64 + col]
    }
}

} // verus!
