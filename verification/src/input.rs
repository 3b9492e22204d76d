//! The keypad: which of the sixteen keys are down, given the key codes that
//! the keyboard reports.
//!
//! The keypad is laid out on the left of a QWERTY keyboard:
//!
//! ```text
//! 1 2 3 4        1 2 3 C
//! q w e r   ->   4 5 6 D
//! a s d f        7 8 9 E
//! z x c v        A 0 B F
//! ```
//!
//! Key codes are those of SDL, where a printable key has the code of its
//! character.

use vstd::prelude::*;

verus! {

/// What one reading of the keyboard gave: whether the user asked to quit,
/// and the codes of the keys that are down.
pub struct Input {
    pub quit: bool,
    pub pressed: Vec<i32>,
}

/// The keypad key that a key code stands for, if it stands for one.
pub open spec fn key_of(code: i32) -> Option<u8> {
    if code == 49 {
        Some(0x1u8)
    } else if code == 50 {
        Some(0x2u8)
    } else if code == 51 {
        Some(0x3u8)
    } else if code == 52 {
        Some(0xCu8)
    } else if code == 113 {
        Some(0x4u8)
    } else if code == 119 {
        Some(0x5u8)
    } else if code == 101 {
        Some(0x6u8)
    } else if code == 114 {
        Some(0xDu8)
    } else if code == 97 {
        Some(0x7u8)
    } else if code == 115 {
        Some(0x8u8)
    } else if code == 100 {
        Some(0x9u8)
    } else if code == 102 {
        Some(0xEu8)
    } else if code == 122 {
        Some(0xAu8)
    } else if code == 120 {
        Some(0x0u8)
    } else if code == 99 {
        Some(0xBu8)
    } else if code == 118 {
        Some(0xFu8)
    } else {
        None
    }
}

/// Keypad key `key` is down: one of the codes in `pressed` stands for it.
pub open spec fn is_pressed(pressed: Seq<i32>, key: u8) -> bool {
    exists|j: int| 0 <= j < pressed.len() && key_of(#[trigger] pressed[j]) == Some(key)
}

/// The key state for the codes in `pressed`: 1 for each key that is down,
/// 0 for the others.
pub open spec fn key_state(pressed: Seq<i32>) -> Seq<u8> {
    Seq::new(
        16,
        |key: int|
            if is_pressed(pressed, key as u8) {
                1u8
            } else {
                0u8
            },
    )
}

/// The keypad key that a key code stands for, if it stands for one.
pub fn key_index(code: i32) -> (key: Option<u8>)
    ensures
        key == key_of(code),
        key matches Some(k) ==> k < 16,
{
    match code {
        49 => Some(0x1),
        50 => Some(0x2),
        51 => Some(0x3),
        52 => Some(0xC),
        113 => Some(0x4),
        119 => Some(0x5),
        101 => Some(0x6),
        114 => Some(0xD),
        97 => Some(0x7),
        115 => Some(0x8),
        100 => Some(0x9),
        102 => Some(0xE),
        122 => Some(0xA),
        120 => Some(0x0),
        99 => Some(0xB),
        118 => Some(0xF),
        _ => None,
    }
}

impl Input {
    pub fn new(quit: bool, pressed: Vec<i32>) -> (r: Self)
        ensures
            r.quit == quit,
            r.pressed == pressed,
    {
        Input { quit, pressed }
    }

    /// The key state to hand to the next step, or `None` where the user
    /// asked to quit.
    pub fn poll(&self) -> (r: Option<[u8; 16]>)
        ensures
            self.quit ==> r is None,
            !self.quit ==> (r matches Some(keys) && keys@ == key_state(self.pressed@)),
    {
        if self.quit {
            return None;
        }
        let mut keys = [0u8;16];
        let mut j: usize = 0;
        while j < self.pressed.len()
            invariant
                j <= self.pressed.len(),
                keys@ == key_state(self.pressed@.take(j as int)),
            decreases self.pressed.len() - j,
        {
            let ghost before = self.pressed@.take(j as int);
            let ghost after = self.pressed@.take(j + 1);
            let code = self.pressed[j];
            match key_index(code) {
                Some(key) => {
                    keys[key as usize] = 1;
                },
                None => {},
            }
            proof {
                assert(after[j as int] == code);
                assert forall|key: u8|
                    is_pressed(after, key) <==> is_pressed(before, key) || key_of(code) == Some(
                        key,
                    ) by {
                    if is_pressed(before, key) {
                        let w = choose|w: int|
                            0 <= w < before.len() && key_of(#[trigger] before[w]) == Some(key);
                        assert(after[w] == before[w]);
                    }
                    if is_pressed(after, key) {
                        let w = choose|w: int|
                            0 <= w < after.len() && key_of(#[trigger] after[w]) == Some(key);
                        if w < j {
                            assert(before[w] == after[w]);
                        }
                    }
                }
                assert(keys@ =~= key_state(after));
            }
            j += 1;
        }
        assert(self.pressed@.take(j as int) == self.pressed@);
        Some(keys)
    }
}

} // verus!
