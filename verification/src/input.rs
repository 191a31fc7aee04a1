//! Keyboard state and how key events change it.

use vstd::prelude::*;

verus! {

/// Value of `KeyInput::y` while the player is to move up.
pub const UP: i32 = -1;

/// Value of `KeyInput::y` while the player is to move down.
pub const DOWN: i32 = 1;

/// The keys the game tells apart.
#[derive(Clone, Copy, Debug, PartialEq, Eq, Structural)]
pub enum Keycode {
    /// Moves the player up.
    W,
    /// Moves the player down.
    S,
    /// Starts a round.
    Space,
    /// Any other key.
    Other,
}

/// What the keyboard currently asks for. `y` is `UP` while the player is to
/// move up, `DOWN` while it is to move down and 0 otherwise; `x` is never set
/// by a key. `start` is set while a round is being played.
#[derive(Clone, Copy, Debug, PartialEq, Eq, Structural)]
pub struct KeyInput {
    pub x: i32,
    pub y: i32,
    pub start: bool,
}

impl KeyInput {
    /// No direction held, no round started.
    pub open spec fn initial() -> KeyInput {
        KeyInput { x: 0, y: 0, start: false }
    }

    /// The state after `keycode` went down.
    pub open spec fn pressed(self, keycode: Keycode) -> KeyInput {
        match keycode {
            Keycode::W => KeyInput { y: UP, ..self },
            Keycode::S => KeyInput { y: DOWN, ..self },
            _ => self,
        }
    }

    /// The state after `keycode` came up.
    pub open spec fn released(self, keycode: Keycode) -> KeyInput {
        match keycode {
            Keycode::W | Keycode::S => KeyInput { y: 0, ..self },
            Keycode::Space => KeyInput { start: true, ..self },
            Keycode::Other => self,
        }
    }

    /// A round is on and the keyboard asks to move up.
    pub open spec fn moves_up(self) -> bool {
        self.x == 0 && self.y == UP && self.start
    }

    /// A round is on and the keyboard asks to move down.
    pub open spec fn moves_down(self) -> bool {
        self.x == 0 && self.y == DOWN && self.start
    }

    /// The state in which no key has been touched yet.
    pub fn new() -> (input: KeyInput)
        ensures
            input == KeyInput::initial(),
    {
        KeyInput { x: 0, y: 0, start: false }
    }

    /// Records that `keycode` went down.
    pub fn key_down_event(&mut self, keycode: Keycode)
        ensures
            *final(self) == old(self).pressed(keycode),
    {
        match keycode {
            Keycode::W => self.y = UP,
            Keycode::S => self.y = DOWN,
            _ => (),
        }
    }

    /// Records that `keycode` came up.
    pub fn key_up_event(&mut self, keycode: Keycode)
        ensures
            *final(self) == old(self).released(keycode),
    {
        match keycode {
            Keycode::W => self.y = 0,
            Keycode::S => self.y = 0,
            Keycode::Space => self.start = true,
            _ => (),
        }
    }
}

} // verus!
