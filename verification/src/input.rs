//! The keys and the pointer, as the tank game reads them.

use vstd::prelude::*;

verus! {

/// The code of the key that drives forward, as the X Window System counts
/// its keys.
pub const KEY_FORWARD: u32 = 25;

/// The code of the key that drives backward.
pub const KEY_BACKWARD: u32 = 39;

/// The code of the key that turns left.
pub const KEY_LEFT: u32 = 38;

/// The code of the key that turns right.
pub const KEY_RIGHT: u32 = 40;

/// The keys that are held down and the place of the mouse pointer, in the
/// window and in the world.
#[derive(Clone, Copy, Debug, PartialEq, Eq, Structural)]
pub struct Input {
    pub forward: bool,
    pub backward: bool,
    pub left: bool,
    pub right: bool,
    pub win_x: i32,
    pub win_y: i32,
    pub world_x: i32,
    pub world_y: i32,
}

impl Input {
    /// The input after the key with the code `code` went down
    /// (`pressed`) or up.
    pub open spec fn with_key(self, pressed: bool, code: u32) -> Input {
        if code == KEY_FORWARD {
            Input { forward: pressed, ..self }
        } else if code == KEY_BACKWARD {
            Input { backward: pressed, ..self }
        } else if code == KEY_LEFT {
            Input { left: pressed, ..self }
        } else if code == KEY_RIGHT {
            Input { right: pressed, ..self }
        } else {
            self
        }
    }

    /// No key held, the pointer at the origin.
    pub fn new() -> (input: Input)
        ensures
            input == (Input {
                forward: false,
                backward: false,
                left: false,
                right: false,
                win_x: 0,
                win_y: 0,
                world_x: 0,
                world_y: 0,
            }),
    {
        Input {
            forward: false,
            backward: false,
            left: false,
            right: false,
            win_x: 0,
            win_y: 0,
            world_x: 0,
            world_y: 0,
        }
    }

    /// Takes note of a key that went down or up. Other keys than the four
    /// of the game change nothing.
    pub fn key_pressed(&mut self, pressed: bool, code: u32)
        ensures
            *final(self) == old(self).with_key(pressed, code),
    {
        if code == KEY_FORWARD {
            self.forward = pressed;
        } else if code == KEY_BACKWARD {
            self.backward = pressed;
        } else if code == KEY_LEFT {
            self.left = pressed;
        } else if code == KEY_RIGHT {
            self.right = pressed;
        }
    }

    /// Takes note of the pointer's new place.
    pub fn mouse_moved(&mut self, win_x: i32, win_y: i32, world_x: i32, world_y: i32)
        ensures
            *final(self) == (Input { win_x, win_y, world_x, world_y, ..*old(self) }),
    {
        self.win_x = win_x;
        self.win_y = win_y;
        self.world_x = world_x;
        self.world_y = world_y;
    }
}

} // verus!
