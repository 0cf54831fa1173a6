//! Keyboard state of a player and the movement direction it asks for.

use vstd::prelude::*;

verus! {

/// Which of the four movement keys are held down this frame.
#[derive(Debug, Clone, Copy, PartialEq, Eq, Structural)]
pub struct PlayerInput {
    pub up: bool,
    pub down: bool,
    pub left: bool,
    pub right: bool,
}

impl Default for PlayerInput {
    /// No key held.
    fn default() -> (r: Self)
        ensures
            !r.up && !r.down && !r.left && !r.right,
    {
        PlayerInput { up: false, down: false, left: false, right: false }
    }
}

/// Horizontal step asked for by the keys: `left` wins over `right`.
pub open spec fn spec_dir_x(input: PlayerInput) -> int {
    if input.left {
        -1
    } else if input.right {
        1
    } else {
        0
    }
}

/// Vertical step asked for by the keys (y grows downwards): `up` wins over `down`.
pub open spec fn spec_dir_y(input: PlayerInput) -> int {
    if input.up {
        -1
    } else if input.down {
        1
    } else {
        0
    }
}

/// The unit direction, one of -1, 0, 1 on each axis, in which the held keys
/// move the player. Later checks override earlier ones, as the keys are read
/// right, left, down, up.
pub fn direction(input: &PlayerInput) -> (r: (i32, i32))
    ensures
        r.0 == spec_dir_x(*input),
        r.1 == spec_dir_y(*input),
{
    let mut x: i32 = 0;
    let mut y: i32 = 0;
    if input.right {
        x = 1;
    }
    if input.left {
        x = -1;
    }
    if input.down {
        y = 1;
    }
    if input.up {
        y = -1;
    }
    (x, y)
}

/// Whether the held keys move the player at all.
pub fn is_moving(input: &PlayerInput) -> (r: bool)
    ensures
        r == (spec_dir_x(*input) != 0 || spec_dir_y(*input) != 0),
{
    let (x, y) = direction(input);
    x != 0 || y != 0
}

/// Each axis reads only its own two keys: the vertical step is the same
/// whatever left and right are, the horizontal one whatever up and down are.
/// The player goes up exactly when up is held, down exactly when down is held
/// without up, left exactly when left is held, right exactly when right is
/// held without left; each step is at most one unit.
pub proof fn lemma_axes_independent(input: PlayerInput, up: bool, down: bool, left: bool, right: bool)
    ensures
        spec_dir_y(PlayerInput { left, right, ..input }) == spec_dir_y(input),
        spec_dir_x(PlayerInput { up, down, ..input }) == spec_dir_x(input),
        (spec_dir_y(input) < 0) == input.up,
        (spec_dir_y(input) > 0) == (input.down && !input.up),
        (spec_dir_x(input) < 0) == input.left,
        (spec_dir_x(input) > 0) == (input.right && !input.left),
        -1 <= spec_dir_x(input) <= 1,
        -1 <= spec_dir_y(input) <= 1,
{
}

} // verus!
