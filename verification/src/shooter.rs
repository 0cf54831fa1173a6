//! The space shooter's decision to bring in a new enemy.

use vstd::prelude::*;

verus! {

/// Calls `macroquad::rand::gen_range::<i32>` (quad-rand's global generator).
/// Trusted: for bounds between 0 and 1024 the result lies in `low..high`;
/// `gen_range` scales a `u32` draw into `[0, 1)` in `f64` and truncates, which
/// at these magnitudes is exact and never reaches `high`. Which value comes is
/// chance.
#[verifier::external_body]
fn gen_range_i32(low: i32, high: i32) -> (r: i32)
    requires
        0 <= low < high <= 1024,
    ensures
        low <= r < high,
{
    macroquad::rand::gen_range(low, high)
}

/// A roll for a new enemy lies in `0..SPAWN_ROLL_RANGE`.
pub const SPAWN_ROLL_RANGE: i32 = 99;

/// Rolls from this value up bring in a new enemy.
pub const SPAWN_THRESHOLD: i32 = 95;

/// Whether a roll brings in a new enemy.
pub fn spawns_enemy(roll: i32) -> (r: bool)
    ensures
        r == (roll >= SPAWN_THRESHOLD),
{
    roll >= SPAWN_THRESHOLD
}

/// Draws a roll in `0..SPAWN_ROLL_RANGE` and answers it with whether it
/// brings in a new enemy. Which roll comes is chance.
pub fn roll_enemy_spawn() -> (r: (i32, bool))
    ensures
        0 <= r.0 < SPAWN_ROLL_RANGE,
        r.1 == (r.0 >= SPAWN_THRESHOLD),
{
    let roll = gen_range_i32(0, SPAWN_ROLL_RANGE);
    (roll, spawns_enemy(roll))
}

/// Of the possible rolls, exactly those from 95 to 98 bring in an enemy:
/// four chances in ninety-nine each frame.
pub proof fn lemma_spawn_rolls(roll: i32)
    requires
        0 <= roll < SPAWN_ROLL_RANGE,
    ensures
        (roll >= SPAWN_THRESHOLD) == (95 <= roll <= 98),
{
}

} // verus!
