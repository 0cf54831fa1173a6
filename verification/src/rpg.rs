//! The decisions of the role-playing game that do not depend on where things
//! are: which way the player faces, which animation each sprite plays, when
//! attacks happen, and the player's health.

use crate::animations::{
    player_table, playable, slime_table, PLAYER_ATTACK_BACK, PLAYER_ATTACK_FRONT,
    PLAYER_ATTACK_SIDE, PLAYER_DEATH, PLAYER_IDLE_BACK, PLAYER_IDLE_FRONT, PLAYER_IDLE_SIDE,
    PLAYER_MOVE_BACK, PLAYER_MOVE_FRONT, PLAYER_MOVE_SIDE, SLIME_ATTACK, SLIME_IDLE, SLIME_MOVE,
};
use crate::input::PlayerInput;
use vstd::prelude::*;

verus! {

/// The way a character faces.
#[derive(Debug, Clone, Copy, PartialEq, Eq, Structural)]
pub enum Dir {
    Up,
    Down,
    Left,
    Right,
}

/// The standing animation for a facing.
pub open spec fn idle_animation_spec(dir: Dir) -> usize {
    match dir {
        Dir::Up => PLAYER_IDLE_BACK,
        Dir::Down => PLAYER_IDLE_FRONT,
        Dir::Left => PLAYER_IDLE_SIDE,
        Dir::Right => PLAYER_IDLE_SIDE,
    }
}

/// The walking animation for a facing.
pub open spec fn move_animation_spec(dir: Dir) -> usize {
    match dir {
        Dir::Up => PLAYER_MOVE_BACK,
        Dir::Down => PLAYER_MOVE_FRONT,
        Dir::Left => PLAYER_MOVE_SIDE,
        Dir::Right => PLAYER_MOVE_SIDE,
    }
}

/// The attack animation for a facing.
pub open spec fn attack_animation_spec(dir: Dir) -> usize {
    match dir {
        Dir::Up => PLAYER_ATTACK_BACK,
        Dir::Down => PLAYER_ATTACK_FRONT,
        Dir::Left => PLAYER_ATTACK_SIDE,
        Dir::Right => PLAYER_ATTACK_SIDE,
    }
}

/// The standing animation for a facing.
pub fn idle_animation(dir: Dir) -> (r: usize)
    ensures
        r == idle_animation_spec(dir),
{
    match dir {
        Dir::Up => PLAYER_IDLE_BACK,
        Dir::Down => PLAYER_IDLE_FRONT,
        Dir::Left => PLAYER_IDLE_SIDE,
        Dir::Right => PLAYER_IDLE_SIDE,
    }
}

/// The walking animation for a facing.
pub fn move_animation(dir: Dir) -> (r: usize)
    ensures
        r == move_animation_spec(dir),
{
    match dir {
        Dir::Up => PLAYER_MOVE_BACK,
        Dir::Down => PLAYER_MOVE_FRONT,
        Dir::Left => PLAYER_MOVE_SIDE,
        Dir::Right => PLAYER_MOVE_SIDE,
    }
}

/// The attack animation for a facing.
pub fn attack_animation(dir: Dir) -> (r: usize)
    ensures
        r == attack_animation_spec(dir),
{
    match dir {
        Dir::Up => PLAYER_ATTACK_BACK,
        Dir::Down => PLAYER_ATTACK_FRONT,
        Dir::Left => PLAYER_ATTACK_SIDE,
        Dir::Right => PLAYER_ATTACK_SIDE,
    }
}

/// The directions of the held keys, in the order the game reads them:
/// up, down, left, right.
pub open spec fn pressed_dirs(keys: PlayerInput) -> Seq<Dir> {
    (if keys.up { seq![Dir::Up] } else { Seq::empty() })
        + (if keys.down { seq![Dir::Down] } else { Seq::empty() })
        + (if keys.left { seq![Dir::Left] } else { Seq::empty() })
        + (if keys.right { seq![Dir::Right] } else { Seq::empty() })
}

/// The animations the player's sprite is switched to during a movement
/// step, in order: the standing animation of the old facing unless an attack
/// is playing, then the walking animation of each held key.
pub open spec fn movement_animations_spec(is_attacking: bool, facing: Dir, keys: PlayerInput) -> Seq<usize> {
    (if is_attacking { Seq::empty() } else { seq![idle_animation_spec(facing)] })
        + pressed_dirs(keys).map_values(|d: Dir| move_animation_spec(d))
}

/// What a frame of movement does to the player, short of moving it.
pub struct MoveStep {
    /// The facing after the step: that of the last key read, or the old one.
    pub facing: Dir,
    /// Whether the sprite is drawn mirrored after the step; `None` keeps it.
    pub flip: Option<bool>,
    /// The animations to switch the sprite to, in order.
    pub animations: Vec<usize>,
    /// One step of the player's speed in each of these directions, in order.
    pub steps: Vec<Dir>,
}

/// One frame of the player's movement: with the player facing `facing`, an
/// attack playing or not, and `keys` held, each held key turns the player its
/// way, switches to its walking animation, sets the mirroring (only left is
/// mirrored) and moves the player one step.
pub fn movement_step(is_attacking: bool, facing: Dir, keys: &PlayerInput) -> (r: MoveStep)
    ensures
        r.steps@ == pressed_dirs(*keys),
        r.animations@ == movement_animations_spec(is_attacking, facing, *keys),
        r.facing == (if r.steps@.len() == 0 { facing } else { r.steps@.last() }),
        r.flip == (if r.steps@.len() == 0 { None } else { Some(r.steps@.last() == Dir::Left) }),
{
    let mut animations: Vec<usize> = Vec::new();
    let mut steps: Vec<Dir> = Vec::new();
    let mut dir = facing;
    let mut flip: Option<bool> = None;
    if !is_attacking {
        animations.push(idle_animation(facing));
    }
    if keys.up {
        dir = Dir::Up;
        animations.push(move_animation(Dir::Up));
        flip = Some(false);
        steps.push(Dir::Up);
    }
    if keys.down {
        dir = Dir::Down;
        animations.push(move_animation(Dir::Down));
        flip = Some(false);
        steps.push(Dir::Down);
    }
    if keys.left {
        dir = Dir::Left;
        animations.push(move_animation(Dir::Left));
        flip = Some(true);
        steps.push(Dir::Left);
    }
    if keys.right {
        dir = Dir::Right;
        animations.push(move_animation(Dir::Right));
        flip = Some(false);
        steps.push(Dir::Right);
    }
    assert(steps@ =~= pressed_dirs(*keys));
    assert(animations@ =~= movement_animations_spec(is_attacking, facing, *keys));
    MoveStep { facing: dir, flip, animations, steps }
}

/// Whether the player starts an attack: the cooldown has run out and the
/// attack key is held.
pub fn starts_attack(cooldown_done: bool, attack_key: bool) -> (r: bool)
    ensures
        r == (cooldown_done && attack_key),
{
    cooldown_done && attack_key
}

/// Whether the player is still attacking: an attack animation is playing
/// and has not reached its last frame.
pub fn attack_in_progress(current_animation: usize, on_last_frame: bool) -> (r: bool)
    ensures
        r == ((current_animation == PLAYER_ATTACK_FRONT || current_animation == PLAYER_ATTACK_SIDE
            || current_animation == PLAYER_ATTACK_BACK) && !on_last_frame),
{
    match current_animation {
        6 | 7 | 8 => !on_last_frame,
        _ => false,
    }
}

/// Whether an enemy hits the player this frame: the player is within its
/// sensor, its cooldown has run out and its hitbox touches the player's.
pub fn enemy_attacks(in_sensor: bool, cooldown_done: bool, touches_player: bool) -> (r: bool)
    ensures
        r == (in_sensor && cooldown_done && touches_player),
{
    if !in_sensor {
        return false;
    }
    cooldown_done && touches_player
}

/// The animations an enemy's sprite is switched to during its turn, in
/// order: the attack animation when it hits the player, the moving one
/// otherwise, then the standing one when it does not move.
pub open spec fn enemy_turn_animations_spec(attacking: bool, moving: bool) -> Seq<usize> {
    seq![if attacking { SLIME_ATTACK } else { SLIME_MOVE }] + (if moving { Seq::empty() } else { seq![SLIME_IDLE] })
}

/// The animations an enemy's sprite is switched to during its turn.
pub fn enemy_turn_animations(attacking: bool, moving: bool) -> (r: Vec<usize>)
    ensures
        r@ == enemy_turn_animations_spec(attacking, moving),
{
    let mut r: Vec<usize> = Vec::new();
    if attacking {
        r.push(SLIME_ATTACK);
    } else {
        r.push(SLIME_MOVE);
    }
    if !moving {
        r.push(SLIME_IDLE);
    }
    assert(r@ =~= enemy_turn_animations_spec(attacking, moving));
    r
}

/// The player's full health.
pub const MAX_HEALTH: u32 = 100;

/// What one enemy hit takes off.
pub const HIT_DAMAGE: u32 = 10;

/// Health after `hits` hits from `health`: each hit takes ten points off
/// while any are left.
pub open spec fn health_after_hits(health: int, hits: int) -> int
    decreases hits,
{
    if hits <= 0 || health <= 0 {
        health
    } else {
        health_after_hits(health - HIT_DAMAGE, hits - 1)
    }
}

/// The player's health and whether it is alive.
pub struct Vitals {
    health: u32,
    is_alive: bool,
}

impl Vitals {
    /// Health is a multiple of ten up to the full hundred, and the player is
    /// alive exactly when some is left.
    #[verifier::type_invariant]
    spec fn wf(self) -> bool {
        &&& self.health <= MAX_HEALTH
        &&& self.health % HIT_DAMAGE == 0
        &&& self.is_alive == (self.health > 0)
    }

    pub closed spec fn spec_health(&self) -> u32 {
        self.health
    }

    pub closed spec fn spec_is_alive(&self) -> bool {
        self.is_alive
    }

    /// A player at full health.
    pub fn new() -> (r: Self)
        ensures
            r.spec_health() == MAX_HEALTH,
            r.spec_is_alive(),
    {
        Vitals { health: MAX_HEALTH, is_alive: true }
    }

    /// The health left: a multiple of ten up to the full hundred, above
    /// nothing exactly while the player is alive.
    pub fn health(&self) -> (r: u32)
        ensures
            r == self.spec_health(),
            r <= MAX_HEALTH,
            r % HIT_DAMAGE == 0,
            self.spec_is_alive() == (r > 0),
    {
        proof {
            use_type_invariant(self);
        }
        self.health
    }

    /// Whether the player is alive: exactly when some health is left.
    pub fn is_alive(&self) -> (r: bool)
        ensures
            r == self.spec_is_alive(),
            r == (self.spec_health() > 0),
    {
        proof {
            use_type_invariant(self);
        }
        self.is_alive
    }

    /// The "second wind": a dead player that holds the revive key is back at
    /// full health. Answers whether that happened; otherwise nothing changes.
    pub fn second_wind(&mut self, revive_key: bool) -> (r: bool)
        ensures
            final(self).spec_is_alive() == (final(self).spec_health() > 0),
            r == (!old(self).spec_is_alive() && revive_key),
            r ==> final(self).spec_health() == MAX_HEALTH && final(self).spec_is_alive(),
            !r ==> final(self).spec_health() == old(self).spec_health() && final(self).spec_is_alive()
                == old(self).spec_is_alive(),
    {
        proof {
            use_type_invariant(&*self);
        }
        if !self.is_alive && revive_key {
            *self = Vitals { health: MAX_HEALTH, is_alive: true };
            true
        } else {
            false
        }
    }

    /// The enemy hits of a frame, in order: each hit that finds health left
    /// takes ten points and knocks the player back. Answers the health after
    /// each of those hits (so their number is the number of knockbacks); the
    /// player is dead afterwards exactly when no health is left.
    pub fn take_hits(&mut self, hits: usize) -> (r: Vec<u32>)
        ensures
            final(self).spec_is_alive() == (final(self).spec_health() > 0),
            final(self).spec_health() == health_after_hits(old(self).spec_health() as int, hits as int),
            r@.len() == (if hits * HIT_DAMAGE <= old(self).spec_health() { hits as int } else {
                old(self).spec_health() as int / 10 }),
            forall|i: int|
                0 <= i < r@.len() ==> #[trigger] r@[i] == old(self).spec_health() - HIT_DAMAGE * (i + 1),
    {
        proof {
            use_type_invariant(&*self);
        }
        let ghost h0 = self.health as int;
        let mut health: u32 = self.health;
        let mut after: Vec<u32> = Vec::new();
        let mut i: usize = 0;
        while i < hits
            invariant
                0 <= i <= hits,
                health <= MAX_HEALTH,
                health % HIT_DAMAGE == 0,
                h0 <= MAX_HEALTH,
                h0 % 10 == 0,
                health == (if i * HIT_DAMAGE <= h0 { h0 - i * HIT_DAMAGE } else { 0 }),
                health_after_hits(h0, hits as int) == health_after_hits(health as int, hits - i),
                after@.len() == (if i * HIT_DAMAGE <= h0 { i as int } else { h0 / 10 }),
                forall|j: int| 0 <= j < after@.len() ==> #[trigger] after@[j] == h0 - HIT_DAMAGE * (j + 1),
            decreases hits - i,
        {
            if health != 0 {
                health = health - HIT_DAMAGE;
                after.push(health);
            }
            i = i + 1;
        }
        let is_alive = if health == 0 { false } else { self.is_alive };
        *self = Vitals { health, is_alive };
        after
    }
}

/// Facings that differ only in mirroring (left and right) get the same
/// standing, walking and attack animations, and each facing gets the
/// animation of its view on the sheet: seen from behind when facing up, from
/// the front when facing down, from the side when facing left or right.
pub proof fn lemma_animations_follow_facing()
    ensures
        idle_animation_spec(Dir::Left) == idle_animation_spec(Dir::Right),
        move_animation_spec(Dir::Left) == move_animation_spec(Dir::Right),
        attack_animation_spec(Dir::Left) == attack_animation_spec(Dir::Right),
        idle_animation_spec(Dir::Up) < player_table().len()
            && player_table()[idle_animation_spec(Dir::Up) as int].0 == "idle_back"@,
        idle_animation_spec(Dir::Down) < player_table().len()
            && player_table()[idle_animation_spec(Dir::Down) as int].0 == "idle_front"@,
        idle_animation_spec(Dir::Right) < player_table().len()
            && player_table()[idle_animation_spec(Dir::Right) as int].0 == "idle_side"@,
        move_animation_spec(Dir::Up) < player_table().len()
            && player_table()[move_animation_spec(Dir::Up) as int].0 == "move_back"@,
        move_animation_spec(Dir::Down) < player_table().len()
            && player_table()[move_animation_spec(Dir::Down) as int].0 == "move_front"@,
        move_animation_spec(Dir::Right) < player_table().len()
            && player_table()[move_animation_spec(Dir::Right) as int].0 == "move_side"@,
        attack_animation_spec(Dir::Up) < player_table().len()
            && player_table()[attack_animation_spec(Dir::Up) as int].0 == "attack_back"@,
        attack_animation_spec(Dir::Down) < player_table().len()
            && player_table()[attack_animation_spec(Dir::Down) as int].0 == "attack_front"@,
        attack_animation_spec(Dir::Right) < player_table().len()
            && player_table()[attack_animation_spec(Dir::Right) as int].0 == "attack_side"@,
{
}

/// A movement step switches the sprite, when no attack plays, first to the
/// standing animation of the facing the player had (the same one
/// `idle_animation` gives), then to the walking animation of each step in
/// turn; with no attack and no key held that standing animation is all. The
/// steps are the held keys' directions, each once, in the order up, down,
/// left, right.
pub proof fn lemma_movement_step_animations(is_attacking: bool, facing: Dir, keys: PlayerInput)
    ensures
        ({
            let anims = movement_animations_spec(is_attacking, facing, keys);
            let steps = pressed_dirs(keys);
            let first = if is_attacking { 0int } else { 1int };
            &&& anims.len() == first + steps.len()
            &&& !is_attacking ==> anims[0] == idle_animation_spec(facing)
            &&& forall|i: int| 0 <= i < steps.len() ==> #[trigger] anims[first + i] == move_animation_spec(steps[i])
            &&& steps.contains(Dir::Up) == keys.up
            &&& steps.contains(Dir::Down) == keys.down
            &&& steps.contains(Dir::Left) == keys.left
            &&& steps.contains(Dir::Right) == keys.right
            &&& steps.len() == (if keys.up { 1int } else { 0 }) + (if keys.down { 1int } else { 0 })
                + (if keys.left { 1int } else { 0 }) + (if keys.right { 1int } else { 0 })
            &&& forall|i: int, j: int| 0 <= i < j < steps.len() ==> dir_order(#[trigger] steps[i]) < dir_order(#[trigger] steps[j])
        }),
        !is_attacking && !keys.up && !keys.down && !keys.left && !keys.right ==> movement_animations_spec(is_attacking, facing, keys) == seq![idle_animation_spec(facing)],
{
    let steps = pressed_dirs(keys);
    let up = if keys.up { seq![Dir::Up] } else { Seq::<Dir>::empty() };
    let down = if keys.down { seq![Dir::Down] } else { Seq::<Dir>::empty() };
    let left = if keys.left { seq![Dir::Left] } else { Seq::<Dir>::empty() };
    let right = if keys.right { seq![Dir::Right] } else { Seq::<Dir>::empty() };
    assert(steps =~= up + down + left + right);
    if keys.up {
        assert(steps[0] == Dir::Up);
    }
    if keys.down {
        assert(steps[up.len() as int] == Dir::Down);
    }
    if keys.left {
        assert(steps[(up.len() + down.len()) as int] == Dir::Left);
    }
    if keys.right {
        assert(steps[(up.len() + down.len() + left.len()) as int] == Dir::Right);
    }
    assert forall|d: Dir| #![auto] steps.contains(d) implies (d == Dir::Up && keys.up) || (d == Dir::Down && keys.down) || (d == Dir::Left && keys.left) || (d == Dir::Right && keys.right) by {
        let k = choose|k: int| 0 <= k < steps.len() && steps[k] == d;
    }
    assert forall|i: int, j: int| 0 <= i < j < steps.len() implies dir_order(#[trigger] steps[i]) < dir_order(#[trigger] steps[j]) by {
    }
}

/// The place of a direction in the order the keys are read.
pub open spec fn dir_order(d: Dir) -> int {
    match d {
        Dir::Up => 0,
        Dir::Down => 1,
        Dir::Left => 2,
        Dir::Right => 3,
    }
}

/// Every animation the movement step, the attack and the death ask of the
/// player's sprite is one of its sheet, and has frames; every animation an
/// enemy's turn ends on is one of the slime's sheet, and has frames.
pub proof fn lemma_animations_in_sheets(is_attacking: bool, facing: Dir, keys: PlayerInput, attacking: bool, moving: bool)
    ensures
        forall|i: int|
            0 <= i < movement_animations_spec(is_attacking, facing, keys).len() ==> {
                let a = #[trigger] movement_animations_spec(is_attacking, facing, keys)[i];
                a < player_table().len() && player_table()[a as int].2 > 0
            },
        attack_animation_spec(facing) < player_table().len(),
        player_table()[attack_animation_spec(facing) as int].2 > 0,
        PLAYER_DEATH < player_table().len(),
        forall|i: int|
            0 <= i < enemy_turn_animations_spec(attacking, moving).len() ==> {
                let a = #[trigger] enemy_turn_animations_spec(attacking, moving)[i];
                a < slime_table().len() && slime_table()[a as int].2 > 0
            },
{
    crate::animations::lemma_tables_playable();
    assert(playable(player_table()));
    assert(playable(slime_table()));
}

/// Health stays a multiple of ten between nothing and the full hundred
/// however many hits land, so a hit never takes more than is left; ten hits
/// from full health kill the player.
pub proof fn lemma_hits_never_overdraw(health: int, hits: int)
    requires
        0 <= health <= MAX_HEALTH,
        health % 10 == 0,
        hits >= 0,
    ensures
        0 <= health_after_hits(health, hits) <= health,
        health_after_hits(health, hits) % 10 == 0,
        health_after_hits(health, hits) == (if hits * 10 <= health { health - hits * 10 } else { 0 }),
        health_after_hits(MAX_HEALTH as int, 10) == 0,
        health_after_hits(MAX_HEALTH as int, 9) == 10,
    decreases hits,
{
    if hits > 0 && health > 0 {
        lemma_hits_never_overdraw(health - 10, hits - 1);
    }
    reveal_with_fuel(health_after_hits, 11);
}

} // verus!
