//! The sprite sheets of the games: which row of a sheet holds which
//! animation, how many frames it has and how fast it plays, and the macroquad
//! sprites built from them.

use macroquad::experimental::animation::{AnimatedSprite, Animation};
use vstd::prelude::*;

verus! {

#[verifier::external_type_specification]
#[verifier::external_body]
pub struct ExAnimatedSprite(AnimatedSprite);

/// One animation of a sprite sheet: its name, the sheet row that holds its
/// frames, the number of frames and the frames shown per second.
#[derive(Debug, Clone)]
pub struct AnimationSpec {
    pub name: String,
    pub row: u32,
    pub frames: u32,
    pub fps: u32,
}

impl View for AnimationSpec {
    type V = (Seq<char>, u32, u32, u32);

    open spec fn view(&self) -> (Seq<char>, u32, u32, u32) {
        (self.name@, self.row, self.frames, self.fps)
    }
}

/// The views of a list of animations.
pub open spec fn table_view(anims: Seq<AnimationSpec>) -> Seq<(Seq<char>, u32, u32, u32)> {
    anims.map_values(|a: AnimationSpec| a@)
}

/// Every animation of the table has at least one frame and plays at least
/// one frame per second, so a sprite built from it can switch to any of its
/// animations.
pub open spec fn playable(table: Seq<(Seq<char>, u32, u32, u32)>) -> bool {
    forall|i: int| 0 <= i < table.len() ==> #[trigger] table[i].2 > 0 && table[i].3 > 0
}

fn animation(name: &str, row: u32, frames: u32, fps: u32) -> (r: AnimationSpec)
    ensures
        r@ == (name@, row, frames, fps),
{
    AnimationSpec { name: name.to_owned(), row, frames, fps }
}

/// Index of the player's standing animation facing the camera.
pub const PLAYER_IDLE_FRONT: usize = 0;
/// Index of the player's standing animation seen from the side.
pub const PLAYER_IDLE_SIDE: usize = 1;
/// Index of the player's standing animation seen from behind.
pub const PLAYER_IDLE_BACK: usize = 2;
/// Index of the player's walking animation towards the camera.
pub const PLAYER_MOVE_FRONT: usize = 3;
/// Index of the player's walking animation seen from the side.
pub const PLAYER_MOVE_SIDE: usize = 4;
/// Index of the player's walking animation away from the camera.
pub const PLAYER_MOVE_BACK: usize = 5;
/// Index of the player's attack towards the camera.
pub const PLAYER_ATTACK_FRONT: usize = 6;
/// Index of the player's attack to the side.
pub const PLAYER_ATTACK_SIDE: usize = 7;
/// Index of the player's attack away from the camera.
pub const PLAYER_ATTACK_BACK: usize = 8;
/// Index of the player's death animation.
pub const PLAYER_DEATH: usize = 9;

/// Index of the slime's standing animation.
pub const SLIME_IDLE: usize = 0;
/// Index of the slime's moving animation.
pub const SLIME_MOVE: usize = 1;
/// Index of the slime's attack.
pub const SLIME_ATTACK: usize = 2;

/// The player's sheet (48 by 48 pixel tiles).
pub open spec fn player_table() -> Seq<(Seq<char>, u32, u32, u32)> {
    seq![
        ("idle_front"@, 0u32, 6u32, 6u32),
        ("idle_side"@, 1u32, 6u32, 6u32),
        ("idle_back"@, 2u32, 6u32, 6u32),
        ("move_front"@, 3u32, 6u32, 6u32),
        ("move_side"@, 4u32, 6u32, 6u32),
        ("move_back"@, 5u32, 6u32, 6u32),
        ("attack_front"@, 6u32, 4u32, 8u32),
        ("attack_side"@, 7u32, 4u32, 8u32),
        ("attack_back"@, 8u32, 4u32, 8u32),
        ("death"@, 9u32, 3u32, 3u32),
    ]
}

/// The slime's sheet (32 by 32 pixel tiles).
pub open spec fn slime_table() -> Seq<(Seq<char>, u32, u32, u32)> {
    seq![
        ("idle_side"@, 1u32, 4u32, 4u32),
        ("move_side"@, 4u32, 6u32, 6u32),
        ("attack_front"@, 6u32, 7u32, 7u32),
    ]
}

/// The sheep's sheet (128 by 128 pixel tiles).
pub open spec fn sheep_table() -> Seq<(Seq<char>, u32, u32, u32)> {
    seq![("idle"@, 1u32, 8u32, 8u32), ("bouncing"@, 2u32, 6u32, 6u32)]
}

/// The tree's sheet (192 by 192 pixel tiles).
pub open spec fn tree_table() -> Seq<(Seq<char>, u32, u32, u32)> {
    seq![("original"@, 0u32, 1u32, 1u32), ("idle"@, 1u32, 4u32, 1u32)]
}

/// The animations of the player's sheet, in the order of the `PLAYER_*` indices.
pub fn player_animations() -> (r: Vec<AnimationSpec>)
    ensures
        table_view(r@) == player_table(),
{
    let r = vec![
        animation("idle_front", 0, 6, 6),
        animation("idle_side", 1, 6, 6),
        animation("idle_back", 2, 6, 6),
        animation("move_front", 3, 6, 6),
        animation("move_side", 4, 6, 6),
        animation("move_back", 5, 6, 6),
        animation("attack_front", 6, 4, 8),
        animation("attack_side", 7, 4, 8),
        animation("attack_back", 8, 4, 8),
        animation("death", 9, 3, 3),
    ];
    assert(table_view(r@) =~= player_table());
    r
}

/// The animations of the slime's sheet, in the order of the `SLIME_*` indices.
pub fn slime_animations() -> (r: Vec<AnimationSpec>)
    ensures
        table_view(r@) == slime_table(),
{
    let r = vec![
        animation("idle_side", 1, 4, 4),
        animation("move_side", 4, 6, 6),
        animation("attack_front", 6, 7, 7),
    ];
    assert(table_view(r@) =~= slime_table());
    r
}

/// The animations of the sheep's sheet: standing, then bouncing.
pub fn sheep_animations() -> (r: Vec<AnimationSpec>)
    ensures
        table_view(r@) == sheep_table(),
{
    let r = vec![animation("idle", 1, 8, 8), animation("bouncing", 2, 6, 6)];
    assert(table_view(r@) =~= sheep_table());
    r
}

/// The animations of the tree's sheet: still, then swaying.
pub fn tree_animations() -> (r: Vec<AnimationSpec>)
    ensures
        table_view(r@) == tree_table(),
{
    let r = vec![animation("original", 0, 1, 1), animation("idle", 1, 4, 1)];
    assert(table_view(r@) =~= tree_table());
    r
}

/// The sprite that `AnimatedSprite::new` builds from tile sizes, animations
/// (name, row, frames, frames per second) and whether it plays. `new` only
/// stores them, starting on the first animation at its first frame.
pub uninterp spec fn animated_sprite_of(tile_width: u32, tile_height: u32, animations: Seq<(Seq<char>, u32, u32, u32)>, playing: bool) -> AnimatedSprite;

/// Calls `macroquad::experimental::animation::AnimatedSprite::new` with the
/// animations turned, one for one, into macroquad's `Animation`. Trusted: the
/// sprite is a function of the arguments alone, named `animated_sprite_of`;
/// what it holds is left unsaid (the type is opaque here).
#[verifier::external_body]
fn animated_sprite(tile_width: u32, tile_height: u32, animations: &Vec<AnimationSpec>, playing: bool) -> (r: AnimatedSprite)
    ensures
        r == animated_sprite_of(tile_width, tile_height, table_view(animations@), playing),
{
    let animations: Vec<Animation> = animations
        .iter()
        .map(|a| Animation { name: a.name.clone(), row: a.row, frames: a.frames, fps: a.fps })
        .collect();
    AnimatedSprite::new(tile_width, tile_height, &animations, playing)
}

/// The player's sprite, playing, on the first animation of its sheet.
pub fn player_sprite() -> (r: AnimatedSprite)
    ensures
        r == animated_sprite_of(48, 48, player_table(), true),
{
    animated_sprite(48, 48, &player_animations(), true)
}

/// The slime's sprite, playing, on the first animation of its sheet.
pub fn slime_sprite() -> (r: AnimatedSprite)
    ensures
        r == animated_sprite_of(32, 32, slime_table(), true),
{
    animated_sprite(32, 32, &slime_animations(), true)
}

/// The sheep's sprite, playing, on the first animation of its sheet.
pub fn sheep_sprite() -> (r: AnimatedSprite)
    ensures
        r == animated_sprite_of(128, 128, sheep_table(), true),
{
    animated_sprite(128, 128, &sheep_animations(), true)
}

/// The tree's sprite, playing, on the first animation of its sheet.
pub fn tree_sprite() -> (r: AnimatedSprite)
    ensures
        r == animated_sprite_of(192, 192, tree_table(), true),
{
    animated_sprite(192, 192, &tree_animations(), true)
}

/// Every animation of the table sits in the row given by its place, plus
/// `offset` (rows above are unused).
pub open spec fn rows_in_order(table: Seq<(Seq<char>, u32, u32, u32)>, offset: int) -> bool {
    forall|i: int| 0 <= i < table.len() ==> #[trigger] table[i].1 == i + offset
}

/// No two animations of the table share a name.
pub open spec fn names_distinct(table: Seq<(Seq<char>, u32, u32, u32)>) -> bool {
    forall|i: int, j: int| 0 <= i < j < table.len() ==> #[trigger] table[i].0 != #[trigger] table[j].0
}

/// Every animation of `table` sits in the row where `layout` has the
/// animation of the same name: the two sheets share one layout.
pub open spec fn follows_layout(table: Seq<(Seq<char>, u32, u32, u32)>, layout: Seq<(Seq<char>, u32, u32, u32)>) -> bool {
    forall|i: int|
        0 <= i < table.len() ==> exists|j: int|
            0 <= j < layout.len() && #[trigger] layout[j].0 == #[trigger] table[i].0 && layout[j].1 == table[i].1
}

/// An animation that shows all its frames in exactly one second (as many
/// frames per second as it has frames).
pub open spec fn loops_in_a_second(a: (Seq<char>, u32, u32, u32)) -> bool {
    a.2 == a.3
}

/// The sheets' timing: every slime and sheep animation, and every player
/// animation but the three attacks, loops in one second; the player's attacks
/// play twice as fast, in half a second; the swaying tree shows one frame a
/// second.
pub proof fn lemma_sheet_timing()
    ensures
        forall|i: int| 0 <= i < slime_table().len() ==> loops_in_a_second(#[trigger] slime_table()[i]),
        forall|i: int| 0 <= i < sheep_table().len() ==> loops_in_a_second(#[trigger] sheep_table()[i]),
        forall|i: int|
            0 <= i < player_table().len() && !(PLAYER_ATTACK_FRONT <= i <= PLAYER_ATTACK_BACK)
                ==> loops_in_a_second(#[trigger] player_table()[i]),
        forall|i: int|
            PLAYER_ATTACK_FRONT <= i <= PLAYER_ATTACK_BACK ==> #[trigger] player_table()[i].3 == 2 * player_table()[i].2,
        forall|i: int| 0 <= i < tree_table().len() ==> #[trigger] tree_table()[i].3 == 1,
{
}

/// The sheets' layouts: the player's animations fill its rows from the top,
/// in order; each slime animation sits in the row the player's animation of
/// the same name has (the two sheets share one layout); the tree's
/// animations fill its rows from the top and the sheep's from the second row.
/// No sheet names two animations alike.
pub proof fn lemma_sheet_layouts()
    ensures
        rows_in_order(player_table(), 0),
        follows_layout(slime_table(), player_table()),
        rows_in_order(tree_table(), 0),
        rows_in_order(sheep_table(), 1),
        names_distinct(player_table()),
        names_distinct(slime_table()),
        names_distinct(sheep_table()),
        names_distinct(tree_table()),
{
    reveal_strlit("idle_front");
    reveal_strlit("idle_side");
    reveal_strlit("idle_back");
    reveal_strlit("move_front");
    reveal_strlit("move_side");
    reveal_strlit("move_back");
    reveal_strlit("attack_front");
    reveal_strlit("attack_side");
    reveal_strlit("attack_back");
    reveal_strlit("death");
    reveal_strlit("idle");
    reveal_strlit("bouncing");
    reveal_strlit("original");
    let p = player_table();
    let s = slime_table();
    assert(p[1].0 == s[0].0 && p[1].1 == s[0].1);
    assert(p[4].0 == s[1].0 && p[4].1 == s[1].1);
    assert(p[6].0 == s[2].0 && p[6].1 == s[2].1);
    assert forall|i: int, j: int| 0 <= i < j < p.len() implies #[trigger] p[i].0 != #[trigger] p[j].0 by {
        assert(p[i].0.len() != p[j].0.len() || p[i].0[0] != p[j].0[0] || p[i].0[1] != p[j].0[1] || p[i].0[5] != p[j].0[5] || p[i].0[7] != p[j].0[7]);
    }
    assert forall|i: int, j: int| 0 <= i < j < s.len() implies #[trigger] s[i].0 != #[trigger] s[j].0 by {
        assert(s[i].0.len() != s[j].0.len() || s[i].0[0] != s[j].0[0]);
    }
    assert(sheep_table()[0].0.len() != sheep_table()[1].0.len());
    assert(tree_table()[0].0.len() != tree_table()[1].0.len());
}

/// Every animation of the four sheets has frames and plays, and the
/// `PLAYER_*` and `SLIME_*` indices name the animations of those names.
pub proof fn lemma_tables_playable()
    ensures
        playable(player_table()),
        playable(slime_table()),
        playable(sheep_table()),
        playable(tree_table()),
        player_table().len() == PLAYER_DEATH + 1,
        slime_table().len() == SLIME_ATTACK + 1,
        player_table()[PLAYER_IDLE_FRONT as int].0 == "idle_front"@,
        player_table()[PLAYER_ATTACK_SIDE as int].0 == "attack_side"@,
        player_table()[PLAYER_DEATH as int].0 == "death"@,
        slime_table()[SLIME_ATTACK as int].0 == "attack_front"@,
{
    assert(playable(player_table()));
    assert(playable(slime_table()));
    assert(playable(sheep_table()));
    assert(playable(tree_table()));
}

} // verus!
