use tiny_adventure::input::PlayerInput;
use tiny_adventure::rpg::{
    attack_animation, attack_in_progress, enemy_attacks, idle_animation, move_animation,
    movement_step, enemy_turn_animations, starts_attack, Dir, Vitals, HIT_DAMAGE, MAX_HEALTH,
};

fn keys(up: bool, down: bool, left: bool, right: bool) -> PlayerInput {
    PlayerInput { up, down, left, right }
}

#[test]
fn animations_by_facing() {
    assert_eq!(idle_animation(Dir::Up), 2);
    assert_eq!(idle_animation(Dir::Down), 0);
    assert_eq!(idle_animation(Dir::Left), 1);
    assert_eq!(idle_animation(Dir::Right), 1);
    assert_eq!(move_animation(Dir::Up), 5);
    assert_eq!(move_animation(Dir::Down), 3);
    assert_eq!(move_animation(Dir::Right), 4);
    assert_eq!(attack_animation(Dir::Up), 8);
    assert_eq!(attack_animation(Dir::Down), 6);
    assert_eq!(attack_animation(Dir::Left), 7);
}

#[test]
fn standing_still() {
    let step = movement_step(false, Dir::Left, &PlayerInput::default());
    assert_eq!(step.facing, Dir::Left);
    assert_eq!(step.flip, None);
    assert_eq!(step.animations, vec![1]);
    assert!(step.steps.is_empty());

    let step = movement_step(true, Dir::Up, &PlayerInput::default());
    assert!(step.animations.is_empty());
}

#[test]
fn walking_left_mirrors_the_sprite() {
    let step = movement_step(false, Dir::Down, &keys(false, false, true, false));
    assert_eq!(step.facing, Dir::Left);
    assert_eq!(step.flip, Some(true));
    assert_eq!(step.animations, vec![0, 4]);
    assert_eq!(step.steps, vec![Dir::Left]);
}

#[test]
fn later_keys_decide_the_facing() {
    let step = movement_step(true, Dir::Down, &keys(true, true, true, true));
    assert_eq!(step.facing, Dir::Right);
    assert_eq!(step.flip, Some(false));
    assert_eq!(step.animations, vec![5, 3, 4, 4]);
    assert_eq!(step.steps, vec![Dir::Up, Dir::Down, Dir::Left, Dir::Right]);

    let step = movement_step(false, Dir::Right, &keys(true, false, true, false));
    assert_eq!(step.facing, Dir::Left);
    assert_eq!(step.flip, Some(true));
    assert_eq!(step.animations, vec![1, 5, 4]);
}

#[test]
fn attacks() {
    assert!(starts_attack(true, true));
    assert!(!starts_attack(false, true));
    assert!(!starts_attack(true, false));
    assert!(attack_in_progress(6, false));
    assert!(attack_in_progress(8, false));
    assert!(!attack_in_progress(7, true));
    assert!(!attack_in_progress(4, false));
    assert!(!attack_in_progress(9, false));
}

#[test]
fn enemies() {
    assert!(enemy_attacks(true, true, true));
    assert!(!enemy_attacks(false, true, true));
    assert!(!enemy_attacks(true, false, true));
    assert!(!enemy_attacks(true, true, false));
    assert_eq!(enemy_turn_animations(true, true), vec![2]);
    assert_eq!(enemy_turn_animations(false, true), vec![1]);
    assert_eq!(enemy_turn_animations(true, false), vec![2, 0]);
    assert_eq!(enemy_turn_animations(false, false), vec![1, 0]);
}

#[test]
fn hits_take_health_until_death() {
    let mut vitals = Vitals::new();
    assert_eq!(vitals.health(), MAX_HEALTH);
    assert!(vitals.is_alive());
    assert_eq!(vitals.take_hits(0), Vec::<u32>::new());
    assert_eq!(vitals.take_hits(3), vec![90, 80, 70]);
    assert_eq!(vitals.health(), 70);
    assert!(vitals.is_alive());
    assert_eq!(vitals.take_hits(10), vec![60, 50, 40, 30, 20, 10, 0]);
    assert_eq!(vitals.health(), 0);
    assert!(!vitals.is_alive());
    assert_eq!(vitals.take_hits(2), Vec::<u32>::new());
    assert_eq!(HIT_DAMAGE, 10);
}

#[test]
fn second_wind_revives_only_the_dead() {
    let mut vitals = Vitals::new();
    assert!(!vitals.second_wind(true));
    vitals.take_hits(4);
    assert!(!vitals.second_wind(true));
    assert_eq!(vitals.health(), 60);
    vitals.take_hits(6);
    assert!(!vitals.is_alive());
    assert!(!vitals.second_wind(false));
    assert!(!vitals.is_alive());
    assert!(vitals.second_wind(true));
    assert!(vitals.is_alive());
    assert_eq!(vitals.health(), MAX_HEALTH);
}
