use tiny_adventure::shooter::{roll_enemy_spawn, spawns_enemy, SPAWN_ROLL_RANGE, SPAWN_THRESHOLD};

#[test]
fn spawn_threshold() {
    assert!(!spawns_enemy(0));
    assert!(!spawns_enemy(94));
    assert!(spawns_enemy(95));
    assert!(spawns_enemy(98));
    assert_eq!(SPAWN_ROLL_RANGE, 99);
    assert_eq!(SPAWN_THRESHOLD, 95);
}

#[test]
fn spawn_rolls_sometimes_spawn() {
    macroquad::rand::srand(42);
    let mut spawned = 0;
    for _ in 0..10_000 {
        let (roll, spawn) = roll_enemy_spawn();
        assert!((0..SPAWN_ROLL_RANGE).contains(&roll));
        assert_eq!(spawn, roll >= SPAWN_THRESHOLD);
        if spawn {
            spawned += 1;
        }
    }
    assert!(spawned > 0);
    assert!(spawned < 10_000);
    for _ in 0..10_000 {
        let roll: i32 = macroquad::rand::gen_range(0, SPAWN_ROLL_RANGE);
        assert!((0..SPAWN_ROLL_RANGE).contains(&roll));
    }
}
