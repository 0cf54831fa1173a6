use tiny_adventure::Game;

#[test]
fn test_game_new_with_seed() {
    let seed = 1000;
    let game = Game::new(seed);
    assert_eq!(game.seed, seed);
}

#[test]
fn test_new_game_with_seed() {
    let seed = 1000;
    let game = Game::new(seed);
    assert_eq!(game.seed, seed);
}

struct Score(u32);

impl shipyard::Unique for Score {}

#[test]
fn new_game_world_holds_nothing_yet() {
    let game = Game::new(0);
    assert_eq!(game.world.borrow::<shipyard::EntitiesView>().unwrap().iter().count(), 0);
    assert!(game.world.get_unique::<&Score>().is_err());
    game.world.add_unique(Score(3));
    assert_eq!(game.world.get_unique::<&Score>().unwrap().0, 3);
}
