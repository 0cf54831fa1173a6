use tiny_adventure::animations::{
    player_animations, player_sprite, sheep_animations, sheep_sprite, slime_animations,
    slime_sprite, tree_animations, tree_sprite, PLAYER_ATTACK_SIDE, PLAYER_DEATH,
    PLAYER_IDLE_FRONT, SLIME_ATTACK,
};

#[test]
fn player_sheet() {
    let anims = player_animations();
    let names: Vec<&str> = anims.iter().map(|a| a.name.as_str()).collect();
    assert_eq!(
        names,
        vec![
            "idle_front", "idle_side", "idle_back", "move_front", "move_side", "move_back",
            "attack_front", "attack_side", "attack_back", "death"
        ]
    );
    for (i, a) in anims.iter().enumerate() {
        assert_eq!(a.row as usize, i);
    }
    assert_eq!((anims[PLAYER_IDLE_FRONT].frames, anims[PLAYER_IDLE_FRONT].fps), (6, 6));
    assert_eq!((anims[PLAYER_ATTACK_SIDE].frames, anims[PLAYER_ATTACK_SIDE].fps), (4, 8));
    assert_eq!((anims[PLAYER_DEATH].frames, anims[PLAYER_DEATH].fps), (3, 3));
}

#[test]
fn slime_sheep_and_tree_sheets() {
    let slime = slime_animations();
    assert_eq!(slime.len(), 3);
    assert_eq!(slime[SLIME_ATTACK].name, "attack_front");
    assert_eq!((slime[SLIME_ATTACK].row, slime[SLIME_ATTACK].frames, slime[SLIME_ATTACK].fps), (6, 7, 7));
    assert_eq!((slime[0].row, slime[0].frames), (1, 4));
    let sheep = sheep_animations();
    assert_eq!((sheep[1].name.as_str(), sheep[1].row, sheep[1].frames), ("bouncing", 2, 6));
    let tree = tree_animations();
    assert_eq!((tree[1].name.as_str(), tree[1].frames, tree[1].fps), ("idle", 4, 1));
}

#[test]
fn sprites_switch_to_every_animation() {
    let mut player = player_sprite();
    assert_eq!(player.current_animation(), 0);
    assert!(player.playing);
    for i in 0..player_animations().len() {
        player.set_animation(i);
        assert_eq!(player.current_animation(), i);
    }
    assert!(player.is_last_frame() == false);
    let mut slime = slime_sprite();
    for i in 0..slime_animations().len() {
        slime.set_animation(i);
    }
    assert_eq!(slime.current_animation(), SLIME_ATTACK);
    let mut sheep = sheep_sprite();
    sheep.set_animation(1);
    let mut tree = tree_sprite();
    tree.set_animation(0);
    assert!(tree.is_last_frame());
}
