use tiny_adventure::input::{direction, is_moving, PlayerInput};

fn keys(up: bool, down: bool, left: bool, right: bool) -> PlayerInput {
    PlayerInput { up, down, left, right }
}

#[test]
fn no_key_no_direction() {
    let input = PlayerInput::default();
    assert_eq!(direction(&input), (0, 0));
    assert!(!is_moving(&input));
}

#[test]
fn single_keys() {
    assert_eq!(direction(&keys(true, false, false, false)), (0, -1));
    assert_eq!(direction(&keys(false, true, false, false)), (0, 1));
    assert_eq!(direction(&keys(false, false, true, false)), (-1, 0));
    assert_eq!(direction(&keys(false, false, false, true)), (1, 0));
}

#[test]
fn left_wins_over_right_and_up_over_down() {
    assert_eq!(direction(&keys(true, true, true, true)), (-1, -1));
    assert_eq!(direction(&keys(false, true, false, true)), (1, 1));
    assert!(is_moving(&keys(true, true, true, true)));
}
