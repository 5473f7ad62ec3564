use pepa::{Action, ActionSet, DirVec, Direction};

fn set(actions: &[Action]) -> ActionSet {
    let mut s = ActionSet::empty();
    for a in actions {
        s.insert(*a);
    }
    s
}

#[test]
fn up_right_resolves_to_diagonal() {
    let s = set(&[Action::MoveUp, Action::MoveRight]);
    assert_eq!(Direction::from_actions(s), Direction::UpRight);
}

#[test]
fn contradictory_third_key_keeps_diagonal() {
    let s = set(&[Action::MoveUp, Action::MoveDown, Action::MoveRight]);
    assert_eq!(Direction::from_actions(s), Direction::UpRight);
}

#[test]
fn down_left_resolves_to_diagonal() {
    let s = set(&[Action::MoveDown, Action::MoveLeft]);
    assert_eq!(Direction::from_actions(s), Direction::DownLeft);
}

#[test]
fn down_left_with_extra_run_keeps_diagonal() {
    let s = set(&[Action::MoveDown, Action::MoveLeft, Action::Run]);
    assert_eq!(Direction::from_actions(s), Direction::DownLeft);
}

#[test]
fn down_right_and_up_left_resolve() {
    assert_eq!(
        Direction::from_actions(set(&[Action::MoveDown, Action::MoveRight])),
        Direction::DownRight
    );
    assert_eq!(
        Direction::from_actions(set(&[Action::MoveUp, Action::MoveLeft])),
        Direction::UpLeft
    );
}

#[test]
fn cardinals_resolve_alone() {
    assert_eq!(Direction::from_actions(set(&[Action::MoveUp])), Direction::Up);
    assert_eq!(Direction::from_actions(set(&[Action::MoveDown])), Direction::Down);
    assert_eq!(Direction::from_actions(set(&[Action::MoveLeft])), Direction::Left);
    assert_eq!(Direction::from_actions(set(&[Action::MoveRight])), Direction::Right);
}

#[test]
fn no_movement_resolves_to_zero() {
    assert_eq!(Direction::from_actions(set(&[])), Direction::Zero);
    assert_eq!(Direction::from_actions(set(&[Action::Attack, Action::Run])), Direction::Zero);
}

#[test]
fn direction_vectors_are_fixed() {
    assert_eq!(Direction::Up.get_direction_vec(), DirVec { x: 0, y: 1 });
    assert_eq!(Direction::Down.get_direction_vec(), DirVec { x: 0, y: -1 });
    assert_eq!(Direction::Right.get_direction_vec(), DirVec { x: 1, y: 0 });
    assert_eq!(Direction::Left.get_direction_vec(), DirVec { x: -1, y: 0 });
    assert_eq!(Direction::UpRight.get_direction_vec(), DirVec { x: 1, y: 1 });
    assert_eq!(Direction::UpLeft.get_direction_vec(), DirVec { x: -1, y: 1 });
    assert_eq!(Direction::DownRight.get_direction_vec(), DirVec { x: 1, y: -1 });
    assert_eq!(Direction::DownLeft.get_direction_vec(), DirVec { x: -1, y: -1 });
    assert_eq!(Direction::Zero.get_direction_vec(), DirVec { x: 0, y: 0 });
}

#[test]
fn vec_from_actions_follows_precedence() {
    let v = Direction::vec_from_actions(&vec![Action::MoveUp, Action::MoveRight]);
    assert_eq!(v, DirVec { x: 1, y: 1 });
    let v = Direction::vec_from_actions(&vec![Action::MoveUp, Action::MoveDown, Action::MoveRight]);
    assert_eq!(v, DirVec { x: 1, y: 1 });
    let v = Direction::vec_from_actions(&vec![Action::MoveDown]);
    assert_eq!(v, DirVec { x: 0, y: -1 });
    let v = Direction::vec_from_actions(&vec![]);
    assert_eq!(v, DirVec { x: 0, y: 0 });
}

#[test]
fn neg_x_axes_directions() {
    assert!(Direction::Left.is_neg_x_axes());
    assert!(Direction::UpLeft.is_neg_x_axes());
    assert!(Direction::DownLeft.is_neg_x_axes());
    assert!(!Direction::Right.is_neg_x_axes());
    assert!(!Direction::Zero.is_neg_x_axes());
    assert!(!Direction::Random.is_neg_x_axes());
}

#[test]
fn random_vector_is_never_zero() {
    for _ in 0..10000 {
        let v = Direction::Random.get_direction_vec();
        assert!(v.x != 0 || v.y != 0);
        assert!(-1000 <= v.x && v.x < 1000);
        assert!(-1000 <= v.y && v.y < 1000);
    }
}

#[test]
fn directions_lists_all_eight_compass_points() {
    let ds = Direction::directions();
    assert_eq!(ds.len(), 8);
    assert_eq!(ds[0], Direction::Up);
    assert_eq!(ds[1], Direction::Down);
    assert_eq!(ds[2], Direction::Left);
    assert_eq!(ds[3], Direction::Right);
    assert_eq!(ds[4], Direction::UpRight);
    assert_eq!(ds[5], Direction::UpLeft);
    assert_eq!(ds[6], Direction::DownRight);
    assert_eq!(ds[7], Direction::DownLeft);
}
