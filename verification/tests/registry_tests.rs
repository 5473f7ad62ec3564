use pepa::registry::{setup_animations, FamilySheet, FRAME_INTERVAL_US};
use pepa::{AttackState, Direction, MoveState, PlayerSheets, StateMachine};

fn sheet(base: u64) -> FamilySheet {
    FamilySheet {
        layout: base,
        up: base + 1,
        down: base + 2,
        left: base + 3,
        right: base + 4,
        up_left: base + 5,
        up_right: base + 6,
        down_left: base + 7,
        down_right: base + 8,
    }
}

fn sheets() -> PlayerSheets {
    PlayerSheets { idle: sheet(100), walk: sheet(200), run: sheet(300), attack: sheet(400) }
}

fn all_lookup_directions() -> Vec<Direction> {
    let mut ds = Direction::directions();
    ds.push(Direction::Zero);
    ds
}

#[test]
fn every_state_and_direction_is_registered() {
    let reg = setup_animations(&sheets());
    let states = [
        StateMachine::Move(MoveState::Idle),
        StateMachine::Move(MoveState::Walk),
        StateMachine::Move(MoveState::Run),
        StateMachine::Attack(AttackState::Idle),
        StateMachine::Attack(AttackState::Attack),
    ];
    for st in states {
        for d in all_lookup_directions() {
            assert!(reg.get(st, d).is_some());
        }
    }
}

#[test]
fn family_frame_ranges() {
    let reg = setup_animations(&sheets());
    let idle = reg.get(StateMachine::idle(), Direction::Down).unwrap();
    assert_eq!((idle.indices.first, idle.indices.last), (0, 16));
    let walk = reg.get(StateMachine::walk(), Direction::Down).unwrap();
    assert_eq!((walk.indices.first, walk.indices.last), (0, 10));
    let run = reg.get(StateMachine::run(), Direction::Down).unwrap();
    assert_eq!((run.indices.first, run.indices.last), (0, 7));
    let attack = reg.get(StateMachine::attack(), Direction::Down).unwrap();
    assert_eq!((attack.indices.first, attack.indices.last), (0, 14));
    assert_eq!(idle.timer.duration_us, FRAME_INTERVAL_US);
}

#[test]
fn zero_direction_aliases_down_facing_art() {
    let reg = setup_animations(&sheets());
    for st in [
        StateMachine::idle(),
        StateMachine::walk(),
        StateMachine::run(),
        StateMachine::attack_idle(),
        StateMachine::attack(),
    ] {
        let zero = reg.get(st, Direction::Zero).unwrap();
        let down = reg.get(st, Direction::Down).unwrap();
        assert_eq!(zero, down);
    }
}

#[test]
fn attack_idle_shares_idle_art() {
    let reg = setup_animations(&sheets());
    for d in all_lookup_directions() {
        let ai = reg.get(StateMachine::attack_idle(), d).unwrap();
        let mi = reg.get(StateMachine::idle(), d).unwrap();
        assert_eq!(ai, mi);
    }
}

#[test]
fn directions_use_their_own_textures() {
    let reg = setup_animations(&sheets());
    let up = reg.get(StateMachine::walk(), Direction::Up).unwrap();
    assert_eq!(up.texture, 201);
    assert_eq!(up.layout, 200);
    let down_right = reg.get(StateMachine::attack(), Direction::DownRight).unwrap();
    assert_eq!(down_right.texture, 408);
    assert_eq!(down_right.layout, 400);
}

#[test]
fn random_direction_is_not_registered() {
    let reg = setup_animations(&sheets());
    assert!(reg.get(StateMachine::walk(), Direction::Random).is_none());
}

#[test]
fn walk_down_cycle_end_to_end() {
    let reg = setup_animations(&sheets());
    let clip = reg.get(StateMachine::walk(), Direction::Down).unwrap();
    assert_eq!((clip.indices.first, clip.indices.last), (0, 10));

    let mut timer = clip.timer;
    let mut index: usize = clip.indices.first;
    for step in 1..=11 {
        let finished = timer.tick(FRAME_INTERVAL_US);
        assert!(finished);
        index = clip.indices.advance(index);
        if step < 11 {
            assert_eq!(index, step);
        }
    }
    assert_eq!(index, 0);
}
