use pepa::controls::{
    handle_input, setup_player_controls, KEY_ARROW_UP, KEY_D, KEY_F, KEY_SHIFT_LEFT, KEY_W,
};
use pepa::player::{player_movement, spawn_player, PLAYER_SPEED};
use pepa::registry::{setup_animations, FamilySheet};
use pepa::{
    Action, ActionCommand, ActionSet, CommandQueue, Direction, GameState, MoveEvent, PlayerSheets,
};

#[test]
fn held_keys_map_to_their_actions() {
    let mapping = setup_player_controls();
    let cmd = handle_input(&vec![KEY_W, KEY_D], &mapping).unwrap();
    assert!(cmd.actions.contains(Action::MoveUp));
    assert!(cmd.actions.contains(Action::MoveRight));
    assert!(!cmd.actions.contains(Action::MoveDown));
    assert!(!cmd.actions.contains(Action::Run));
    assert_eq!(Direction::from_actions(cmd.actions), Direction::UpRight);
}

#[test]
fn duplicate_bindings_collapse_to_one_action() {
    let mapping = setup_player_controls();
    let cmd = handle_input(&vec![KEY_W, KEY_ARROW_UP], &mapping).unwrap();
    assert!(cmd.actions.contains(Action::MoveUp));
    assert!(!cmd.actions.contains(Action::MoveLeft));
}

#[test]
fn empty_input_yields_no_notification() {
    let mapping = setup_player_controls();
    assert!(handle_input(&vec![], &mapping).is_none());
}

#[test]
fn unbound_keys_yield_no_notification() {
    let mapping = setup_player_controls();
    assert!(handle_input(&vec![1, 2, 3], &mapping).is_none());
}

#[test]
fn attack_only_tick_still_notifies() {
    let mapping = setup_player_controls();
    let cmd = handle_input(&vec![KEY_F], &mapping).unwrap();
    assert!(cmd.actions.contains(Action::Attack));
    assert!(!cmd.actions.contains(Action::MoveUp));
    assert!(!cmd.actions.contains(Action::MoveDown));
    assert!(!cmd.actions.contains(Action::MoveLeft));
    assert!(!cmd.actions.contains(Action::MoveRight));
}

#[test]
fn command_queue_is_fifo() {
    let mut q = CommandQueue::new();
    assert_eq!(q.len(), 0);
    assert!(q.pop_front().is_none());

    let mut a = ActionSet::empty();
    a.insert(Action::MoveUp);
    let mut b = ActionSet::empty();
    b.insert(Action::Attack);
    q.push_back(ActionCommand { actions: a });
    q.push_back(ActionCommand { actions: b });
    assert_eq!(q.len(), 2);

    assert_eq!(q.pop_front().unwrap().actions, a);
    assert_eq!(q.pop_front().unwrap().actions, b);
    assert!(q.pop_front().is_none());

    assert!(!q.busy());
    q.set_busy(true);
    assert!(q.busy());
}

#[test]
fn movement_command_doubles_acceleration_while_running() {
    let mut s = ActionSet::empty();
    s.insert(Action::MoveLeft);
    s.insert(Action::Run);
    let ev = player_movement(7, &ActionCommand { actions: s }).unwrap();
    assert_eq!(
        ev,
        MoveEvent { entity: 7, direction: Direction::Left, acceleration: 2, speed: PLAYER_SPEED }
    );

    let mut s = ActionSet::empty();
    s.insert(Action::MoveUp);
    let ev = player_movement(7, &ActionCommand { actions: s }).unwrap();
    assert_eq!(ev.acceleration, 1);
    assert_eq!(ev.direction, Direction::Up);
}

#[test]
fn no_movement_action_yields_no_move_command() {
    let mut s = ActionSet::empty();
    s.insert(Action::Run);
    s.insert(Action::Attack);
    assert!(player_movement(7, &ActionCommand { actions: s }).is_none());
}

fn sheet(base: u64) -> FamilySheet {
    FamilySheet {
        layout: base,
        up: base + 1,
        down: base + 2,
        left: base + 3,
        right: base + 4,
        up_left: base + 5,
        up_right: base + 6,
        down_left: base + 7,
        down_right: base + 8,
    }
}

#[test]
fn spawned_player_starts_on_idle_facing_nowhere() {
    let reg = setup_animations(&PlayerSheets {
        idle: sheet(100),
        walk: sheet(200),
        run: sheet(300),
        attack: sheet(400),
    });
    let (clip, atlas, texture) = spawn_player(&reg);
    assert_eq!((clip.indices.first, clip.indices.last), (0, 16));
    assert_eq!(atlas.index, 0);
    assert_eq!(atlas.layout, 100);
    assert_eq!(texture, 102);
}

#[test]
fn pause_toggle_swaps_states() {
    assert_eq!(pepa::app_state::toggle_pause(GameState::Running), GameState::Paused);
    assert_eq!(pepa::app_state::toggle_pause(GameState::Paused), GameState::Running);
}
