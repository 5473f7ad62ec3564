//! The action mapper: a fixed key-to-action binding table, and the
//! per-tick translation of the currently held raw key symbols into the
//! set of semantic actions whose bound key is held.
use vstd::prelude::*;

use crate::actions::{Action, ActionSet};

verus! {

/// Raw key symbols, as plain key codes.
pub const KEY_W: u32 = 87;

pub const KEY_A: u32 = 65;

pub const KEY_S: u32 = 83;

pub const KEY_D: u32 = 68;

pub const KEY_F: u32 = 70;

pub const KEY_ARROW_LEFT: u32 = 37;

pub const KEY_ARROW_UP: u32 = 38;

pub const KEY_ARROW_RIGHT: u32 = 39;

pub const KEY_ARROW_DOWN: u32 = 40;

pub const KEY_SHIFT_LEFT: u32 = 16;

/// One tick's "actions changed" notification: the non-empty set of
/// actions held this tick.
#[derive(Clone, Copy, Debug, PartialEq, Eq, Structural)]
pub struct ActionCommand {
    pub actions: ActionSet,
}

/// The key-to-action binding table.
#[derive(Debug)]
pub struct ActionMapping {
    pub binding: Vec<(u32, Action)>,
}

/// The key `k` is among the held keys.
pub open spec fn key_is_pressed(pressed: Seq<u32>, k: u32) -> bool {
    exists|i: int| 0 <= i < pressed.len() && pressed[i] == k
}

/// The action `a` is bound to some held key.
pub open spec fn spec_pressed_action(
    pressed: Seq<u32>,
    binding: Seq<(u32, Action)>,
    a: Action,
) -> bool {
    exists|j: int|
        0 <= j < binding.len() && key_is_pressed(pressed, binding[j].0) && binding[j].1 == a
}

/// The set of actions whose bound key is held.
pub open spec fn spec_pressed_actions(pressed: Seq<u32>, binding: Seq<(u32, Action)>) -> ActionSet {
    ActionSet {
        idle: spec_pressed_action(pressed, binding, Action::Idle),
        move_left: spec_pressed_action(pressed, binding, Action::MoveLeft),
        move_right: spec_pressed_action(pressed, binding, Action::MoveRight),
        move_up: spec_pressed_action(pressed, binding, Action::MoveUp),
        move_down: spec_pressed_action(pressed, binding, Action::MoveDown),
        attack: spec_pressed_action(pressed, binding, Action::Attack),
        run: spec_pressed_action(pressed, binding, Action::Run),
    }
}

/// Whether a key code is among the held keys.
fn key_pressed(pressed: &Vec<u32>, k: u32) -> (r: bool)
    ensures
        r == key_is_pressed(pressed@, k),
{
    let n = pressed.len();
    for i in 0..n
        invariant
            n == pressed.len(),
            forall|i2: int| 0 <= i2 < i ==> pressed@[i2] != k,
    {
        if pressed[i] == k {
            return true;
        }
    }
    false
}

/// The default binding of the sample character's controls: WASD and the
/// arrow keys move, left shift runs, F attacks.
pub fn setup_player_controls() -> (r: ActionMapping)
    ensures
        r.binding@ =~= seq![
            (KEY_W, Action::MoveUp),
            (KEY_A, Action::MoveLeft),
            (KEY_S, Action::MoveDown),
            (KEY_D, Action::MoveRight),
            (KEY_ARROW_UP, Action::MoveUp),
            (KEY_ARROW_LEFT, Action::MoveLeft),
            (KEY_ARROW_DOWN, Action::MoveDown),
            (KEY_ARROW_RIGHT, Action::MoveRight),
            (KEY_SHIFT_LEFT, Action::Run),
            (KEY_F, Action::Attack),
        ],
{
    let mut binding: Vec<(u32, Action)> = Vec::new();
    binding.push((KEY_W, Action::MoveUp));
    binding.push((KEY_A, Action::MoveLeft));
    binding.push((KEY_S, Action::MoveDown));
    binding.push((KEY_D, Action::MoveRight));
    binding.push((KEY_ARROW_UP, Action::MoveUp));
    binding.push((KEY_ARROW_LEFT, Action::MoveLeft));
    binding.push((KEY_ARROW_DOWN, Action::MoveDown));
    binding.push((KEY_ARROW_RIGHT, Action::MoveRight));
    binding.push((KEY_SHIFT_LEFT, Action::Run));
    binding.push((KEY_F, Action::Attack));
    ActionMapping { binding }
}

/// One tick of the action mapper: the set of actions whose bound key is
/// currently held. A non-empty set is handed out as a notification; an
/// empty set yields none at all, so downstream idle detection must rely
/// on the absence of movement actions, not on an "empty" notification.
pub fn handle_input(pressed: &Vec<u32>, mapping: &ActionMapping) -> (r: Option<ActionCommand>)
    ensures
        ({
            let s = spec_pressed_actions(pressed@, mapping.binding@);
            match r {
                Some(cmd) => cmd.actions == s && !s.spec_is_empty(),
                None => s.spec_is_empty(),
            }
        }),
{
    let ghost bind = mapping.binding@;
    let mut s = ActionSet::empty();
    let n = mapping.binding.len();
    for j in 0..n
        invariant
            n == mapping.binding.len(),
            bind == mapping.binding@,
            forall|a: Action| s.spec_contains(a) == spec_pressed_action(pressed@, bind.take(j as int), a),
    {
        let (key, act) = mapping.binding[j];
        let ghost s_old = s;
        if key_pressed(pressed, key) {
            if !s.contains(act) {
                s.insert(act);
            }
        }
        proof {
            let pre = bind.take(j as int);
            let cur = bind.take(j + 1);
            assert(cur.drop_last() =~= pre);
            assert(cur[j as int] == bind[j as int]);
            assert forall|a: Action| s.spec_contains(a) == spec_pressed_action(
                pressed@,
                cur,
                a,
            ) by {
                if s.spec_contains(a) {
                    if s_old.spec_contains(a) {
                        let j2 = choose|j2: int|
                            0 <= j2 < pre.len() && key_is_pressed(pressed@, pre[j2].0)
                                && pre[j2].1 == a;
                        assert(cur[j2] == pre[j2]);
                        assert(spec_pressed_action(pressed@, cur, a));
                    } else {
                        assert(a == act && key_is_pressed(pressed@, key));
                        assert(cur[j as int].0 == key && cur[j as int].1 == a);
                        assert(spec_pressed_action(pressed@, cur, a));
                    }
                }
                if spec_pressed_action(pressed@, cur, a) {
                    let j2 = choose|j2: int|
                        0 <= j2 < cur.len() && key_is_pressed(pressed@, cur[j2].0) && cur[j2].1
                            == a;
                    if j2 < j {
                        assert(pre[j2] == cur[j2]);
                        assert(spec_pressed_action(pressed@, pre, a));
                        assert(s_old.spec_contains(a));
                    } else {
                        assert(cur[j2] == bind[j as int]);
                        assert(a == act && key_is_pressed(pressed@, key));
                    }
                    assert(s.spec_contains(a));
                }
            }
        }
    }
    proof {
        assert(bind.take(bind.len() as int) =~= bind);
        let target = spec_pressed_actions(pressed@, bind);
        assert forall|a: Action| s.spec_contains(a) == target.spec_contains(a) by {
            match a {
                Action::Idle => {},
                Action::MoveLeft => {},
                Action::MoveRight => {},
                Action::MoveUp => {},
                Action::MoveDown => {},
                Action::Attack => {},
                Action::Run => {},
            }
        }
        assert(s.idle == target.idle) by {
            assert(s.spec_contains(Action::Idle) == target.spec_contains(Action::Idle));
        }
        assert(s.move_left == target.move_left) by {
            assert(s.spec_contains(Action::MoveLeft) == target.spec_contains(Action::MoveLeft));
        }
        assert(s.move_right == target.move_right) by {
            assert(s.spec_contains(Action::MoveRight) == target.spec_contains(Action::MoveRight));
        }
        assert(s.move_up == target.move_up) by {
            assert(s.spec_contains(Action::MoveUp) == target.spec_contains(Action::MoveUp));
        }
        assert(s.move_down == target.move_down) by {
            assert(s.spec_contains(Action::MoveDown) == target.spec_contains(Action::MoveDown));
        }
        assert(s.attack == target.attack) by {
            assert(s.spec_contains(Action::Attack) == target.spec_contains(Action::Attack));
        }
        assert(s.run == target.run) by {
            assert(s.spec_contains(Action::Run) == target.spec_contains(Action::Run));
        }
        assert(s == target);
    }
    if s.is_empty() {
        None
    } else {
        Some(ActionCommand { actions: s })
    }
}

/// A first-in, first-out queue of action commands with a busy flag.
#[derive(Debug)]
pub struct CommandQueue {
    queue: Vec<ActionCommand>,
    is_busy: bool,
}

impl CommandQueue {
    /// The queued commands, oldest first.
    pub closed spec fn spec_queue(self) -> Seq<ActionCommand> {
        self.queue@
    }

    /// The busy flag.
    pub closed spec fn spec_busy(self) -> bool {
        self.is_busy
    }

    pub fn new() -> (r: CommandQueue)
        ensures
            r.spec_queue() == Seq::<ActionCommand>::empty(),
            !r.spec_busy(),
    {
        CommandQueue { queue: Vec::new(), is_busy: false }
    }

    /// Appends a command at the back of the queue.
    pub fn push_back(&mut self, cmd: ActionCommand)
        ensures
            final(self).spec_queue() == old(self).spec_queue().push(cmd),
            final(self).spec_busy() == old(self).spec_busy(),
    {
        self.queue.push(cmd);
    }

    /// Removes and returns the oldest command; `None` exactly when the
    /// queue is empty.
    pub fn pop_front(&mut self) -> (r: Option<ActionCommand>)
        ensures
            final(self).spec_busy() == old(self).spec_busy(),
            match r {
                Some(cmd) => old(self).spec_queue().len() > 0 && cmd == old(
                    self,
                ).spec_queue().first() && final(self).spec_queue() == old(
                    self,
                ).spec_queue().drop_first(),
                None => old(self).spec_queue().len() == 0 && final(self).spec_queue() == old(
                    self,
                ).spec_queue(),
            },
    {
        if self.queue.len() == 0 {
            None
        } else {
            let cmd = self.queue.remove(0);
            proof {
                assert(old(self).queue@.remove(0) =~= old(self).queue@.drop_first());
            }
            Some(cmd)
        }
    }

    pub fn len(&self) -> (r: usize)
        ensures
            r == self.spec_queue().len(),
    {
        self.queue.len()
    }

    pub fn busy(&self) -> (r: bool)
        ensures
            r == self.spec_busy(),
    {
        self.is_busy
    }

    /// Sets the busy flag, leaving the queue unchanged.
    pub fn set_busy(&mut self, busy: bool)
        ensures
            final(self).spec_queue() == old(self).spec_queue(),
            final(self).spec_busy() == busy,
    {
        self.is_busy = busy;
    }
}

impl Default for CommandQueue {
    /// A fresh, idle, empty queue.
    fn default() -> (r: CommandQueue)
        ensures
            r.spec_queue() == Seq::<ActionCommand>::empty(),
            !r.spec_busy(),
    {
        CommandQueue::new()
    }
}

} // verus!
