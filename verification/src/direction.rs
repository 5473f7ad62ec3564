//! Discrete movement directions and their resolution from action sets.
//!
//! Geometry is held in plain integers: the eight compass directions and
//! `Zero` use unit components in `{-1, 0, 1}` (diagonals are deliberately
//! unnormalized `(+-1, +-1)`; callers normalize before scaling by speed).
//! The `Random` direction is resolved in a per-mille fixed-point scale so
//! that a freshly sampled vector is representable exactly; it too is
//! normalized by the caller.
use vstd::prelude::*;

use crate::actions::{Action, ActionSet};

verus! {

/// A discretized movement/facing direction: eight compass points,
/// a zero direction, and a distinguished `Random` used only for
/// non-player-controlled motion.
#[derive(Clone, Copy, Debug, PartialEq, Eq, Structural, Hash)]
pub enum Direction {
    Zero,
    Random,
    Up,
    Down,
    Right,
    Left,
    UpRight,
    UpLeft,
    DownRight,
    DownLeft,
}

/// A plain integer movement vector; the y axis points up.
#[derive(Clone, Copy, Debug, PartialEq, Eq, Structural)]
pub struct DirVec {
    pub x: i32,
    pub y: i32,
}

/// Half-open bound of the fixed-point scale used for `Random` vectors:
/// each sampled component lies in `[-RANDOM_SCALE, RANDOM_SCALE)`.
pub const RANDOM_SCALE: i32 = 1000;

/// The fixed precedence order that reduces a set of movement actions to
/// one direction: the four diagonal pairs are tested before the four
/// cardinals, so a diagonal combination is never reduced to a cardinal
/// even when a contradictory third key is held.
pub open spec fn spec_direction_from_actions(s: ActionSet) -> Direction {
    if s.move_up && s.move_right {
        Direction::UpRight
    } else if s.move_down && s.move_left {
        Direction::DownLeft
    } else if s.move_down && s.move_right {
        Direction::DownRight
    } else if s.move_up && s.move_left {
        Direction::UpLeft
    } else if s.move_up {
        Direction::Up
    } else if s.move_down {
        Direction::Down
    } else if s.move_left {
        Direction::Left
    } else if s.move_right {
        Direction::Right
    } else {
        Direction::Zero
    }
}

/// The fixed unit (or zero) vector of each deterministic direction.
/// `Random` has no fixed vector; see `Direction::get_direction_vec`.
pub open spec fn spec_direction_vec(d: Direction) -> DirVec {
    match d {
        Direction::Up => DirVec { x: 0i32, y: 1i32 },
        Direction::Down => DirVec { x: 0i32, y: -1i32 },
        Direction::Right => DirVec { x: 1i32, y: 0i32 },
        Direction::Left => DirVec { x: -1i32, y: 0i32 },
        Direction::UpRight => DirVec { x: 1i32, y: 1i32 },
        Direction::UpLeft => DirVec { x: -1i32, y: 1i32 },
        Direction::DownRight => DirVec { x: 1i32, y: -1i32 },
        Direction::DownLeft => DirVec { x: -1i32, y: -1i32 },
        _ => DirVec { x: 0i32, y: 0i32 },
    }
}

/// Relies on rand's `Rng::gen_range` (through `thread_rng`): returns a
/// uniformly sampled value of the given non-empty range; the range used
/// here is constant and non-empty, so the call cannot panic. Nothing more
/// than the bounds can be promised of a random sample.
#[verifier::external_body]
fn sample_fixed_point_coord() -> (r: i32)
    ensures
        -RANDOM_SCALE <= r < RANDOM_SCALE,
{
    rand::Rng::gen_range(&mut rand::thread_rng(), -RANDOM_SCALE..RANDOM_SCALE)
}

impl Direction {
    /// The eight compass directions, in their canonical order.
    pub fn directions() -> (r: Vec<Direction>)
        ensures
            r@ =~= seq![
                Direction::Up,
                Direction::Down,
                Direction::Left,
                Direction::Right,
                Direction::UpRight,
                Direction::UpLeft,
                Direction::DownRight,
                Direction::DownLeft,
            ],
    {
        let mut v: Vec<Direction> = Vec::new();
        v.push(Direction::Up);
        v.push(Direction::Down);
        v.push(Direction::Left);
        v.push(Direction::Right);
        v.push(Direction::UpRight);
        v.push(Direction::UpLeft);
        v.push(Direction::DownRight);
        v.push(Direction::DownLeft);
        v
    }

    /// Reduces a set of movement actions to one direction following the
    /// fixed precedence order.
    pub fn from_actions(actions: ActionSet) -> (r: Direction)
        ensures
            r == spec_direction_from_actions(actions),
    {
        if actions.contains(Action::MoveUp) && actions.contains(Action::MoveRight) {
            Direction::UpRight
        } else if actions.contains(Action::MoveDown) && actions.contains(Action::MoveLeft) {
            Direction::DownLeft
        } else if actions.contains(Action::MoveDown) && actions.contains(Action::MoveRight) {
            Direction::DownRight
        } else if actions.contains(Action::MoveUp) && actions.contains(Action::MoveLeft) {
            Direction::UpLeft
        } else if actions.contains(Action::MoveUp) {
            Direction::Up
        } else if actions.contains(Action::MoveDown) {
            Direction::Down
        } else if actions.contains(Action::MoveLeft) {
            Direction::Left
        } else if actions.contains(Action::MoveRight) {
            Direction::Right
        } else {
            Direction::Zero
        }
    }

    /// Resolves a list of actions directly to a movement vector, following
    /// the same precedence order as `from_actions`; a diagonal is the sum
    /// of its two cardinals' unit vectors.
    pub fn vec_from_actions(actions: &Vec<Action>) -> (r: DirVec)
        ensures
            r == spec_direction_vec(spec_direction_from_actions(action_list_as_set(actions@))),
    {
        let s = collect_actions(actions);
        let d = Direction::from_actions(s);
        match d {
            Direction::Up => DirVec { x: 0, y: 1 },
            Direction::Down => DirVec { x: 0, y: -1 },
            Direction::Right => DirVec { x: 1, y: 0 },
            Direction::Left => DirVec { x: -1, y: 0 },
            Direction::UpRight => DirVec { x: 1, y: 1 },
            Direction::UpLeft => DirVec { x: -1, y: 1 },
            Direction::DownRight => DirVec { x: 1, y: -1 },
            Direction::DownLeft => DirVec { x: -1, y: -1 },
            _ => DirVec { x: 0, y: 0 },
        }
    }

    /// True for the three directions with a negative x component.
    pub fn is_neg_x_axes(&self) -> (r: bool)
        ensures
            r == (*self == Direction::Left || *self == Direction::UpLeft
                || *self == Direction::DownLeft),
    {
        match self {
            Direction::Left => true,
            Direction::UpLeft => true,
            Direction::DownLeft => true,
            _ => false,
        }
    }

    /// The movement vector of this direction. Deterministic directions map
    /// to their fixed unit (or zero) vector; `Random` draws two independent
    /// uniform fixed-point samples and, when both are zero (which would
    /// make normalization undefined), falls back to the downward unit
    /// vector so that the result is never the zero vector.
    pub fn get_direction_vec(&self) -> (r: DirVec)
        ensures
            *self != Direction::Random ==> r == spec_direction_vec(*self),
            *self == Direction::Random ==> {
                &&& !(r.x == 0 && r.y == 0)
                &&& -RANDOM_SCALE <= r.x < RANDOM_SCALE
                &&& -RANDOM_SCALE <= r.y < RANDOM_SCALE
            },
    {
        match self {
            Direction::Up => DirVec { x: 0, y: 1 },
            Direction::Down => DirVec { x: 0, y: -1 },
            Direction::Right => DirVec { x: 1, y: 0 },
            Direction::Left => DirVec { x: -1, y: 0 },
            Direction::UpRight => DirVec { x: 1, y: 1 },
            Direction::UpLeft => DirVec { x: -1, y: 1 },
            Direction::DownRight => DirVec { x: 1, y: -1 },
            Direction::DownLeft => DirVec { x: -1, y: -1 },
            Direction::Random => {
                let x = sample_fixed_point_coord();
                let y = sample_fixed_point_coord();
                if x == 0 && y == 0 {
                    DirVec { x: 0, y: -RANDOM_SCALE }
                } else {
                    DirVec { x, y }
                }
            },
            Direction::Zero => DirVec { x: 0, y: 0 },
        }
    }
}

impl Default for Direction {
    /// The default direction is `Zero`: facing nowhere.
    fn default() -> (r: Direction)
        ensures
            r == Direction::Zero,
    {
        Direction::Zero
    }
}

/// Membership of an action in a plain list of actions.
pub open spec fn action_list_contains(s: Seq<Action>, a: Action) -> bool {
    exists|i: int| 0 <= i < s.len() && s[i] == a
}

/// The action set holding exactly the members of a list.
pub open spec fn action_list_as_set(s: Seq<Action>) -> ActionSet {
    ActionSet {
        idle: action_list_contains(s, Action::Idle),
        move_left: action_list_contains(s, Action::MoveLeft),
        move_right: action_list_contains(s, Action::MoveRight),
        move_up: action_list_contains(s, Action::MoveUp),
        move_down: action_list_contains(s, Action::MoveDown),
        attack: action_list_contains(s, Action::Attack),
        run: action_list_contains(s, Action::Run),
    }
}

/// Collects a list of actions into an action set; membership in the set
/// equals membership in the list.
fn collect_actions(actions: &Vec<Action>) -> (r: ActionSet)
    ensures
        r == action_list_as_set(actions@),
{
    let mut s = ActionSet::empty();
    let ghost all = actions@;
    for i in 0..actions.len()
        invariant
            all == actions@,
            i <= all.len(),
            forall|a: Action| s.spec_contains(a) == action_list_contains(all.take(i as int), a),
    {
        let a = actions[i];
        let ghost s_old = s;
        if !s.contains(a) {
            s.insert(a);
        }
        proof {
            assert forall|b: Action| s.spec_contains(b)
                == action_list_contains(all.take(i + 1), b) by {
                let pre = all.take(i as int);
                let cur = all.take(i + 1);
                if s.spec_contains(b) {
                    if b == a {
                        assert(cur[i as int] == b);
                        assert(action_list_contains(cur, b));
                    } else {
                        assert(s_old.spec_contains(b));
                        let j = choose|j: int| 0 <= j < pre.len() && pre[j] == b;
                        assert(cur[j] == b);
                        assert(action_list_contains(cur, b));
                    }
                }
                if action_list_contains(cur, b) {
                    let j = choose|j: int| 0 <= j < cur.len() && cur[j] == b;
                    if j < i {
                        assert(pre[j] == b);
                        assert(action_list_contains(pre, b));
                        assert(s_old.spec_contains(b));
                    } else {
                        assert(b == a);
                    }
                    assert(s.spec_contains(b));
                }
            }
        }
    }
    proof {
        assert(all.take(all.len() as int) =~= all);
        let target = action_list_as_set(all);
        assert(s.idle == target.idle) by {
            assert(s.spec_contains(Action::Idle) == action_list_contains(all, Action::Idle));
        }
        assert(s.move_left == target.move_left) by {
            assert(s.spec_contains(Action::MoveLeft) == action_list_contains(
                all,
                Action::MoveLeft,
            ));
        }
        assert(s.move_right == target.move_right) by {
            assert(s.spec_contains(Action::MoveRight) == action_list_contains(
                all,
                Action::MoveRight,
            ));
        }
        assert(s.move_up == target.move_up) by {
            assert(s.spec_contains(Action::MoveUp) == action_list_contains(all, Action::MoveUp));
        }
        assert(s.move_down == target.move_down) by {
            assert(s.spec_contains(Action::MoveDown) == action_list_contains(
                all,
                Action::MoveDown,
            ));
        }
        assert(s.attack == target.attack) by {
            assert(s.spec_contains(Action::Attack) == action_list_contains(all, Action::Attack));
        }
        assert(s.run == target.run) by {
            assert(s.spec_contains(Action::Run) == action_list_contains(all, Action::Run));
        }
        assert(s == target);
    }
    s
}

/// The resolution of a set of movement actions is deterministic and
/// follows the fixed precedence order: any set holding both actions of a
/// diagonal pair resolves to that diagonal (earlier pairs first), whatever
/// other actions are held; only afterwards are the four cardinals tested.
pub proof fn lemma_direction_precedence(s: ActionSet)
    ensures
        s.move_up && s.move_right ==> spec_direction_from_actions(s) == Direction::UpRight,
        !(s.move_up && s.move_right) && s.move_down && s.move_left
            ==> spec_direction_from_actions(s) == Direction::DownLeft,
        s.move_up && s.move_down && s.move_right
            ==> spec_direction_from_actions(s) == Direction::UpRight,
        !s.spec_has_movement() ==> spec_direction_from_actions(s) == Direction::Zero,
{
}

} // verus!
