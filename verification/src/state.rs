//! Per-state marker components, each carrying the direction the
//! character faces while in that state.
use vstd::prelude::*;

use crate::direction::Direction;

verus! {

/// Marker interface of the per-state components.
pub trait State {

}

#[derive(Clone, Copy, Debug, PartialEq, Eq, Structural)]
pub struct IdleState(pub Direction);

impl State for IdleState {

}

#[derive(Clone, Copy, Debug, PartialEq, Eq, Structural)]
pub struct WalkState(pub Direction);

impl State for WalkState {

}

#[derive(Clone, Copy, Debug, PartialEq, Eq, Structural)]
pub struct RunState(pub Direction);

impl State for RunState {

}

#[derive(Clone, Copy, Debug, PartialEq, Eq, Structural)]
pub struct AttackState(pub Direction);

impl State for AttackState {

}

impl Default for IdleState {
    /// An idle state facing nowhere.
    fn default() -> (r: IdleState)
        ensures
            r.0 == Direction::Zero,
    {
        IdleState(Direction::Zero)
    }
}

impl Default for WalkState {
    /// A walking state facing nowhere.
    fn default() -> (r: WalkState)
        ensures
            r.0 == Direction::Zero,
    {
        WalkState(Direction::Zero)
    }
}

impl Default for RunState {
    /// A running state facing nowhere.
    fn default() -> (r: RunState)
        ensures
            r.0 == Direction::Zero,
    {
        RunState(Direction::Zero)
    }
}

impl Default for AttackState {
    /// An attacking state facing nowhere.
    fn default() -> (r: AttackState)
        ensures
            r.0 == Direction::Zero,
    {
        AttackState(Direction::Zero)
    }
}

} // verus!
