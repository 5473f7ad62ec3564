//! The hierarchical character state machine: two independent sub-machines
//! (movement and attack), each advanced once per tick by explicit
//! predicate-based transitions over the current action set. Every state
//! has a defined response to every action-set configuration: the "no
//! match" branch is always "stay", so no invalid-transition error is
//! representable.
use vstd::prelude::*;

use crate::actions::{Action, ActionSet};

verus! {

/// The movement sub-machine's states.
#[derive(Clone, Copy, Debug, PartialEq, Eq, Structural, Hash)]
pub enum MoveState {
    Idle,
    Walk,
    Run,
}

/// The attack sub-machine's states.
#[derive(Clone, Copy, Debug, PartialEq, Eq, Structural, Hash)]
pub enum AttackState {
    Idle,
    Attack,
}

/// The tag of the combined character state, used as the state half of an
/// animation-registry key: one movement state or one attack state.
#[derive(Clone, Copy, Debug, PartialEq, Eq, Structural, Hash)]
pub enum StateMachine {
    Move(MoveState),
    Attack(AttackState),
}

/// The shared transition contract of the two sub-machines: one step over
/// the current action set, reporting whether the state actually changed
/// (a transition to the same state is not representable; every transition
/// moves to a different state).
pub trait StateInterface: Sized {
    /// The successor state of `self` under the action set `actions`.
    spec fn spec_next(self, actions: ActionSet) -> Self;

    /// Advances the state by one step; returns whether a transition
    /// occurred, so that a caller can trigger one-shot side effects only
    /// on actual change.
    fn transit_to_next(&mut self, actions: &ActionSet) -> (changed: bool)
        ensures
            *final(self) == old(self).spec_next(*actions),
            changed == (*final(self) != *old(self)),
    ;
}

impl StateInterface for MoveState {
    /// Movement transitions: Idle moves to Walk on any movement action;
    /// Walk falls back to Idle when no movement action is held (tested
    /// before the Run promotion, so Run alone cannot keep the walk going)
    /// and is promoted to Run when the Run action is held; Run demotes to
    /// Walk when Run is released and never drops straight to Idle.
    open spec fn spec_next(self, actions: ActionSet) -> MoveState {
        match self {
            MoveState::Idle => if actions.spec_has_movement() {
                MoveState::Walk
            } else {
                MoveState::Idle
            },
            MoveState::Walk => if !actions.spec_has_movement() {
                MoveState::Idle
            } else if actions.run {
                MoveState::Run
            } else {
                MoveState::Walk
            },
            MoveState::Run => if !actions.run {
                MoveState::Walk
            } else {
                MoveState::Run
            },
        }
    }

    fn transit_to_next(&mut self, actions: &ActionSet) -> (changed: bool) {
        match *self {
            MoveState::Idle => {
                if actions.has_movement() {
                    *self = MoveState::Walk;
                    return true;
                }
                false
            },
            MoveState::Walk => {
                if !actions.has_movement() {
                    *self = MoveState::Idle;
                    return true;
                }
                if actions.contains(Action::Run) {
                    *self = MoveState::Run;
                    return true;
                }
                false
            },
            MoveState::Run => {
                if !actions.contains(Action::Run) {
                    *self = MoveState::Walk;
                    return true;
                }
                false
            },
        }
    }
}

impl StateInterface for AttackState {
    /// Attack transitions: the attack state is a direct reflection of the
    /// instantaneous Attack action - Idle moves to Attack when it is held,
    /// Attack returns to Idle when it is not.
    open spec fn spec_next(self, actions: ActionSet) -> AttackState {
        match self {
            AttackState::Idle => if actions.attack {
                AttackState::Attack
            } else {
                AttackState::Idle
            },
            AttackState::Attack => if !actions.attack {
                AttackState::Idle
            } else {
                AttackState::Attack
            },
        }
    }

    fn transit_to_next(&mut self, actions: &ActionSet) -> (changed: bool) {
        match *self {
            AttackState::Idle => {
                if actions.contains(Action::Attack) {
                    *self = AttackState::Attack;
                    return true;
                }
                false
            },
            AttackState::Attack => {
                if !actions.contains(Action::Attack) {
                    *self = AttackState::Idle;
                    return true;
                }
                false
            },
        }
    }
}

impl StateMachine {
    pub fn idle() -> (r: StateMachine)
        ensures
            r == StateMachine::Move(MoveState::Idle),
    {
        StateMachine::Move(MoveState::Idle)
    }

    pub fn walk() -> (r: StateMachine)
        ensures
            r == StateMachine::Move(MoveState::Walk),
    {
        StateMachine::Move(MoveState::Walk)
    }

    pub fn run() -> (r: StateMachine)
        ensures
            r == StateMachine::Move(MoveState::Run),
    {
        StateMachine::Move(MoveState::Run)
    }

    pub fn attack_idle() -> (r: StateMachine)
        ensures
            r == StateMachine::Attack(AttackState::Idle),
    {
        StateMachine::Attack(AttackState::Idle)
    }

    pub fn attack() -> (r: StateMachine)
        ensures
            r == StateMachine::Attack(AttackState::Attack),
    {
        StateMachine::Attack(AttackState::Attack)
    }

    pub fn from_move(state: MoveState) -> (r: StateMachine)
        ensures
            r == StateMachine::Move(state),
    {
        StateMachine::Move(state)
    }

    pub fn from_attack(state: AttackState) -> (r: StateMachine)
        ensures
            r == StateMachine::Attack(state),
    {
        StateMachine::Attack(state)
    }
}

/// The combined-state tag whose art is shown for a pair of sub-states:
/// an attacking character shows attack art whatever its movement state;
/// otherwise the movement state's own art is shown.
pub fn visual_state(move_state: MoveState, attack_state: AttackState) -> (r: StateMachine)
    ensures
        attack_state == AttackState::Attack ==> r == StateMachine::Attack(AttackState::Attack),
        attack_state == AttackState::Idle ==> r == StateMachine::Move(move_state),
{
    match attack_state {
        AttackState::Attack => StateMachine::Attack(AttackState::Attack),
        AttackState::Idle => StateMachine::Move(move_state),
    }
}

impl Default for MoveState {
    /// The movement sub-machine starts in Idle.
    fn default() -> (r: MoveState)
        ensures
            r == MoveState::Idle,
    {
        MoveState::Idle
    }
}

impl Default for AttackState {
    /// The attack sub-machine starts in Idle.
    fn default() -> (r: AttackState)
        ensures
            r == AttackState::Idle,
    {
        AttackState::Idle
    }
}

/// The movement sub-machine's transition table, stated for every state and
/// action set: from Idle any non-empty movement action set reaches Walk;
/// from Walk the absence of movement actions reaches Idle whatever else is
/// held (Idle-exit takes precedence over the Run promotion); from Walk
/// with movement and Run held, Run is reached; from Run the absence of the
/// Run action returns to Walk, never straight to Idle.
pub proof fn lemma_move_transitions(s: MoveState, a: ActionSet)
    ensures
        s == MoveState::Idle && a.spec_has_movement() ==> s.spec_next(a) == MoveState::Walk,
        s == MoveState::Idle && !a.spec_has_movement() ==> s.spec_next(a) == MoveState::Idle,
        s == MoveState::Walk && !a.spec_has_movement() ==> s.spec_next(a) == MoveState::Idle,
        s == MoveState::Walk && a.spec_has_movement() && a.run ==> s.spec_next(a)
            == MoveState::Run,
        s == MoveState::Walk && a.spec_has_movement() && !a.run ==> s.spec_next(a)
            == MoveState::Walk,
        s == MoveState::Run && !a.run ==> s.spec_next(a) == MoveState::Walk,
        s == MoveState::Run && a.run ==> s.spec_next(a) == MoveState::Run,
        s.spec_next(a) != MoveState::Idle || s != MoveState::Run,
{
}

/// The attack sub-machine's transition table, stated for every state and
/// action set: the successor is Attack if and only if the Attack action is
/// held. In particular the tick sequence of action sets {}, {Attack}, {}
/// starting from Idle passes through Idle, Attack and back to Idle.
pub proof fn lemma_attack_transitions(s: AttackState, a: ActionSet)
    ensures
        s.spec_next(a) == AttackState::Attack <==> a.attack,
        s.spec_next(a) == AttackState::Idle <==> !a.attack,
{
}

} // verus!
