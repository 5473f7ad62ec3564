//! Semantic input actions and the per-tick action set.
use vstd::prelude::*;

verus! {

/// A semantic input symbol derived from raw key/button state.
#[derive(Clone, Copy, Debug, PartialEq, Eq, Structural, Hash)]
pub enum Action {
    Idle,
    MoveLeft,
    MoveRight,
    MoveUp,
    MoveDown,
    Attack,
    Run,
}

/// The set of actions held during one tick. Produced fresh each tick;
/// membership is all that matters (no ordering, no duplicates).
#[derive(Clone, Copy, Debug, PartialEq, Eq, Structural)]
pub struct ActionSet {
    pub idle: bool,
    pub move_left: bool,
    pub move_right: bool,
    pub move_up: bool,
    pub move_down: bool,
    pub attack: bool,
    pub run: bool,
}

impl ActionSet {
    /// Membership of one action in the set.
    pub open spec fn spec_contains(self, a: Action) -> bool {
        match a {
            Action::Idle => self.idle,
            Action::MoveLeft => self.move_left,
            Action::MoveRight => self.move_right,
            Action::MoveUp => self.move_up,
            Action::MoveDown => self.move_down,
            Action::Attack => self.attack,
            Action::Run => self.run,
        }
    }

    /// The set holds no action at all.
    pub open spec fn spec_is_empty(self) -> bool {
        forall|a: Action| !self.spec_contains(a)
    }

    /// The set holds at least one movement action.
    pub open spec fn spec_has_movement(self) -> bool {
        self.move_up || self.move_down || self.move_left || self.move_right
    }

    /// The set with no member.
    pub open spec fn spec_empty() -> ActionSet {
        ActionSet {
            idle: false,
            move_left: false,
            move_right: false,
            move_up: false,
            move_down: false,
            attack: false,
            run: false,
        }
    }

    /// The set with one more member.
    pub open spec fn spec_insert(self, a: Action) -> ActionSet {
        match a {
            Action::Idle => ActionSet { idle: true, ..self },
            Action::MoveLeft => ActionSet { move_left: true, ..self },
            Action::MoveRight => ActionSet { move_right: true, ..self },
            Action::MoveUp => ActionSet { move_up: true, ..self },
            Action::MoveDown => ActionSet { move_down: true, ..self },
            Action::Attack => ActionSet { attack: true, ..self },
            Action::Run => ActionSet { run: true, ..self },
        }
    }

    pub fn empty() -> (r: ActionSet)
        ensures
            r == ActionSet::spec_empty(),
            r.spec_is_empty(),
    {
        let r = ActionSet {
            idle: false,
            move_left: false,
            move_right: false,
            move_up: false,
            move_down: false,
            attack: false,
            run: false,
        };
        r
    }

    pub fn contains(&self, a: Action) -> (r: bool)
        ensures
            r == self.spec_contains(a),
    {
        match a {
            Action::Idle => self.idle,
            Action::MoveLeft => self.move_left,
            Action::MoveRight => self.move_right,
            Action::MoveUp => self.move_up,
            Action::MoveDown => self.move_down,
            Action::Attack => self.attack,
            Action::Run => self.run,
        }
    }

    /// Adds one action; all other memberships are unchanged.
    pub fn insert(&mut self, a: Action)
        ensures
            *final(self) == old(self).spec_insert(a),
            final(self).spec_contains(a),
            forall|b: Action| b != a ==> final(self).spec_contains(b) == old(self).spec_contains(b),
    {
        match a {
            Action::Idle => self.idle = true,
            Action::MoveLeft => self.move_left = true,
            Action::MoveRight => self.move_right = true,
            Action::MoveUp => self.move_up = true,
            Action::MoveDown => self.move_down = true,
            Action::Attack => self.attack = true,
            Action::Run => self.run = true,
        }
    }

    pub fn is_empty(&self) -> (r: bool)
        ensures
            r == self.spec_is_empty(),
    {
        let r = !(self.idle || self.move_left || self.move_right || self.move_up
            || self.move_down || self.attack || self.run);
        if !r {
            assert(!self.spec_is_empty()) by {
                if self.idle {
                    assert(self.spec_contains(Action::Idle));
                } else if self.move_left {
                    assert(self.spec_contains(Action::MoveLeft));
                } else if self.move_right {
                    assert(self.spec_contains(Action::MoveRight));
                } else if self.move_up {
                    assert(self.spec_contains(Action::MoveUp));
                } else if self.move_down {
                    assert(self.spec_contains(Action::MoveDown));
                } else if self.attack {
                    assert(self.spec_contains(Action::Attack));
                } else {
                    assert(self.spec_contains(Action::Run));
                }
            }
        }
        r
    }

    /// True when the set holds any of the four movement actions.
    pub fn has_movement(&self) -> (r: bool)
        ensures
            r == self.spec_has_movement(),
    {
        self.move_up || self.move_down || self.move_left || self.move_right
    }
}

} // verus!
