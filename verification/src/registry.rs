//! The build-time animation asset registry: a table keyed by
//! `(CombinedState, Direction)` mapping to a frame range, a repeat timer
//! and a sprite-sheet layout/texture handle pair. It is populated once
//! when loading completes and read-only afterwards; for each state family
//! every compass direction plus `Zero` is registered, with `Zero` aliased
//! to the `Down`-facing texture (there is no distinct "facing nowhere"
//! art), and `Random` never resolved to art at all.
use vstd::prelude::*;

use crate::animation::AnimationIndices;
use crate::assoc::{assoc_get, assoc_has, lemma_assoc_get_at, lemma_assoc_push};
use crate::direction::Direction;
use crate::state_machine::{AttackState, MoveState, StateMachine};
use crate::timer::RepeatingTimer;

verus! {

/// The repeat interval shared by every clip of the sample character.
pub const FRAME_INTERVAL_US: u64 = 70000;

/// One registered clip: a frame range, a repeat timer, and the
/// sprite-sheet layout and texture it plays from (as plain handle ids).
#[derive(Clone, Copy, Debug, PartialEq, Eq, Structural)]
pub struct PlayerAnimationClip {
    pub indices: AnimationIndices,
    pub timer: RepeatingTimer,
    pub layout: u64,
    pub texture: u64,
}

/// One state family's sprite sheets: a shared atlas layout and one
/// texture per compass direction (as plain handle ids).
#[derive(Clone, Copy, Debug, PartialEq, Eq, Structural)]
pub struct FamilySheet {
    pub layout: u64,
    pub up: u64,
    pub down: u64,
    pub left: u64,
    pub right: u64,
    pub up_left: u64,
    pub up_right: u64,
    pub down_left: u64,
    pub down_right: u64,
}

/// The four state families' sheets used by the sample character.
#[derive(Clone, Copy, Debug, PartialEq, Eq, Structural)]
pub struct PlayerSheets {
    pub idle: FamilySheet,
    pub walk: FamilySheet,
    pub run: FamilySheet,
    pub attack: FamilySheet,
}

/// The texture a family sheet provides for a direction: each compass
/// direction has its own texture, and `Zero` is aliased to `Down`.
pub open spec fn sheet_texture(sh: FamilySheet, d: Direction) -> u64 {
    match d {
        Direction::Up => sh.up,
        Direction::Down => sh.down,
        Direction::Left => sh.left,
        Direction::Right => sh.right,
        Direction::UpLeft => sh.up_left,
        Direction::UpRight => sh.up_right,
        Direction::DownLeft => sh.down_left,
        Direction::DownRight => sh.down_right,
        _ => sh.down,
    }
}

/// The clip a family registers for a direction: the family's frame range
/// and layout, a fresh repeat timer, and the direction's texture.
pub open spec fn spec_family_clip(
    sh: FamilySheet,
    ind: AnimationIndices,
    d: Direction,
) -> PlayerAnimationClip {
    PlayerAnimationClip {
        indices: ind,
        timer: RepeatingTimer { duration_us: FRAME_INTERVAL_US, elapsed_us: 0 },
        layout: sh.layout,
        texture: sheet_texture(sh, d),
    }
}

/// The frame ranges of the four families; they differ because the source
/// sheets have different frame counts, but within a family every
/// direction shares the range.
pub open spec fn idle_indices() -> AnimationIndices {
    AnimationIndices { first: 0, last: 16 }
}

pub open spec fn walk_indices() -> AnimationIndices {
    AnimationIndices { first: 0, last: 10 }
}

pub open spec fn run_indices() -> AnimationIndices {
    AnimationIndices { first: 0, last: 7 }
}

pub open spec fn attack_indices() -> AnimationIndices {
    AnimationIndices { first: 0, last: 14 }
}

/// The process-wide animation registry, keyed by a combined-state tag and
/// a direction.
#[derive(Debug)]
pub struct PlayerAnimations {
    pub clips: Vec<((StateMachine, Direction), PlayerAnimationClip)>,
}

/// Every reachable `(state, direction)` key is registered: each of the
/// five combined-state tags, crossed with every direction but `Random`.
pub open spec fn spec_fully_populated(reg: PlayerAnimations) -> bool {
    forall|st: StateMachine, d: Direction|
        d != Direction::Random ==> #[trigger] reg.spec_has(st, d)
}

impl PlayerAnimations {
    pub open spec fn spec_has(self, st: StateMachine, d: Direction) -> bool {
        assoc_has(self.clips@, (st, d))
    }

    pub open spec fn spec_get(self, st: StateMachine, d: Direction) -> PlayerAnimationClip {
        assoc_get(self.clips@, (st, d))
    }

    /// An empty registry, as constructed at startup before the loading
    /// phase completes.
    pub fn new() -> (r: PlayerAnimations)
        ensures
            r.clips@.len() == 0,
            forall|st: StateMachine, d: Direction| !r.spec_has(st, d),
    {
        PlayerAnimations { clips: Vec::new() }
    }

    /// Registers a clip under a key. A key already registered keeps its
    /// earlier clip (lookup is first-match), so population is
    /// write-once per key.
    pub fn insert(&mut self, st: StateMachine, d: Direction, clip: PlayerAnimationClip)
        ensures
            forall|s2: StateMachine, d2: Direction|
                #[trigger] old(self).spec_has(s2, d2) ==> final(self).spec_has(s2, d2)
                    && final(self).spec_get(s2, d2) == old(self).spec_get(s2, d2),
            final(self).spec_has(st, d),
            !old(self).spec_has(st, d) ==> final(self).spec_get(st, d) == clip,
            forall|s2: StateMachine, d2: Direction|
                #[trigger] final(self).spec_has(s2, d2) ==> old(self).spec_has(s2, d2) || (s2
                    == st && d2 == d),
    {
        let ghost before = self.clips@;
        self.clips.push(((st, d), clip));
        proof {
            assert forall|s2: StateMachine, d2: Direction| true implies {
                &&& (assoc_has(before, (s2, d2)) ==> assoc_has(self.clips@, (s2, d2))
                    && assoc_get(self.clips@, (s2, d2)) == assoc_get(before, (s2, d2)))
                &&& (assoc_has(self.clips@, (s2, d2)) ==> assoc_has(before, (s2, d2)) || (s2
                    == st && d2 == d))
            } by {
                lemma_assoc_push(before, ((st, d), clip), (s2, d2));
            }
            lemma_assoc_push(before, ((st, d), clip), (st, d));
        }
    }

    /// Looks up the clip registered under a key; `Some` exactly when the
    /// key is registered (an unregistered key is a configuration error
    /// the caller must treat as fatal).
    pub fn get(&self, st: StateMachine, d: Direction) -> (r: Option<&PlayerAnimationClip>)
        ensures
            match r {
                Some(c) => self.spec_has(st, d) && *c == self.spec_get(st, d),
                None => !self.spec_has(st, d),
            },
    {
        let n = self.clips.len();
        for i in 0..n
            invariant
                n == self.clips.len(),
                forall|j: int| 0 <= j < i ==> self.clips@[j].0 != (st, d),
        {
            let key = &self.clips[i].0;
            if key.0 == st && key.1 == d {
                proof {
                    assert(self.clips@[i as int].0 == (st, d));
                    lemma_assoc_get_at(self.clips@, (st, d), i as int);
                }
                return Some(&self.clips[i].1);
            }
            proof {
                assert(self.clips@[i as int].0 != (st, d));
            }
        }
        None
    }
}

/// Registers one state family: every compass direction plus `Zero`, each
/// with the family's frame range, layout and a fresh repeat timer, and
/// `Zero` aliased to the `Down`-facing texture.
fn register_family(
    reg: &mut PlayerAnimations,
    st: StateMachine,
    sheet: &FamilySheet,
    ind: AnimationIndices,
)
    requires
        forall|d: Direction| !old(reg).spec_has(st, d),
    ensures
        forall|s2: StateMachine, d2: Direction|
            #[trigger] old(reg).spec_has(s2, d2) ==> final(reg).spec_has(s2, d2)
                && final(reg).spec_get(s2, d2) == old(reg).spec_get(s2, d2),
        forall|d: Direction|
            d != Direction::Random ==> #[trigger] final(reg).spec_has(st, d)
                && final(reg).spec_get(st, d) == spec_family_clip(*sheet, ind, d),
        forall|s2: StateMachine, d2: Direction|
            #[trigger] final(reg).spec_has(s2, d2) ==> old(reg).spec_has(s2, d2) || (s2 == st
                && d2 != Direction::Random),
{
    let timer = RepeatingTimer::new(FRAME_INTERVAL_US);
    reg.insert(st, Direction::Zero, PlayerAnimationClip {
        indices: ind,
        timer,
        layout: sheet.layout,
        texture: sheet.down,
    });
    reg.insert(st, Direction::Down, PlayerAnimationClip {
        indices: ind,
        timer,
        layout: sheet.layout,
        texture: sheet.down,
    });
    reg.insert(st, Direction::DownRight, PlayerAnimationClip {
        indices: ind,
        timer,
        layout: sheet.layout,
        texture: sheet.down_right,
    });
    reg.insert(st, Direction::DownLeft, PlayerAnimationClip {
        indices: ind,
        timer,
        layout: sheet.layout,
        texture: sheet.down_left,
    });
    reg.insert(st, Direction::Right, PlayerAnimationClip {
        indices: ind,
        timer,
        layout: sheet.layout,
        texture: sheet.right,
    });
    reg.insert(st, Direction::Left, PlayerAnimationClip {
        indices: ind,
        timer,
        layout: sheet.layout,
        texture: sheet.left,
    });
    reg.insert(st, Direction::Up, PlayerAnimationClip {
        indices: ind,
        timer,
        layout: sheet.layout,
        texture: sheet.up,
    });
    reg.insert(st, Direction::UpRight, PlayerAnimationClip {
        indices: ind,
        timer,
        layout: sheet.layout,
        texture: sheet.up_right,
    });
    reg.insert(st, Direction::UpLeft, PlayerAnimationClip {
        indices: ind,
        timer,
        layout: sheet.layout,
        texture: sheet.up_left,
    });
    proof {
        assert forall|d: Direction| d != Direction::Random implies #[trigger] reg.spec_has(st, d)
            && reg.spec_get(st, d) == spec_family_clip(*sheet, ind, d) by {
            match d {
                Direction::Zero => {},
                Direction::Random => {},
                Direction::Up => {},
                Direction::Down => {},
                Direction::Right => {},
                Direction::Left => {},
                Direction::UpRight => {},
                Direction::UpLeft => {},
                Direction::DownRight => {},
                Direction::DownLeft => {},
            }
        }
    }
}

/// Populates the registry for the sample character from the four loaded
/// sheet families: the movement states Idle, Walk and Run play their own
/// families, the attack-idle tag shares the Idle family's art, and the
/// attacking tag plays the Attack family. Every reachable key is
/// registered.
pub fn setup_animations(sheets: &PlayerSheets) -> (r: PlayerAnimations)
    ensures
        spec_fully_populated(r),
        forall|st: StateMachine| !#[trigger] r.spec_has(st, Direction::Random),
        forall|d: Direction|
            d != Direction::Random ==> #[trigger] r.spec_get(
                StateMachine::Move(MoveState::Idle),
                d,
            ) == spec_family_clip(sheets.idle, idle_indices(), d),
        forall|d: Direction|
            d != Direction::Random ==> #[trigger] r.spec_get(
                StateMachine::Move(MoveState::Walk),
                d,
            ) == spec_family_clip(sheets.walk, walk_indices(), d),
        forall|d: Direction|
            d != Direction::Random ==> #[trigger] r.spec_get(
                StateMachine::Move(MoveState::Run),
                d,
            ) == spec_family_clip(sheets.run, run_indices(), d),
        forall|d: Direction|
            d != Direction::Random ==> #[trigger] r.spec_get(
                StateMachine::Attack(AttackState::Idle),
                d,
            ) == spec_family_clip(sheets.idle, idle_indices(), d),
        forall|d: Direction|
            d != Direction::Random ==> #[trigger] r.spec_get(
                StateMachine::Attack(AttackState::Attack),
                d,
            ) == spec_family_clip(sheets.attack, attack_indices(), d),
{
    let ghost mi = StateMachine::Move(MoveState::Idle);
    let ghost mw = StateMachine::Move(MoveState::Walk);
    let ghost mr = StateMachine::Move(MoveState::Run);
    let ghost ai = StateMachine::Attack(AttackState::Idle);
    let ghost aa = StateMachine::Attack(AttackState::Attack);
    let mut reg = PlayerAnimations::new();
    register_family(
        &mut reg,
        StateMachine::Move(MoveState::Idle),
        &sheets.idle,
        AnimationIndices::new(0, 16),
    );
    let ghost r1 = reg;
    register_family(
        &mut reg,
        StateMachine::Move(MoveState::Walk),
        &sheets.walk,
        AnimationIndices::new(0, 10),
    );
    let ghost r2 = reg;
    register_family(
        &mut reg,
        StateMachine::Move(MoveState::Run),
        &sheets.run,
        AnimationIndices::new(0, 7),
    );
    let ghost r3 = reg;
    register_family(
        &mut reg,
        StateMachine::Attack(AttackState::Idle),
        &sheets.idle,
        AnimationIndices::new(0, 16),
    );
    let ghost r4 = reg;
    register_family(
        &mut reg,
        StateMachine::Attack(AttackState::Attack),
        &sheets.attack,
        AnimationIndices::new(0, 14),
    );
    proof {
        assert forall|d: Direction|
            #![trigger reg.spec_has(mi, d)]
            #![trigger reg.spec_get(mi, d)]
            d != Direction::Random implies reg.spec_has(mi, d)
            && reg.spec_get(mi, d) == spec_family_clip(sheets.idle, idle_indices(), d) by {
            assert(r1.spec_has(mi, d));
            assert(r2.spec_has(mi, d) && r2.spec_get(mi, d) == r1.spec_get(mi, d));
            assert(r3.spec_has(mi, d) && r3.spec_get(mi, d) == r2.spec_get(mi, d));
            assert(r4.spec_has(mi, d) && r4.spec_get(mi, d) == r3.spec_get(mi, d));
            assert(reg.spec_has(mi, d) && reg.spec_get(mi, d) == r4.spec_get(mi, d));
        }
        assert forall|d: Direction|
            #![trigger reg.spec_has(mw, d)]
            #![trigger reg.spec_get(mw, d)]
            d != Direction::Random implies reg.spec_has(mw, d)
            && reg.spec_get(mw, d) == spec_family_clip(sheets.walk, walk_indices(), d) by {
            assert(r2.spec_has(mw, d));
            assert(r3.spec_has(mw, d) && r3.spec_get(mw, d) == r2.spec_get(mw, d));
            assert(r4.spec_has(mw, d) && r4.spec_get(mw, d) == r3.spec_get(mw, d));
            assert(reg.spec_has(mw, d) && reg.spec_get(mw, d) == r4.spec_get(mw, d));
        }
        assert forall|d: Direction|
            #![trigger reg.spec_has(mr, d)]
            #![trigger reg.spec_get(mr, d)]
            d != Direction::Random implies reg.spec_has(mr, d)
            && reg.spec_get(mr, d) == spec_family_clip(sheets.run, run_indices(), d) by {
            assert(r3.spec_has(mr, d));
            assert(r4.spec_has(mr, d) && r4.spec_get(mr, d) == r3.spec_get(mr, d));
            assert(reg.spec_has(mr, d) && reg.spec_get(mr, d) == r4.spec_get(mr, d));
        }
        assert forall|d: Direction|
            #![trigger reg.spec_has(ai, d)]
            #![trigger reg.spec_get(ai, d)]
            d != Direction::Random implies reg.spec_has(ai, d)
            && reg.spec_get(ai, d) == spec_family_clip(sheets.idle, idle_indices(), d) by {
            assert(r4.spec_has(ai, d));
            assert(reg.spec_has(ai, d) && reg.spec_get(ai, d) == r4.spec_get(ai, d));
        }
        assert forall|d: Direction|
            #![trigger reg.spec_has(aa, d)]
            #![trigger reg.spec_get(aa, d)]
            d != Direction::Random implies reg.spec_has(aa, d) && reg.spec_get(aa, d)
            == spec_family_clip(sheets.attack, attack_indices(), d) by {
            assert(reg.spec_has(aa, d));
        }
        assert forall|st: StateMachine, d: Direction| d != Direction::Random implies #[trigger] reg
            .spec_has(st, d) by {
            match st {
                StateMachine::Move(MoveState::Idle) => {
                    assert(reg.spec_has(mi, d));
                },
                StateMachine::Move(MoveState::Walk) => {
                    assert(reg.spec_has(mw, d));
                },
                StateMachine::Move(MoveState::Run) => {
                    assert(reg.spec_has(mr, d));
                },
                StateMachine::Attack(AttackState::Idle) => {
                    assert(reg.spec_has(ai, d));
                },
                StateMachine::Attack(AttackState::Attack) => {
                    assert(reg.spec_has(aa, d));
                },
            }
        }
    }
    reg
}

/// Given a fully populated registry, lookup succeeds for every
/// combined-state tag crossed with every direction in the compass set
/// plus `Zero`: no missing-key failure is reachable.
pub proof fn lemma_registry_complete(reg: PlayerAnimations, st: StateMachine, d: Direction)
    requires
        spec_fully_populated(reg),
        d != Direction::Random,
    ensures
        reg.spec_has(st, d),
{
}

} // verus!
