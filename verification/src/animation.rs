//! Animation playback: frame-index advancement within an inclusive
//! range, driven by a repeating timer, and the per-entity playback
//! record that reacts to state/direction changes by re-clamping the
//! displayed index into the new asset's range.
use vstd::prelude::*;

use crate::assoc::{assoc_get, assoc_has, lemma_assoc_get_at};
use crate::direction::Direction;
use crate::state_machine::StateMachine;
use crate::timer::RepeatingTimer;

verus! {

/// An inclusive, zero-based, contiguous frame-index range `[first, last]`
/// of one sprite-sheet clip.
#[derive(Clone, Copy, Debug, PartialEq, Eq, Structural, Hash)]
pub struct AnimationIndices {
    pub first: usize,
    pub last: usize,
}

/// One step of frame advancement: an index below the range snaps to
/// `first`, an index inside the range moves one frame forward, and an
/// index at (or beyond) `last` wraps back to `first`.
pub open spec fn spec_advance(ind: AnimationIndices, idx: usize) -> usize {
    if idx < ind.first {
        ind.first
    } else if idx < ind.last {
        (idx + 1) as usize
    } else {
        ind.first
    }
}

/// `n` successive steps of frame advancement.
pub open spec fn spec_advance_n(ind: AnimationIndices, idx: usize, n: nat) -> usize
    decreases n,
{
    if n == 0 {
        idx
    } else {
        spec_advance_n(ind, spec_advance(ind, idx), (n - 1) as nat)
    }
}

impl AnimationIndices {
    pub fn new(first: usize, last: usize) -> (r: AnimationIndices)
        ensures
            r.first == first,
            r.last == last,
    {
        AnimationIndices { first, last }
    }

    /// Advances a displayed frame index by one step within this range.
    pub fn advance(&self, idx: usize) -> (r: usize)
        ensures
            r == spec_advance(*self, idx),
    {
        if idx < self.first {
            self.first
        } else if idx < self.last {
            idx + 1
        } else {
            self.first
        }
    }

    /// Clamps a displayed frame index into this range, preserving as much
    /// playback position as possible on a clip change.
    pub fn clamp_index(&self, idx: usize) -> (r: usize)
        requires
            self.first <= self.last,
        ensures
            r == spec_clamp(*self, idx),
            self.first <= r <= self.last,
    {
        if idx < self.first {
            self.first
        } else if idx > self.last {
            self.last
        } else {
            idx
        }
    }
}

/// Clamping of an index into an inclusive range.
pub open spec fn spec_clamp(ind: AnimationIndices, idx: usize) -> usize {
    if idx < ind.first {
        ind.first
    } else if idx > ind.last {
        ind.last
    } else {
        idx
    }
}

/// One step of advancement always lands inside the range.
pub proof fn lemma_advance_in_range(ind: AnimationIndices, idx: usize)
    requires
        ind.first <= ind.last,
    ensures
        ind.first <= spec_advance(ind, idx) <= ind.last,
{
}

/// Any number of steps from a position inside the range stays inside the
/// range: the displayed index never exceeds `last` nor falls below
/// `first` at any point of playback.
pub proof fn lemma_advance_n_in_range(ind: AnimationIndices, idx: usize, n: nat)
    requires
        ind.first <= ind.last,
        ind.first <= idx <= ind.last,
    ensures
        ind.first <= spec_advance_n(ind, idx, n) <= ind.last,
    decreases n,
{
    if n > 0 {
        lemma_advance_n_in_range(ind, spec_advance(ind, idx), (n - 1) as nat);
    }
}

/// Advancing `k` steps from a position at least `k` frames before `last`
/// moves exactly `k` frames forward.
proof fn lemma_advance_n_linear(ind: AnimationIndices, idx: usize, k: nat)
    requires
        ind.first <= idx,
        idx + k <= ind.last,
    ensures
        spec_advance_n(ind, idx, k) == idx + k,
    decreases k,
{
    if k > 0 {
        lemma_advance_n_linear(ind, spec_advance(ind, idx), (k - 1) as nat);
    }
}

/// `n + 1` steps are one step after `n` steps.
proof fn lemma_advance_n_snoc(ind: AnimationIndices, idx: usize, n: nat)
    ensures
        spec_advance_n(ind, idx, n + 1) == spec_advance(ind, spec_advance_n(ind, idx, n)),
    decreases n,
{
    assert(spec_advance_n(ind, idx, n + 1) == spec_advance_n(ind, spec_advance(ind, idx), n));
    if n > 0 {
        lemma_advance_n_snoc(ind, spec_advance(ind, idx), (n - 1) as nat);
        assert(spec_advance_n(ind, idx, n) == spec_advance_n(ind, spec_advance(ind, idx), (n - 1) as nat));
    }
}

/// A full playback cycle: starting at `first`, after exactly
/// `last - first + 1` timer completions the displayed index equals
/// `first` again, having stayed inside `[first, last]` throughout.
pub proof fn lemma_frame_cycle(ind: AnimationIndices)
    requires
        ind.first <= ind.last,
    ensures
        spec_advance_n(ind, ind.first, (ind.last - ind.first + 1) as nat) == ind.first,
        forall|n: nat| ind.first <= #[trigger] spec_advance_n(ind, ind.first, n) <= ind.last,
{
    let m = (ind.last - ind.first) as nat;
    lemma_advance_n_linear(ind, ind.first, m);
    lemma_advance_n_snoc(ind, ind.first, m);
    assert forall|n: nat| ind.first <= #[trigger] spec_advance_n(ind, ind.first, n)
        <= ind.last by {
        lemma_advance_n_in_range(ind, ind.first, n);
    }
}

/// A self-contained playback component: one frame range with its own
/// repeating timer.
#[derive(Clone, Copy, Debug, PartialEq, Eq, Structural)]
pub struct AnimationClip {
    pub indices: AnimationIndices,
    pub timer: RepeatingTimer,
}

impl AnimationClip {
    /// One playback tick: the timer advances by the elapsed time, and on
    /// each interval completion the displayed atlas index moves one frame
    /// within the clip's range (wrapping after `last`). Without a
    /// completion the index is untouched.
    pub fn animate(&mut self, atlas_index: &mut usize, delta_us: u64)
        requires
            old(self).timer.wf(),
            old(self).timer.elapsed_us + delta_us <= u64::MAX,
        ensures
            final(self).timer.wf(),
            final(self).indices == old(self).indices,
            final(self).timer.duration_us == old(self).timer.duration_us,
            final(self).timer.elapsed_us == (old(self).timer.elapsed_us + delta_us) as u64
                % old(self).timer.duration_us,
            old(self).timer.elapsed_us + delta_us >= old(self).timer.duration_us
                ==> *final(atlas_index) == spec_advance(old(self).indices, *old(atlas_index)),
            old(self).timer.elapsed_us + delta_us < old(self).timer.duration_us
                ==> *final(atlas_index) == *old(atlas_index),
    {
        let finished = self.timer.tick(delta_us);
        if finished {
            *atlas_index = self.indices.advance(*atlas_index);
        }
    }
}

/// The per-entity playback record of the event-driven animation player:
/// the state and direction whose asset is currently displayed, and the
/// playback timer.
#[derive(Clone, Copy, Debug, PartialEq, Eq, Structural)]
pub struct Animation {
    pub timer: RepeatingTimer,
    pub direction: Direction,
    pub state: StateMachine,
}

/// The displayed sprite-sheet selection of an entity: the atlas layout
/// (as a plain handle id) and the displayed frame index within it.
#[derive(Clone, Copy, Debug, PartialEq, Eq, Structural)]
pub struct TextureAtlasState {
    pub layout: u64,
    pub index: usize,
}

/// One animation asset family: a sprite-sheet layout and texture (as
/// plain handle ids) and a frame range per direction.
#[derive(Debug)]
pub struct AnimationAsset {
    pub atlas_layout: u64,
    pub texture: u64,
    pub indices: Vec<(Direction, AnimationIndices)>,
    pub is_loaded: bool,
}

impl AnimationAsset {
    /// Looks up the frame range registered for a direction; `Some` exactly
    /// when the direction is registered.
    pub fn indices_for(&self, d: Direction) -> (r: Option<&AnimationIndices>)
        ensures
            match r {
                Some(ind) => assoc_has(self.indices@, d) && *ind == assoc_get(self.indices@, d),
                None => !assoc_has(self.indices@, d),
            },
    {
        let n = self.indices.len();
        for i in 0..n
            invariant
                n == self.indices.len(),
                forall|j: int| 0 <= j < i ==> self.indices@[j].0 != d,
        {
            if self.indices[i].0 == d {
                proof {
                    lemma_assoc_get_at(self.indices@, d, i as int);
                }
                return Some(&self.indices[i].1);
            }
        }
        None
    }
}

/// The event-driven animation registry: one asset per combined-state tag.
#[derive(Debug)]
pub struct AnimationAssets {
    pub assets: Vec<(StateMachine, AnimationAsset)>,
}

impl AnimationAssets {
    pub open spec fn spec_has(self, s: StateMachine) -> bool {
        assoc_has(self.assets@, s)
    }

    pub open spec fn spec_get(self, s: StateMachine) -> AnimationAsset {
        assoc_get(self.assets@, s)
    }

    pub fn new() -> (r: AnimationAssets)
        ensures
            r.assets@.len() == 0,
            forall|s: StateMachine| !r.spec_has(s),
    {
        AnimationAssets { assets: Vec::new() }
    }

    /// Looks up the asset registered for a combined-state tag; `Some`
    /// exactly when the tag is registered.
    pub fn get(&self, s: StateMachine) -> (r: Option<&AnimationAsset>)
        ensures
            match r {
                Some(a) => self.spec_has(s) && *a == self.spec_get(s),
                None => !self.spec_has(s),
            },
    {
        let n = self.assets.len();
        for i in 0..n
            invariant
                n == self.assets.len(),
                forall|j: int| 0 <= j < i ==> self.assets@[j].0 != s,
        {
            if self.assets[i].0 == s {
                proof {
                    lemma_assoc_get_at(self.assets@, s, i as int);
                }
                return Some(&self.assets[i].1);
            }
        }
        None
    }
}

/// A "state or direction changed" notification: the playback component is
/// to be re-targeted at the asset of this state and direction. A timer
/// interval change may ride along.
#[derive(Clone, Copy, Debug, PartialEq, Eq, Structural)]
pub struct AnimateEvent {
    pub new_state: StateMachine,
    pub new_direction: Direction,
    pub new_timer_duration_us: Option<u64>,
}

impl AnimateEvent {
    pub fn new(new_state: StateMachine, new_direction: Direction) -> (r: AnimateEvent)
        ensures
            r.new_state == new_state,
            r.new_direction == new_direction,
            r.new_timer_duration_us is None,
    {
        AnimateEvent { new_state, new_direction, new_timer_duration_us: None }
    }

    /// Attaches (or clears) a new timer interval on the event.
    pub fn new_timer(&mut self, new_timer_duration_us: Option<u64>)
        ensures
            final(self).new_state == old(self).new_state,
            final(self).new_direction == old(self).new_direction,
            final(self).new_timer_duration_us == new_timer_duration_us,
    {
        self.new_timer_duration_us = new_timer_duration_us;
    }
}

impl Animation {
    /// One tick of the event-driven player: the timer advances, and on a
    /// completion the displayed index moves one frame within the range
    /// registered for the current state and direction. A direction with no
    /// registered range leaves the index untouched (the timer still
    /// accrues). The current state must be registered.
    pub fn animate(
        &mut self,
        atlas: &mut TextureAtlasState,
        assets: &AnimationAssets,
        delta_us: u64,
    )
        requires
            old(self).timer.wf(),
            old(self).timer.elapsed_us + delta_us <= u64::MAX,
            assets.spec_has(old(self).state),
        ensures
            final(self).state == old(self).state,
            final(self).direction == old(self).direction,
            final(self).timer.wf(),
            final(self).timer.duration_us == old(self).timer.duration_us,
            final(self).timer.elapsed_us == (old(self).timer.elapsed_us + delta_us) as u64
                % old(self).timer.duration_us,
            final(atlas).layout == old(atlas).layout,
            ({
                let finished = old(self).timer.elapsed_us + delta_us
                    >= old(self).timer.duration_us;
                let asset = assets.spec_get(old(self).state);
                if finished && assoc_has(asset.indices@, old(self).direction) {
                    final(atlas).index == spec_advance(
                        assoc_get(asset.indices@, old(self).direction),
                        old(atlas).index,
                    )
                } else {
                    final(atlas).index == old(atlas).index
                }
            }),
    {
        let asset = match assets.get(self.state) {
            Some(a) => a,
            None => {
                proof {
                    assert(false);
                }
                unreached()
            },
        };
        let finished = self.timer.tick(delta_us);
        if let Some(indices) = asset.indices_for(self.direction) {
            if finished {
                atlas.index = indices.advance(atlas.index);
            }
        }
    }

    /// Applies one "state or direction changed" notification: looks up the
    /// new asset, clamps the previously displayed index into the new
    /// asset's range (continuity-preserving, not reset-to-first), swaps
    /// the displayed texture and layout, and records the new state and
    /// direction. The full record is applied each time, so of several
    /// notifications in one tick the last one wins. The new state and
    /// direction must be registered, and the asset's range well-formed.
    pub fn apply_event(
        &mut self,
        atlas: &mut TextureAtlasState,
        texture: &mut u64,
        assets: &AnimationAssets,
        ev: &AnimateEvent,
    )
        requires
            assets.spec_has(ev.new_state),
            assoc_has(assets.spec_get(ev.new_state).indices@, ev.new_direction),
            ({
                let ind = assoc_get(assets.spec_get(ev.new_state).indices@, ev.new_direction);
                ind.first <= ind.last
            }),
        ensures
            final(self).state == ev.new_state,
            final(self).direction == ev.new_direction,
            final(self).timer == old(self).timer,
            *final(texture) == assets.spec_get(ev.new_state).texture,
            final(atlas).layout == assets.spec_get(ev.new_state).atlas_layout,
            final(atlas).index == spec_clamp(
                assoc_get(assets.spec_get(ev.new_state).indices@, ev.new_direction),
                old(atlas).index,
            ),
    {
        let asset = match assets.get(ev.new_state) {
            Some(a) => a,
            None => {
                proof {
                    assert(false);
                }
                unreached()
            },
        };
        let indices = match asset.indices_for(ev.new_direction) {
            Some(ind) => ind,
            None => {
                proof {
                    assert(false);
                }
                unreached()
            },
        };
        let index = indices.clamp_index(atlas.index);
        self.state = ev.new_state;
        self.direction = ev.new_direction;
        *texture = asset.texture;
        atlas.layout = asset.atlas_layout;
        atlas.index = index;
    }

    /// Processes one tick's queued "state or direction changed"
    /// notifications in arrival order. Each applies the full record, so
    /// none is skipped and the last one's state is what remains visible;
    /// the displayed index is the chain of continuity-preserving clamps.
    /// Every notification's target must be registered with a well-formed
    /// range.
    pub fn listen_for_texture_change(
        &mut self,
        atlas: &mut TextureAtlasState,
        texture: &mut u64,
        assets: &AnimationAssets,
        events: &Vec<AnimateEvent>,
    )
        requires
            spec_events_ok(*assets, events@),
        ensures
            final(self).timer == old(self).timer,
            events@.len() == 0 ==> *final(self) == *old(self) && *final(atlas) == *old(atlas)
                && *final(texture) == *old(texture),
            events@.len() > 0 ==> {
                let last = events@.last();
                &&& final(self).state == last.new_state
                &&& final(self).direction == last.new_direction
                &&& *final(texture) == assets.spec_get(last.new_state).texture
                &&& final(atlas).layout == assets.spec_get(last.new_state).atlas_layout
                &&& final(atlas).index == spec_clamp_chain(*assets, old(atlas).index, events@)
            },
    {
        let ghost all = events@;
        let n = events.len();
        for i in 0..n
            invariant
                n == events.len(),
                all == events@,
                spec_events_ok(*assets, all),
                self.timer == old(self).timer,
                i == 0 ==> *self == *old(self) && *atlas == *old(atlas) && *texture == *old(
                    texture,
                ),
                i > 0 ==> {
                    let last = all[i - 1];
                    &&& self.state == last.new_state
                    &&& self.direction == last.new_direction
                    &&& *texture == assets.spec_get(last.new_state).texture
                    &&& atlas.layout == assets.spec_get(last.new_state).atlas_layout
                    &&& atlas.index == spec_clamp_chain(*assets, old(atlas).index, all.take(i as int))
                },
        {
            let ghost idx_before = atlas.index;
            let ghost prefix = all.take(i as int);
            self.apply_event(atlas, texture, assets, &events[i]);
            proof {
                assert(all.take(i + 1) =~= prefix.push(all[i as int]));
                if i == 0 {
                    assert(prefix =~= Seq::<AnimateEvent>::empty());
                    assert(spec_clamp_chain(*assets, old(atlas).index, prefix) == old(
                        atlas,
                    ).index);
                }
                lemma_clamp_chain_snoc(*assets, old(atlas).index, prefix, all[i as int]);
            }
        }
        proof {
            assert(all.take(all.len() as int) =~= all);
        }
    }
}

/// The frame range a notification re-targets the playback to.
pub open spec fn spec_event_indices(assets: AnimationAssets, ev: AnimateEvent) -> AnimationIndices {
    assoc_get(assets.spec_get(ev.new_state).indices@, ev.new_direction)
}

/// Every notification's target state and direction are registered, with
/// a well-formed frame range.
pub open spec fn spec_events_ok(assets: AnimationAssets, events: Seq<AnimateEvent>) -> bool {
    forall|i: int|
        0 <= i < events.len() ==> {
            &&& assets.spec_has((#[trigger] events[i]).new_state)
            &&& assoc_has(assets.spec_get(events[i].new_state).indices@, events[i].new_direction)
            &&& spec_event_indices(assets, events[i]).first <= spec_event_indices(
                assets,
                events[i],
            ).last
        }
}

/// The displayed index after clamping through a chain of re-targets, in
/// arrival order.
pub open spec fn spec_clamp_chain(
    assets: AnimationAssets,
    idx: usize,
    events: Seq<AnimateEvent>,
) -> usize
    decreases events.len(),
{
    if events.len() == 0 {
        idx
    } else {
        spec_clamp_chain(
            assets,
            spec_clamp(spec_event_indices(assets, events.first()), idx),
            events.drop_first(),
        )
    }
}

/// One more re-target at the end of a chain clamps the chain's result.
proof fn lemma_clamp_chain_snoc(
    assets: AnimationAssets,
    idx: usize,
    events: Seq<AnimateEvent>,
    ev: AnimateEvent,
)
    ensures
        spec_clamp_chain(assets, idx, events.push(ev)) == spec_clamp(
            spec_event_indices(assets, ev),
            spec_clamp_chain(assets, idx, events),
        ),
    decreases events.len(),
{
    let s1 = events.push(ev);
    if events.len() == 0 {
        assert(s1.len() == 1);
        assert(s1.first() == ev);
        assert(s1.drop_first() =~= Seq::<AnimateEvent>::empty());
        assert(spec_clamp_chain(
            assets,
            spec_clamp(spec_event_indices(assets, ev), idx),
            s1.drop_first(),
        ) == spec_clamp(spec_event_indices(assets, ev), idx));
    } else {
        assert(s1.drop_first() =~= events.drop_first().push(ev));
        assert(s1.first() == events.first());
        lemma_clamp_chain_snoc(
            assets,
            spec_clamp(spec_event_indices(assets, events.first()), idx),
            events.drop_first(),
            ev,
        );
        assert(spec_clamp_chain(assets, idx, s1) == spec_clamp_chain(
            assets,
            spec_clamp(spec_event_indices(assets, events.first()), idx),
            events.drop_first().push(ev),
        ));
    }
}

} // verus!
