//! The sample character: its movement decision per action notification
//! and the initial playback state it is spawned with.
use vstd::prelude::*;

use crate::animation::{AnimationClip, TextureAtlasState};
use crate::actions::Action;
use crate::controls::ActionCommand;
use crate::direction::{spec_direction_from_actions, Direction};
use crate::movement::MoveEvent;
use crate::registry::PlayerAnimations;
use crate::state_machine::{MoveState, StateMachine};

verus! {

/// Marker for the player-controlled character entity.
#[derive(Clone, Copy, Debug, PartialEq, Eq, Structural)]
pub struct Player;

/// The character's base movement speed.
pub const PLAYER_SPEED: u32 = 200;

/// The movement decision for one action notification: a "move" command
/// exactly when a movement action is held, in the direction the action
/// set resolves to, at double acceleration while Run is held.
pub fn player_movement(player_entity: u64, event: &ActionCommand) -> (r: Option<MoveEvent>)
    ensures
        match r {
            Some(e) => {
                &&& event.actions.spec_has_movement()
                &&& e.entity == player_entity
                &&& e.direction == spec_direction_from_actions(event.actions)
                &&& e.acceleration == (if event.actions.run {
                    2u32
                } else {
                    1u32
                })
                &&& e.speed == PLAYER_SPEED
            },
            None => !event.actions.spec_has_movement(),
        },
{
    if event.actions.has_movement() {
        let acceleration: u32 = if event.actions.contains(Action::Run) {
            2
        } else {
            1
        };
        Some(
            MoveEvent::new(
                &player_entity,
                Direction::from_actions(event.actions),
                acceleration,
                PLAYER_SPEED,
            ),
        )
    } else {
        None
    }
}

/// The visual state a freshly spawned character starts in: the clip
/// registered for the idle state facing nowhere, displayed from its
/// first frame. The registry must hold that key (it does once fully
/// populated).
pub fn spawn_player(reg: &PlayerAnimations) -> (r: (AnimationClip, TextureAtlasState, u64))
    requires
        reg.spec_has(StateMachine::Move(MoveState::Idle), Direction::Zero),
    ensures
        ({
            let clip = reg.spec_get(StateMachine::Move(MoveState::Idle), Direction::Zero);
            &&& r.0.indices == clip.indices
            &&& r.0.timer == clip.timer
            &&& r.1.layout == clip.layout
            &&& r.1.index == clip.indices.first
            &&& r.2 == clip.texture
        }),
{
    let clip = match reg.get(StateMachine::Move(MoveState::Idle), Direction::Zero) {
        Some(c) => c,
        None => {
            proof {
                assert(false);
            }
            unreached()
        },
    };
    (
        AnimationClip { indices: clip.indices, timer: clip.timer },
        TextureAtlasState { layout: clip.layout, index: clip.indices.first },
        clip.texture,
    )
}

} // verus!
