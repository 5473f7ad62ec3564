//! Movement commands handed to the position-integration collaborator.
use vstd::prelude::*;

use crate::direction::Direction;

verus! {

/// A "move" command: which entity moves, in which direction, and with
/// what acceleration multiplier and base speed. The consumer normalizes
/// the direction's vector before scaling by speed.
#[derive(Clone, Copy, Debug, PartialEq, Eq, Structural)]
pub struct MoveEvent {
    pub entity: u64,
    pub direction: Direction,
    pub acceleration: u32,
    pub speed: u32,
}

/// The end of an entity's movement.
#[derive(Clone, Copy, Debug, PartialEq, Eq, Structural)]
pub struct MoveEndEvent {
    pub entity: u64,
}

impl MoveEvent {
    pub fn new(entity: &u64, direction: Direction, acceleration: u32, speed: u32) -> (r:
        MoveEvent)
        ensures
            r.entity == *entity,
            r.direction == direction,
            r.acceleration == acceleration,
            r.speed == speed,
    {
        MoveEvent { entity: *entity, direction, acceleration, speed }
    }
}

} // verus!
