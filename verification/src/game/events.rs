//! Notifications that a step hands to the host.

use vstd::prelude::*;

use super::components::Position;

verus! {

/// Sent when the snake should grow by one segment.
#[derive(Clone, Copy, PartialEq, Eq, Structural, Debug)]
pub struct GrowthEvent;

/// Sent when food was eaten; `position` is the cell the food was on.
#[derive(Clone, Copy, PartialEq, Eq, Structural, Debug)]
pub struct FoodEatenEvent {
    pub position: Position,
}

} // verus!
