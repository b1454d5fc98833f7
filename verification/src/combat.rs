//! What the physics core hands to whoever keeps score.

use crate::world::Entity;
use vstd::prelude::*;

verus! {

/// An actor touched terrain that kills on contact. The core only reports it;
/// it never removes the actor.
#[derive(Clone, Copy, Debug, PartialEq, Eq, Structural)]
pub struct DeathEvent(pub Entity);

/// Hit points, in thousandths of a point.
#[derive(Clone, Copy, Debug, PartialEq, Eq, Structural)]
pub struct Health {
    pub current: i64,
    pub max: i64,
}

} // verus!
