//! Nests: a pool of energy that funds new ants, drained by upkeep and by
//! each spawn, and a policy interface for deciding when to spawn.

use vstd::prelude::*;

use crate::vector2d::Vector2D;

verus! {

/// What a nest decides to do in one tick.
pub enum NestAction {
    Nothing,
    SpawnAnts(usize),
}

#[derive(Clone, Copy, Debug)]
pub struct Nest {
    pub id: usize,
    pub pos: Vector2D,
    pub energy: u32,
    pub rounds_to_energy_loss: u32,
}

impl Nest {
    pub fn is_alive(&self) -> (r: bool)
        ensures
            r == (self.energy > 0),
    {
        self.energy > 0
    }
}

} // verus!
