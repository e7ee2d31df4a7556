//! A small 2D foraging simulation: autonomous ants roam a bounded plane,
//! sense nearby food pellets and other ants, act on the advice of a pluggable
//! decision policy, spend energy over time, and bring food back to a nest
//! that spawns new ants.
//!
//! All lengths are fixed-point integers in thousandths of a world unit and
//! all angles are integer milliradians, so every quantity the simulation
//! computes with is exact and the whole tick pipeline can be verified.

use vstd::prelude::*;

pub mod ant;
pub mod config;
pub mod food;
pub mod ground;
pub mod nest;
pub mod num;
pub mod policy;
pub mod rotation;
pub mod sample;
pub mod trig;
pub mod vector2d;
pub mod vision;

use ant::{Ant, AntAction};
use nest::{Nest, NestAction};
use vision::Vision;

verus! {

/// The decision policy an embedding application supplies for its ants:
/// given one ant's current state and what it sees this tick, produce the
/// single action the world will apply on the ant's behalf. A policy may
/// keep private memory of its own (keyed by ant id), but must not touch
/// the world other than through the returned action.
pub trait AntLogic {
    fn update(&mut self, ant: &Ant, vision: &Vec<Vision>) -> AntAction
        requires
            ant.wf(),
    ;
}

/// The decision policy for nests: given a nest's current state, decide
/// whether it should fund new ants this tick.
pub trait NestLogic {
    fn update(&mut self, nest: &Nest) -> NestAction;
}

} // verus!
