//! Procedural planet generation: fixed-point climate synthesis, biome
//! classification and world assembly.
//!
//! Every continuous signal is carried in micro-units: the real value `x` is
//! stored as the integer `x * 1_000_000` (see [`fixed::UNIT`]).
use vstd::prelude::*;

pub mod fixed;
pub mod world;
pub mod biome;
pub mod noise;
pub mod climate;
pub mod generation;
pub mod render;
pub mod canvas;

verus! {

} // verus!
