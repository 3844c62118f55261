//! Planet archetypes and the generated world's data.
use vstd::prelude::*;
use crate::biome::Biome;

verus! {

/// Master planet archetype. Controls global climate offsets and the final
/// biome remapping pass.
#[derive(Clone, Copy, PartialEq, Eq, Structural, Debug, Hash)]
pub enum PlanetType {
    /// Earth-like: full biome spectrum, no global modifier.
    Terran,
    /// Fire world: extreme heat, near-zero moisture, volcanic terrain dominates.
    Volcanic,
    /// Ice world: perpetually frozen, glaciers and permafrost everywhere.
    Frozen,
    /// Acid world: toxic wetlands and caustic pools.
    Caustic,
    /// Dead rock: dust and stone as far as the eye can see.
    Barren,
}

impl PlanetType {
    /// Lower-case display name of the archetype.
    pub fn name(&self) -> (r: &'static str)
        ensures
            r@ == match *self {
                PlanetType::Terran => "terran"@,
                PlanetType::Volcanic => "volcanic"@,
                PlanetType::Frozen => "frozen"@,
                PlanetType::Caustic => "caustic"@,
                PlanetType::Barren => "barren"@,
            },
    {
        match self {
            PlanetType::Terran => "terran",
            PlanetType::Volcanic => "volcanic",
            PlanetType::Frozen => "frozen",
            PlanetType::Caustic => "caustic",
            PlanetType::Barren => "barren",
        }
    }
}

/// Picks an archetype from a roll in `0..5`; any larger roll is `Barren`.
pub fn random_planet(roll: u8) -> (pt: PlanetType)
    ensures
        roll == 0 ==> pt == PlanetType::Terran,
        roll == 1 ==> pt == PlanetType::Volcanic,
        roll == 2 ==> pt == PlanetType::Frozen,
        roll == 3 ==> pt == PlanetType::Caustic,
        roll >= 4 ==> pt == PlanetType::Barren,
{
    match roll {
        0 => PlanetType::Terran,
        1 => PlanetType::Volcanic,
        2 => PlanetType::Frozen,
        3 => PlanetType::Caustic,
        _ => PlanetType::Barren,
    }
}

/// One grid cell of a generated world. Signals are fixed-point micro-units.
#[derive(Clone, Copy, PartialEq, Eq, Structural, Debug)]
pub struct Tile {
    /// Column, in `[0, width)`.
    pub q: i32,
    /// Row, in `[0, height)`.
    pub r: i32,
    /// Rendered elevation in `[-UNIT, UNIT]` (before the sea-level shift).
    pub elevation: i32,
    /// Archetype-adjusted moisture in `[-UNIT, UNIT]`.
    pub moisture: i32,
    /// Archetype-adjusted temperature in `[0, UNIT]`.
    pub temperature: i32,
    pub biome: Biome,
}

/// A generated world: its generation parameters and one tile per grid cell
/// in column-major order (index `q * height + r`).
#[derive(Clone, Debug)]
pub struct World {
    pub width: i32,
    pub height: i32,
    pub seed: u32,
    /// Master planet archetype driving climate offsets and biome remapping.
    pub planet_type: PlanetType,
    /// Elevation bias applied before biome selection, in micro-units.
    /// Positive means more ocean, negative more land.
    pub sea_level: i32,
    /// Fraction of mountain chains that become volcanic, in micro-units.
    pub volcanic_intensity: i32,
    /// Equatorial circumference of the planet in kilometres.
    pub circumference_km: u32,
    /// Surface gravity relative to Earth in micro-units, in `[UNIT/10, 5*UNIT]`.
    pub gravity_modifier: i32,
    pub tiles: Vec<Tile>,
}

} // verus!
