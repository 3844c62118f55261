//! Climate synthesis: from a cell's noise samples and the world parameters
//! to elevation, moisture, temperature and volcanic activity, then to a tile.
use vstd::prelude::*;
use vstd::arithmetic::div_mod::{lemma_div_is_ordered, lemma_div_is_ordered_by_denominator, lemma_div_multiples_vanish, lemma_fundamental_div_mod_converse};
use crate::fixed::{UNIT, clamp, clamp_i64};
use crate::noise::{EARTH_CIRCUMFERENCE_KM, samples_in_range, fbm_of, fbm, ridged, int_sqrt, isqrt};
use crate::biome::{classify, choose_biome, offsets_of, planet_offsets};
use crate::world::{PlanetType, Tile};

verus! {

/// Octaves of the continent-shape fractal sum.
pub const CONTINENT_OCTAVES: usize = 5;
/// Octaves of the moisture fractal sum.
pub const MOISTURE_OCTAVES: usize = 4;
/// Octaves of the volcanic-activity fractal sum.
pub const VOLCANIC_OCTAVES: usize = 3;

/// The noise samples of one grid cell, each in `[-UNIT, UNIT]`.
///
/// The fractal sums are given octave by octave: entry `k` is the sample at
/// frequency `2^k` times the field's base frequency.
#[derive(Clone, Debug)]
pub struct CellNoise {
    /// Continent noise at `0.8 * scale * v`, one entry per octave.
    pub continent: Vec<i32>,
    /// Moisture noise at `1.5 * scale * v`, one entry per octave.
    pub moisture: Vec<i32>,
    /// Volcano noise at `scale * v`, one entry per octave.
    pub volcanic: Vec<i32>,
    /// Elevation noise at `5 * scale * wv`, the domain-warped position.
    pub mountain: i32,
}

impl CellNoise {
    /// Each field holds its number of octaves, all samples in range.
    pub open spec fn wf(&self) -> bool {
        &&& self.continent.len() == CONTINENT_OCTAVES
        &&& self.moisture.len() == MOISTURE_OCTAVES
        &&& self.volcanic.len() == VOLCANIC_OCTAVES
        &&& samples_in_range(self.continent@)
        &&& samples_in_range(self.moisture@)
        &&& samples_in_range(self.volcanic@)
        &&& -UNIT <= self.mountain <= UNIT
    }

    /// Checks [`CellNoise::wf`].
    pub fn is_well_formed(&self) -> (r: bool)
        ensures
            r == self.wf(),
    {
        self.continent.len() == CONTINENT_OCTAVES && self.moisture.len() == MOISTURE_OCTAVES
            && self.volcanic.len() == VOLCANIC_OCTAVES && all_in_range(&self.continent)
            && all_in_range(&self.moisture) && all_in_range(&self.volcanic) && -UNIT
            <= self.mountain && self.mountain <= UNIT
    }
}

/// Whether every sample lies in `[-UNIT, UNIT]`.
pub fn all_in_range(s: &Vec<i32>) -> (r: bool)
    ensures
        r == samples_in_range(s@),
{
    let mut i: usize = 0;
    while i < s.len()
        invariant
            i <= s.len(),
            forall|j: int| 0 <= j < i ==> -UNIT <= #[trigger] s@[j] <= UNIT,
        decreases s.len() - i,
    {
        if s[i] < -UNIT || s[i] > UNIT {
            return false;
        }
        i = i + 1;
    }
    true
}

pub open spec fn abs(x: int) -> int {
    if x < 0 {
        -x
    } else {
        x
    }
}

// ── Planet scale ────────────────────────────────────────────────────────────

/// Circumference floored to one kilometre.
pub open spec fn floored_circumference(c: int) -> int {
    if c < 1 {
        1
    } else {
        c
    }
}

/// Surface gravity relative to Earth, in micro-units:
/// `clamp(circumference / 40075, 0.1, 5.0)`, rounded down before clamping.
pub open spec fn gravity_of(c: int) -> int {
    clamp(floored_circumference(c) * UNIT / EARTH_CIRCUMFERENCE_KM as int, UNIT / 10, 5 * UNIT)
}

/// Circumference-derived proxy for surface gravity (constant density: g ∝ C).
pub fn gravity_modifier(circumference_km: u32) -> (r: i32)
    ensures
        r == gravity_of(circumference_km as int),
        UNIT / 10 <= r <= 5 * UNIT,
{
    let c: u64 = if circumference_km < 1 { 1 } else { circumference_km as u64 };
    let ratio = c * 1_000_000 / EARTH_CIRCUMFERENCE_KM as u64;
    clamp_i64(ratio as i64, 100_000, 5_000_000) as i32
}

/// Noise frequency multiplier `40075 / max(circumference, 1)`, in micro-units.
pub open spec fn noise_scale_of(c: int) -> int {
    EARTH_CIRCUMFERENCE_KM as int * UNIT / floored_circumference(c)
}

/// Frequency multiplier for every noise lookup: a planet larger than Earth
/// samples noise at a relatively lower frequency, giving broader continents.
pub fn noise_scale(circumference_km: u32) -> (r: u64)
    ensures
        r == noise_scale_of(circumference_km as int),
{
    let c: u64 = if circumference_km < 1 { 1 } else { circumference_km as u64 };
    40_075_000_000 / c
}

/// Weight of the ridged mountain layer: `0.35 / sqrt(gravity)`, in micro-units.
pub open spec fn blend_of(g: int) -> int {
    350_000_000_000int / int_sqrt((g * UNIT) as nat) as int
}

/// Mountain relief weight; stronger gravity flattens the landscape.
pub fn mountain_blend(gravity: i32) -> (r: i32)
    requires
        UNIT / 10 <= gravity <= 5 * UNIT,
    ensures
        r == blend_of(gravity as int),
        0 <= r <= 1_200_000,
{
    let n = gravity as u64 * 1_000_000;
    let s = isqrt(n);
    assert(s >= 316_227) by (nonlinear_arith)
        requires
            n >= 100_000_000_000,
            n < (s + 1) * (s + 1),
    ;
    proof {
        lemma_div_is_ordered_by_denominator(350_000_000_000, 316_227, s as int);
        lemma_fundamental_div_mod_converse(350_000_000_000, 316_227, 1_106_799, 272_627);
    }
    (350_000_000_000u64 / s) as i32
}

// ── Per-cell signals ────────────────────────────────────────────────────────

/// Share of mountain relief on elevated terrain: `clamp((c - 0.2) * 2.5, 0, 1)`.
pub open spec fn mountain_weight_of(continent: int) -> int {
    clamp((continent - 200_000) * 5 / 2, 0, UNIT as int)
}

fn mountain_weight(continent: i32) -> (r: i32)
    requires
        -UNIT <= continent <= UNIT,
    ensures
        r == mountain_weight_of(continent as int),
        0 <= r <= UNIT,
{
    let x = continent as i64 - 200_000;
    if x <= 0 {
        assert(x * 5 / 2 <= 0);
        0
    } else {
        clamp_i64(x * 5 / 2, 0, 1_000_000) as i32
    }
}

/// Rendered elevation: continent shape plus weighted ridged relief.
pub open spec fn elevation_of(continent: int, mountain: int, weight: int, blend: int) -> int {
    clamp(continent + mountain * weight / UNIT as int * blend / UNIT as int, -UNIT as int, UNIT as int)
}

fn elevation(continent: i32, mountain: i32, weight: i32, blend: i32) -> (r: i32)
    requires
        -UNIT <= continent <= UNIT,
        0 <= mountain <= UNIT,
        0 <= weight <= UNIT,
        0 <= blend <= 1_200_000,
    ensures
        r == elevation_of(continent as int, mountain as int, weight as int, blend as int),
        -UNIT <= r <= UNIT,
{
    assert(0 <= mountain * weight <= 1_000_000_000_000) by (nonlinear_arith)
        requires
            0 <= mountain <= 1_000_000,
            0 <= weight <= 1_000_000,
    ;
    let p = mountain as i64 * weight as i64;
    let a = p / 1_000_000;
    proof {
        lemma_div_is_ordered(p as int, 1_000_000_000_000, 1_000_000);
    }
    assert(0 <= a * blend <= 1_200_000_000_000) by (nonlinear_arith)
        requires
            0 <= a <= 1_000_000,
            0 <= blend <= 1_200_000,
    ;
    let b = a * blend as i64;
    let relief = b / 1_000_000;
    clamp_i64(continent as i64 + relief, -1_000_000, 1_000_000) as i32
}

/// Latitude gradient: `UNIT` at the equator falling to `0` at both poles.
pub open spec fn latitude_gradient(r: int, height: int) -> int {
    UNIT - abs(2 * r - height) * UNIT / height
}

/// Temperature: latitude gradient minus altitude cooling (`0.3` per unit of
/// biome elevation), clamped to `[0, UNIT]`.
pub open spec fn temperature_of(r: int, height: int, biome_elevation: int) -> int {
    clamp(10 * latitude_gradient(r, height) - 3 * biome_elevation, 0, 10 * UNIT) / 10
}

fn temperature(r: i32, height: i32, biome_elevation: i32) -> (t: i32)
    requires
        0 <= r < height,
        -UNIT <= biome_elevation <= UNIT,
    ensures
        t == temperature_of(r as int, height as int, biome_elevation as int),
        0 <= t <= UNIT,
{
    let d: i64 = if 2 * (r as i64) < height as i64 {
        height as i64 - 2 * r as i64
    } else {
        2 * r as i64 - height as i64
    };
    assert(0 <= d * 1_000_000 <= height * 1_000_000) by (nonlinear_arith)
        requires
            0 <= d <= height,
    ;
    let drop = d * 1_000_000 / height as i64;
    proof {
        lemma_div_is_ordered(d * 1_000_000, height * 1_000_000, height as int);
        lemma_div_multiples_vanish(1_000_000, height as int);
        assert(height * 1_000_000 == height * 1_000_000int);
    }
    assert(drop <= 1_000_000);
    let gradient = 1_000_000 - drop;
    let t10 = clamp_i64(10 * gradient - 3 * biome_elevation as i64, 0, 10_000_000);
    (t10 / 10) as i32
}

/// Volcanic zone: the raw volcanic sum above the sliding threshold
/// `1 - intensity`, amplified fourfold and clamped to `[0, UNIT]`.
pub open spec fn volcanic_zone_of(raw: int, intensity: int) -> int {
    clamp((raw - (UNIT - clamp(intensity, 0, UNIT as int))) * 4, 0, UNIT as int)
}

fn volcanic_zone(raw: i32, intensity: i32) -> (r: i32)
    requires
        -UNIT <= raw <= UNIT,
    ensures
        r == volcanic_zone_of(raw as int, intensity as int),
        0 <= r <= UNIT,
{
    let threshold = 1_000_000 - clamp_i64(intensity as i64, 0, 1_000_000);
    clamp_i64((raw as i64 - threshold) * 4, 0, 1_000_000) as i32
}

/// The intermediate signals of one cell, in micro-units, before the
/// archetype offsets are applied.
#[derive(Clone, Copy, PartialEq, Eq, Structural, Debug)]
pub struct CellSignals {
    /// Continent shape, in `[-UNIT, UNIT]`.
    pub continent: i32,
    /// Ridged mountain relief, in `[0, UNIT]`.
    pub mountain: i32,
    /// Share of mountain relief on this cell, in `[0, UNIT]`.
    pub mountain_weight: i32,
    /// Rendered elevation, in `[-UNIT, UNIT]`.
    pub elevation: i32,
    /// Elevation shifted by the sea level, in `[-UNIT, UNIT]`.
    pub biome_elevation: i32,
    /// Moisture, in `[-UNIT, UNIT]`.
    pub moisture: i32,
    /// Temperature, in `[0, UNIT]`.
    pub temperature: i32,
    /// Raw volcanic-activity sum, in `[-UNIT, UNIT]`.
    pub volcanic_raw: i32,
    /// Volcanic zone after the threshold, in `[0, UNIT]`.
    pub volcanic_zone: i32,
}

/// The signals of row `r` of a grid `height` rows high, from its noise.
pub open spec fn signals_spec(
    r: int,
    height: int,
    cell: CellNoise,
    sea_level: int,
    intensity: int,
    blend: int,
) -> CellSignals {
    let continent = fbm_of(cell.continent@);
    let weight = mountain_weight_of(continent);
    let mountain = UNIT - abs(cell.mountain as int);
    let elevation = elevation_of(continent, mountain, weight, blend);
    let biome_elevation = clamp(elevation - sea_level, -UNIT as int, UNIT as int);
    let raw = fbm_of(cell.volcanic@);
    CellSignals {
        continent: continent as i32,
        mountain: mountain as i32,
        mountain_weight: weight as i32,
        elevation: elevation as i32,
        biome_elevation: biome_elevation as i32,
        moisture: fbm_of(cell.moisture@) as i32,
        temperature: temperature_of(r, height, biome_elevation) as i32,
        volcanic_raw: raw as i32,
        volcanic_zone: volcanic_zone_of(raw, intensity) as i32,
    }
}

/// Every signal lies in its documented range.
pub open spec fn signals_in_range(s: CellSignals) -> bool {
    &&& -UNIT <= s.continent <= UNIT
    &&& 0 <= s.mountain <= UNIT
    &&& 0 <= s.mountain_weight <= UNIT
    &&& -UNIT <= s.elevation <= UNIT
    &&& -UNIT <= s.biome_elevation <= UNIT
    &&& -UNIT <= s.moisture <= UNIT
    &&& 0 <= s.temperature <= UNIT
    &&& -UNIT <= s.volcanic_raw <= UNIT
    &&& 0 <= s.volcanic_zone <= UNIT
}

/// Computes the climate signals of one cell from its noise samples.
///
/// `blend` is the mountain relief weight of [`mountain_blend`].
pub fn synthesize_signals(
    r: i32,
    height: i32,
    cell: &CellNoise,
    sea_level: i32,
    volcanic_intensity: i32,
    blend: i32,
) -> (s: CellSignals)
    requires
        0 <= r < height,
        cell.wf(),
        0 <= blend <= 1_200_000,
    ensures
        s == signals_spec(r as int, height as int, *cell, sea_level as int, volcanic_intensity as int, blend as int),
        signals_in_range(s),
{
    let continent = fbm(&cell.continent);
    let mountain = ridged(cell.mountain);
    let weight = mountain_weight(continent);
    let elev = elevation(continent, mountain, weight, blend);
    let biome_elevation = clamp_i64(elev as i64 - sea_level as i64, -1_000_000, 1_000_000) as i32;
    let moisture = fbm(&cell.moisture);
    let volcanic_raw = fbm(&cell.volcanic);
    let zone = volcanic_zone(volcanic_raw, volcanic_intensity);
    let temp = temperature(r, height, biome_elevation);
    CellSignals {
        continent,
        mountain,
        mountain_weight: weight,
        elevation: elev,
        biome_elevation,
        moisture,
        temperature: temp,
        volcanic_raw,
        volcanic_zone: zone,
    }
}

/// The tile that cell `(q, r)` receives from its signals: the archetype
/// offsets shift temperature, moisture and volcanic zone, then the cascade
/// classifies the cell.
pub open spec fn tile_from_signals(q: int, r: int, s: CellSignals, pt: PlanetType) -> Tile {
    let (dt, dm, dvz) = offsets_of(pt);
    let eff_t = clamp(s.temperature + dt, 0, UNIT as int);
    let eff_m = clamp(s.moisture + dm, -UNIT as int, UNIT as int);
    let eff_vz = clamp(s.volcanic_zone + dvz, 0, UNIT as int);
    Tile {
        q: q as i32,
        r: r as i32,
        elevation: s.elevation,
        moisture: eff_m as i32,
        temperature: eff_t as i32,
        biome: classify(s.biome_elevation as int, eff_m, eff_t, eff_vz, pt),
    }
}

/// The tile that the cell `(q, r)` of a grid `height` rows high receives.
pub open spec fn tile_spec(
    q: int,
    r: int,
    height: int,
    cell: CellNoise,
    sea_level: int,
    intensity: int,
    pt: PlanetType,
    blend: int,
) -> Tile {
    tile_from_signals(q, r, signals_spec(r, height, cell, sea_level, intensity, blend), pt)
}

/// Synthesizes the climate of one cell and classifies it.
pub fn synthesize_tile(
    q: i32,
    r: i32,
    height: i32,
    cell: &CellNoise,
    sea_level: i32,
    volcanic_intensity: i32,
    pt: PlanetType,
    blend: i32,
) -> (t: Tile)
    requires
        0 <= r < height,
        cell.wf(),
        0 <= blend <= 1_200_000,
    ensures
        t == tile_spec(
            q as int,
            r as int,
            height as int,
            *cell,
            sea_level as int,
            volcanic_intensity as int,
            pt,
            blend as int,
        ),
{
    let s = synthesize_signals(r, height, cell, sea_level, volcanic_intensity, blend);
    let (dt, dm, dvz) = planet_offsets(pt);
    let eff_t = clamp_i64(s.temperature as i64 + dt as i64, 0, 1_000_000) as i32;
    let eff_m = clamp_i64(s.moisture as i64 + dm as i64, -1_000_000, 1_000_000) as i32;
    let eff_vz = clamp_i64(s.volcanic_zone as i64 + dvz as i64, 0, 1_000_000) as i32;
    let biome = choose_biome(s.biome_elevation, eff_m, eff_t, eff_vz, pt);
    Tile { q, r, elevation: s.elevation, moisture: eff_m, temperature: eff_t, biome }
}

} // verus!
