//! World assembly: grid traversal, per-cell synthesis and the laws of the
//! generated world.
use vstd::prelude::*;
use vstd::arithmetic::div_mod::{lemma_fundamental_div_mod, lemma_fundamental_div_mod_converse, lemma_mod_bound, lemma_div_is_ordered, lemma_div_multiples_vanish};
use crate::fixed::UNIT;
use crate::noise::{fbm_of, lemma_fbm_range};
use crate::biome::Biome;
use crate::climate::{CellNoise, tile_spec, gravity_of, blend_of, gravity_modifier, mountain_blend, synthesize_tile, volcanic_zone_of};
use crate::world::{PlanetType, Tile, World};

verus! {

/// Why a generation request was rejected before any work began.
#[derive(Clone, Copy, PartialEq, Eq, Structural, Debug)]
pub enum GenError {
    /// `width` was not positive.
    InvalidWidth,
    /// `height` was not positive.
    InvalidHeight,
    /// The noise samples do not cover the grid: not one well-formed
    /// [`CellNoise`] per cell.
    NoiseMismatch,
}

/// One well-formed [`CellNoise`] per cell of a `width` × `height` grid.
pub open spec fn noise_fits(noise: Seq<CellNoise>, width: int, height: int) -> bool {
    &&& noise.len() == width * height
    &&& forall|i: int| 0 <= i < noise.len() ==> (#[trigger] noise[i]).wf()
}

/// `w` is the world generated from these parameters and noise samples: it
/// carries the parameters, the derived gravity, and at index `i` the tile of
/// cell `(i / height, i % height)`.
pub open spec fn generated(
    w: World,
    width: int,
    height: int,
    seed: u32,
    sea_level: int,
    intensity: int,
    pt: PlanetType,
    circumference_km: int,
    noise: Seq<CellNoise>,
) -> bool {
    let blend = blend_of(gravity_of(circumference_km));
    &&& w.width == width
    &&& w.height == height
    &&& w.seed == seed
    &&& w.planet_type == pt
    &&& w.sea_level == sea_level
    &&& w.volcanic_intensity == intensity
    &&& w.circumference_km == circumference_km
    &&& w.gravity_modifier == gravity_of(circumference_km)
    &&& w.tiles@.len() == width * height
    &&& forall|i: int|
        0 <= i < w.tiles@.len() ==> #[trigger] w.tiles@[i] == tile_spec(
            i / height,
            i % height,
            height,
            noise[i],
            sea_level,
            intensity,
            pt,
            blend,
        )
}

/// Checks [`noise_fits`].
pub fn check_noise(noise: &Vec<CellNoise>, width: i32, height: i32) -> (r: bool)
    requires
        width > 0,
        height > 0,
    ensures
        r == noise_fits(noise@, width as int, height as int),
{
    assert(0 < width * height <= 0x4000_0000_0000_0000) by (nonlinear_arith)
        requires
            0 < width <= 0x8000_0000,
            0 < height <= 0x8000_0000,
    ;
    let cells = width as u64 * height as u64;
    if noise.len() as u64 != cells {
        return false;
    }
    let mut i: usize = 0;
    while i < noise.len()
        invariant
            i <= noise.len(),
            forall|j: int| 0 <= j < i ==> (#[trigger] noise@[j]).wf(),
        decreases noise.len() - i,
    {
        if !noise[i].is_well_formed() {
            return false;
        }
        i = i + 1;
    }
    true
}

proof fn lemma_cell_index(q: int, r: int, height: int)
    requires
        0 <= r < height,
    ensures
        (q * height + r) / height == q,
        (q * height + r) % height == r,
{
    lemma_fundamental_div_mod_converse(q * height + r, height, q, r);
}

/// Generates a world from its parameters and the noise samples of every
/// cell, given in column-major order (index `q * height + r`).
///
/// Rejects a non-positive `width` or `height`, then noise samples that do not
/// cover the grid; otherwise every tile is synthesized and classified.
pub fn generate_world(
    width: i32,
    height: i32,
    seed: u32,
    sea_level: i32,
    volcanic_intensity: i32,
    planet_type: PlanetType,
    circumference_km: u32,
    noise: &Vec<CellNoise>,
) -> (res: Result<World, GenError>)
    ensures
        width <= 0 ==> res == Err::<World, GenError>(GenError::InvalidWidth),
        width > 0 && height <= 0 ==> res == Err::<World, GenError>(GenError::InvalidHeight),
        width > 0 && height > 0 && !noise_fits(noise@, width as int, height as int) ==> res
            == Err::<World, GenError>(GenError::NoiseMismatch),
        width > 0 && height > 0 && noise_fits(noise@, width as int, height as int) ==> res is Ok,
        res matches Ok(w) ==> generated(
            w,
            width as int,
            height as int,
            seed,
            sea_level as int,
            volcanic_intensity as int,
            planet_type,
            circumference_km as int,
            noise@,
        ),
{
    if width <= 0 {
        return Err(GenError::InvalidWidth);
    }
    if height <= 0 {
        return Err(GenError::InvalidHeight);
    }
    if !check_noise(noise, width, height) {
        return Err(GenError::NoiseMismatch);
    }
    let gravity = gravity_modifier(circumference_km);
    let blend = mountain_blend(gravity);
    let ghost h = height as int;
    let mut tiles: Vec<Tile> = Vec::new();
    let cells = noise.len();
    let mut idx: usize = 0;
    let mut q: i32 = 0;
    while q < width
        invariant
            0 <= q <= width,
            h == height > 0,
            cells == noise@.len(),
            noise_fits(noise@, width as int, h),
            idx == q * h,
            tiles@.len() == idx,
            blend == blend_of(gravity_of(circumference_km as int)),
            0 <= blend <= 1_200_000,
            forall|i: int|
                0 <= i < idx ==> #[trigger] tiles@[i] == tile_spec(
                    i / h,
                    i % h,
                    h,
                    noise@[i],
                    sea_level as int,
                    volcanic_intensity as int,
                    planet_type,
                    blend as int,
                ),
        decreases width - q,
    {
        let mut r: i32 = 0;
        while r < height
            invariant
                0 <= q < width,
                0 <= r <= height,
                h == height > 0,
                cells == noise@.len(),
                noise_fits(noise@, width as int, h),
                idx == q * h + r,
                tiles@.len() == idx,
                0 <= blend <= 1_200_000,
                forall|i: int|
                    0 <= i < idx ==> #[trigger] tiles@[i] == tile_spec(
                        i / h,
                        i % h,
                        h,
                        noise@[i],
                        sea_level as int,
                        volcanic_intensity as int,
                        planet_type,
                        blend as int,
                    ),
            decreases height - r,
        {
            proof {
                lemma_cell_index(q as int, r as int, h);
                assert(idx < width * h) by (nonlinear_arith)
                    requires
                        idx == q * h + r,
                        0 <= q,
                        q + 1 <= width,
                        0 <= r < h,
                ;
                assert(idx < noise@.len());
            }
            let tile = synthesize_tile(
                q,
                r,
                height,
                &noise[idx],
                sea_level,
                volcanic_intensity,
                planet_type,
                blend,
            );
            tiles.push(tile);
            idx = idx + 1;
            r = r + 1;
        }
        assert(idx == (q + 1) * h) by (nonlinear_arith)
            requires
                idx == q * h + h,
        ;
        q = q + 1;
    }
    assert(idx == width * h);
    Ok(
        World {
            width,
            height,
            seed,
            planet_type,
            sea_level,
            volcanic_intensity,
            circumference_km,
            gravity_modifier: gravity,
            tiles,
        },
    )
}

// ── Laws of the generated world ─────────────────────────────────────────────

/// Determinism: two worlds generated from identical parameters and noise
/// samples are identical, tile for tile.
pub proof fn lemma_generation_deterministic(
    w1: World,
    w2: World,
    width: int,
    height: int,
    seed: u32,
    sea_level: int,
    intensity: int,
    pt: PlanetType,
    circumference_km: int,
    noise: Seq<CellNoise>,
)
    requires
        generated(w1, width, height, seed, sea_level, intensity, pt, circumference_km, noise),
        generated(w2, width, height, seed, sea_level, intensity, pt, circumference_km, noise),
    ensures
        w1.tiles@ == w2.tiles@,
        w1.gravity_modifier == w2.gravity_modifier,
{
    assert(w1.tiles@ =~= w2.tiles@);
}

/// Range invariants: every tile's elevation and moisture lie in
/// `[-UNIT, UNIT]` and its temperature in `[0, UNIT]`.
pub proof fn lemma_tile_ranges(
    w: World,
    width: int,
    height: int,
    seed: u32,
    sea_level: int,
    intensity: int,
    pt: PlanetType,
    circumference_km: int,
    noise: Seq<CellNoise>,
)
    requires
        generated(w, width, height, seed, sea_level, intensity, pt, circumference_km, noise),
    ensures
        forall|i: int|
            0 <= i < w.tiles@.len() ==> {
                let t = #[trigger] w.tiles@[i];
                &&& -UNIT <= t.elevation <= UNIT
                &&& -UNIT <= t.moisture <= UNIT
                &&& 0 <= t.temperature <= UNIT
            },
{
}

/// Coverage: a world of positive size holds `width * height` tiles in
/// column-major order, so each cell `(q, r)` of the grid appears exactly once,
/// at index `q * height + r`.
pub proof fn lemma_coverage(
    w: World,
    width: int,
    height: int,
    seed: u32,
    sea_level: int,
    intensity: int,
    pt: PlanetType,
    circumference_km: int,
    noise: Seq<CellNoise>,
)
    requires
        0 < width <= i32::MAX,
        0 < height <= i32::MAX,
        generated(w, width, height, seed, sea_level, intensity, pt, circumference_km, noise),
    ensures
        w.tiles@.len() == width * height,
        forall|i: int|
            0 <= i < w.tiles@.len() ==> (#[trigger] w.tiles@[i]).q == i / height && w.tiles@[i].r
                == i % height,
        forall|q: int, r: int|
            0 <= q < width && 0 <= r < height ==> {
                let t = #[trigger] w.tiles@[q * height + r];
                t.q == q && t.r == r
            },
        forall|i: int, j: int|
            0 <= i < w.tiles@.len() && 0 <= j < w.tiles@.len() && i != j ==> {
                let a = #[trigger] w.tiles@[i];
                let b = #[trigger] w.tiles@[j];
                a.q != b.q || a.r != b.r
            },
{
    assert forall|i: int| 0 <= i < w.tiles@.len() implies (#[trigger] w.tiles@[i]).q == i / height
        && w.tiles@[i].r == i % height by {
        lemma_fundamental_div_mod(i, height);
        lemma_mod_bound(i, height);
        lemma_div_is_ordered(0, i, height);
        assert(i / height < width) by (nonlinear_arith)
            requires
                i == height * (i / height) + i % height,
                0 <= i % height,
                i < width * height,
                height > 0,
        ;
    }
    assert forall|q: int, r: int| 0 <= q < width && 0 <= r < height implies {
        let t = #[trigger] w.tiles@[q * height + r];
        t.q == q && t.r == r
    } by {
        lemma_cell_index(q, r, height);
        assert(q * height + r < width * height) by (nonlinear_arith)
            requires
                0 <= q < width,
                0 <= r < height,
        ;
        assert(0 <= q * height) by (nonlinear_arith)
            requires
                0 <= q,
                0 < height,
        ;
    }
    assert forall|i: int, j: int| 0 <= i < w.tiles@.len() && 0 <= j < w.tiles@.len() && i != j implies {
        let a = #[trigger] w.tiles@[i];
        let b = #[trigger] w.tiles@[j];
        a.q != b.q || a.r != b.r
    } by {
        lemma_fundamental_div_mod(i, height);
        lemma_fundamental_div_mod(j, height);
    }
}

/// Within the unclamped range the gravity modifier is the circumference over
/// Earth's, rounded down to a micro-unit.
pub proof fn lemma_gravity_unclamped(c: int)
    requires
        4_008 <= c <= 200_375,
    ensures
        gravity_of(c) == c * UNIT / 40_075,
{
    lemma_div_is_ordered(4_008_000_000int, c * UNIT, 40_075);
    lemma_div_is_ordered(c * UNIT, 200_375_000_000int, 40_075);
    lemma_div_multiples_vanish(5_000_000, 40_075);
    assert(4_008_000_000int / 40_075 >= 100_000) by {
        lemma_fundamental_div_mod_converse(4_008_000_000int, 40_075, 100_012, 19_100);
    }
}

/// With no volcanic intensity a Terran world holds no volcanic overlay:
/// no tile is a volcano, a lava field or ash land.
pub proof fn lemma_no_volcanic_overlay(
    w: World,
    width: int,
    height: int,
    seed: u32,
    sea_level: int,
    intensity: int,
    circumference_km: int,
    noise: Seq<CellNoise>,
)
    requires
        intensity <= 0,
        noise_fits(noise, width, height),
        generated(w, width, height, seed, sea_level, intensity, PlanetType::Terran, circumference_km, noise),
    ensures
        forall|i: int|
            0 <= i < w.tiles@.len() ==> {
                let b = (#[trigger] w.tiles@[i]).biome;
                b != Biome::Volcano && b != Biome::LavaField && b != Biome::AshLand
            },
{
    assert forall|i: int| 0 <= i < w.tiles@.len() implies {
        let b = (#[trigger] w.tiles@[i]).biome;
        b != Biome::Volcano && b != Biome::LavaField && b != Biome::AshLand
    } by {
        let cell = noise[i];
        assert(cell.wf());
        lemma_fbm_range(cell.volcanic@);
        assert(volcanic_zone_of(fbm_of(cell.volcanic@), intensity) == 0);
    }
}

} // verus!
