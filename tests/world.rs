use worldgen::biome::Biome;
use worldgen::climate::{synthesize_signals, CellNoise};
use worldgen::generation::{generate_world, GenError};
use worldgen::world::{PlanetType, World};

/// Deterministic pseudo-noise in `[-UNIT, UNIT]` for cell `i`.
fn sample(i: usize, salt: usize) -> i32 {
    let x = (i * 7919 + salt * 104_729) % 2_000_001;
    x as i32 - 1_000_000
}

fn cell(i: usize) -> CellNoise {
    CellNoise {
        continent: (0..5).map(|k| sample(i, k)).collect(),
        moisture: (0..4).map(|k| sample(i, 10 + k)).collect(),
        volcanic: (0..3).map(|k| sample(i, 20 + k)).collect(),
        mountain: sample(i, 30),
    }
}

fn field(cells: usize) -> Vec<CellNoise> {
    (0..cells).map(cell).collect()
}

fn uniform(cells: usize, value: i32) -> Vec<CellNoise> {
    (0..cells)
        .map(|_| CellNoise {
            continent: vec![value; 5],
            moisture: vec![value; 4],
            volcanic: vec![value; 3],
            mountain: value,
        })
        .collect()
}

fn world(width: i32, height: i32, intensity: i32, pt: PlanetType, noise: &Vec<CellNoise>) -> World {
    generate_world(width, height, 1, 0, intensity, pt, 40_075, noise).unwrap()
}

#[test]
fn end_to_end_four_by_four() {
    let noise = field(16);
    let w = world(4, 4, 0, PlanetType::Terran, &noise);
    assert_eq!(w.tiles.len(), 16);
    assert_eq!(w.width, 4);
    assert_eq!(w.height, 4);
    assert_eq!(w.seed, 1);
    assert_eq!(w.gravity_modifier, 1_000_000);
    for (i, t) in w.tiles.iter().enumerate() {
        let s = synthesize_signals(t.r, 4, &noise[i], 0, 0, 350_000);
        assert_eq!(s.volcanic_zone, 0);
        assert!(!matches!(t.biome, Biome::Volcano | Biome::LavaField | Biome::AshLand));
    }
}

#[test]
fn determinism() {
    let noise = field(35);
    let a = world(5, 7, 600_000, PlanetType::Volcanic, &noise);
    let b = world(5, 7, 600_000, PlanetType::Volcanic, &noise);
    assert_eq!(a.tiles, b.tiles);
}

#[test]
fn range_invariants() {
    for &v in &[-1_000_000, 0, 1_000_000] {
        for &pt in &[PlanetType::Terran, PlanetType::Frozen, PlanetType::Volcanic] {
            let noise = uniform(12, v);
            let w = world(3, 4, 1_000_000, pt, &noise);
            for t in &w.tiles {
                assert!((-1_000_000..=1_000_000).contains(&t.elevation));
                assert!((-1_000_000..=1_000_000).contains(&t.moisture));
                assert!((0..=1_000_000).contains(&t.temperature));
            }
        }
    }
}

#[test]
fn coverage_column_major() {
    let noise = field(15);
    let w = world(3, 5, 500_000, PlanetType::Caustic, &noise);
    assert_eq!(w.tiles.len(), 15);
    let mut i = 0;
    for q in 0..3 {
        for r in 0..5 {
            assert_eq!((w.tiles[i].q, w.tiles[i].r), (q, r));
            i += 1;
        }
    }
}

#[test]
fn rejects_bad_requests() {
    let noise = field(4);
    assert_eq!(
        generate_world(0, 2, 1, 0, 0, PlanetType::Terran, 40_075, &noise).unwrap_err(),
        GenError::InvalidWidth
    );
    assert_eq!(
        generate_world(2, -1, 1, 0, 0, PlanetType::Terran, 40_075, &noise).unwrap_err(),
        GenError::InvalidHeight
    );
    assert_eq!(
        generate_world(3, 2, 1, 0, 0, PlanetType::Terran, 40_075, &noise).unwrap_err(),
        GenError::NoiseMismatch
    );
    let mut bad = field(4);
    bad[2].moisture[1] = 1_000_001;
    assert_eq!(
        generate_world(2, 2, 1, 0, 0, PlanetType::Terran, 40_075, &bad).unwrap_err(),
        GenError::NoiseMismatch
    );
    let mut short = field(4);
    short[0].continent.pop();
    assert_eq!(
        generate_world(2, 2, 1, 0, 0, PlanetType::Terran, 40_075, &short).unwrap_err(),
        GenError::NoiseMismatch
    );
}

#[test]
fn parameters_are_carried() {
    let noise = field(4);
    let w = generate_world(2, 2, 77, -200_000, 300_000, PlanetType::Barren, 80_150, &noise).unwrap();
    assert_eq!(w.seed, 77);
    assert_eq!(w.sea_level, -200_000);
    assert_eq!(w.volcanic_intensity, 300_000);
    assert_eq!(w.planet_type, PlanetType::Barren);
    assert_eq!(w.circumference_km, 80_150);
    assert_eq!(w.gravity_modifier, 2_000_000);
}

#[test]
fn flat_ocean_cell() {
    // Every sample zero: continent 0, mountain weight 0, elevation 0.
    let noise = uniform(2, 0);
    let w = generate_world(1, 2, 1, 500_000, 0, PlanetType::Terran, 40_075, &noise).unwrap();
    let t = w.tiles[0];
    assert_eq!(t.elevation, 0);
    // Biome elevation -0.5 is deep ocean; row 0 sits at the pole.
    assert_eq!(t.biome, Biome::DeepOcean);
    // Gradient 0, cooling -0.3 * -0.5 = +0.15.
    assert_eq!(t.temperature, 150_000);
    assert_eq!(t.moisture, 0);
    let t1 = w.tiles[1];
    // Row 1 of 2 is the equator: gradient 1, plus 0.15, clamped.
    assert_eq!(t1.temperature, 1_000_000);
}

#[test]
fn signals_of_a_mountain_cell() {
    let c = CellNoise {
        continent: vec![1_000_000; 5],
        moisture: vec![-400_000; 4],
        volcanic: vec![1_000_000; 3],
        mountain: 0,
    };
    let s = synthesize_signals(1, 2, &c, 0, 1_000_000, 350_000);
    assert_eq!(s.continent, 1_000_000);
    assert_eq!(s.mountain, 1_000_000);
    assert_eq!(s.mountain_weight, 1_000_000);
    assert_eq!(s.elevation, 1_000_000);
    assert_eq!(s.biome_elevation, 1_000_000);
    assert_eq!(s.moisture, -400_000);
    assert_eq!(s.temperature, 700_000);
    assert_eq!(s.volcanic_raw, 1_000_000);
    assert_eq!(s.volcanic_zone, 1_000_000);
    let half = CellNoise { continent: vec![400_000; 5], ..c.clone() };
    let s = synthesize_signals(1, 2, &half, 0, 0, 350_000);
    // Weight (0.4 - 0.2) * 2.5 = 0.5; relief 1 * 0.5 * 0.35.
    assert_eq!(s.mountain_weight, 500_000);
    assert_eq!(s.elevation, 575_000);
    assert_eq!(s.volcanic_zone, 0);
}
