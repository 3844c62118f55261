use worldgen::biome::{biome_color, Biome};
use worldgen::render::{
    color_runs, crosses_contour, diverge, jet, legend_biomes, map_colors, sequential, ColorRun,
};
use worldgen::world::{random_planet, PlanetType, Tile, World};

fn tile(q: i32, r: i32, elevation: i32, biome: Biome) -> Tile {
    Tile { q, r, elevation, moisture: 0, temperature: 500_000, biome }
}

fn grid(width: i32, height: i32, cells: Vec<(i32, Biome)>) -> World {
    let mut tiles = Vec::new();
    for q in 0..width {
        for r in 0..height {
            let (e, b) = cells[(q * height + r) as usize];
            tiles.push(tile(q, r, e, b));
        }
    }
    World {
        width,
        height,
        seed: 1,
        planet_type: PlanetType::Terran,
        sea_level: 0,
        volcanic_intensity: 0,
        circumference_km: 40_075,
        gravity_modifier: 1_000_000,
        tiles,
    }
}

#[test]
fn contour_crossings() {
    assert!(crosses_contour(-10, 10));
    assert!(crosses_contour(460_000, 440_000));
    assert!(!crosses_contour(10_000, 140_000));
    assert!(!crosses_contour(0, 0));
    assert!(crosses_contour(-1_000_000, 1_000_000));
    assert!(!crosses_contour(950_000, 1_000_000));
}

#[test]
fn contour_darkening() {
    // Column 0 is low plain, column 1 high: the edge between them crosses 0.15.
    let w = grid(
        2,
        1,
        vec![(100_000, Biome::Plain), (200_000, Biome::Plain)],
    );
    let px = map_colors(&w);
    assert_eq!(px.len(), 2);
    assert_eq!(px[0], [60, 120, 48]);
    assert_eq!(px[1], [60, 120, 48]);
    let flat = grid(
        1,
        3,
        vec![(10_000, Biome::Desert), (20_000, Biome::Ocean), (30_000, Biome::Desert)],
    );
    let px = map_colors(&flat);
    assert_eq!(px, vec![biome_color(Biome::Desert), biome_color(Biome::Ocean), biome_color(Biome::Desert)]);
}

#[test]
fn legend_lists_present_biomes_in_order() {
    let w = grid(
        2,
        2,
        vec![
            (0, Biome::Snow),
            (0, Biome::DeepOcean),
            (0, Biome::Snow),
            (0, Biome::Beach),
        ],
    );
    assert_eq!(legend_biomes(&w), vec![Biome::DeepOcean, Biome::Beach, Biome::Snow]);
    let empty = World { tiles: Vec::new(), ..w };
    assert_eq!(legend_biomes(&empty), Vec::<Biome>::new());
}

#[test]
fn jet_ramp() {
    assert_eq!(jet(0), [0, 0, 127]);
    assert_eq!(jet(500_000), [127, 255, 127]);
    assert_eq!(jet(1_000_000), [127, 0, 0]);
    assert_eq!(jet(-5), [0, 0, 127]);
    assert_eq!(diverge(-1_000_000), [0, 0, 127]);
    assert_eq!(diverge(0), [127, 255, 127]);
    assert_eq!(sequential(2_000_000), [127, 0, 0]);
    assert_eq!(sequential(250_000), [0, 127, 255]);
}

#[test]
fn run_length_encoding() {
    let a = [1, 2, 3];
    let b = [9, 9, 9];
    let runs = color_runs(&vec![a, a, b, a, a, a]);
    assert_eq!(
        runs,
        vec![
            ColorRun { start: 0, len: 2, color: a },
            ColorRun { start: 2, len: 1, color: b },
            ColorRun { start: 3, len: 3, color: a },
        ]
    );
    assert_eq!(color_runs(&vec![b]), vec![ColorRun { start: 0, len: 1, color: b }]);
    assert!(color_runs(&Vec::new()).is_empty());
}

#[test]
fn planet_rolls_and_names() {
    assert_eq!(random_planet(0), PlanetType::Terran);
    assert_eq!(random_planet(1), PlanetType::Volcanic);
    assert_eq!(random_planet(2), PlanetType::Frozen);
    assert_eq!(random_planet(3), PlanetType::Caustic);
    assert_eq!(random_planet(4), PlanetType::Barren);
    assert_eq!(PlanetType::Caustic.name(), "caustic");
    assert_eq!(PlanetType::Terran.name(), "terran");
}
