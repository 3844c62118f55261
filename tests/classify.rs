use worldgen::biome::{
    apply_planet_type, apply_volcanic, biome_color, biome_name, biome_order, choose_biome,
    planet_offsets, Biome,
};
use worldgen::render::biome_with_order;
use worldgen::world::PlanetType;

const PLANETS: [PlanetType; 5] = [
    PlanetType::Terran,
    PlanetType::Volcanic,
    PlanetType::Frozen,
    PlanetType::Caustic,
    PlanetType::Barren,
];

fn all_biomes() -> Vec<Biome> {
    (0u8..27).map(biome_with_order).collect()
}

#[test]
fn metadata_table() {
    assert_eq!(biome_color(Biome::DeepOcean), [10, 20, 140]);
    assert_eq!(biome_color(Biome::DustPlain), [195, 168, 110]);
    assert_eq!(biome_color(Biome::Volcano), [255, 50, 0]);
    assert_eq!(biome_name(Biome::IceCap), "Ice Cap");
    assert_eq!(biome_name(Biome::ScorchedWaste), "Scorched Waste");
    assert_eq!(biome_order(Biome::DeepOcean), 0);
    assert_eq!(biome_order(Biome::Snow), 14);
    assert_eq!(biome_order(Biome::DustPlain), 26);
}

#[test]
fn order_is_a_bijection() {
    let all = all_biomes();
    for (k, b) in all.iter().enumerate() {
        assert_eq!(biome_order(*b) as usize, k);
    }
}

#[test]
fn offsets_table() {
    assert_eq!(planet_offsets(PlanetType::Terran), (0, 0, 0));
    assert_eq!(planet_offsets(PlanetType::Volcanic), (450_000, -550_000, 500_000));
    assert_eq!(planet_offsets(PlanetType::Frozen), (-550_000, 150_000, -300_000));
    assert_eq!(planet_offsets(PlanetType::Caustic), (100_000, 550_000, 0));
    assert_eq!(planet_offsets(PlanetType::Barren), (0, -650_000, -400_000));
}

#[test]
fn classifier_is_pure() {
    let inputs = [
        (-460_000, 0, 500_000, 0),
        (750_000, 100_000, 500_000, 400_000),
        (100_000, -200_000, 400_000, 200_000),
    ];
    for &(e, m, t, vz) in &inputs {
        for &pt in &PLANETS {
            assert_eq!(choose_biome(e, m, t, vz, pt), choose_biome(e, m, t, vz, pt));
        }
    }
}

#[test]
fn terran_identity() {
    for b in all_biomes() {
        assert_eq!(apply_planet_type(b, PlanetType::Terran), b);
    }
}

#[test]
fn ocean_boundary() {
    assert_eq!(choose_biome(-460_000, 0, 500_000, 0, PlanetType::Terran), Biome::DeepOcean);
    assert_eq!(choose_biome(-440_000, 0, 500_000, 0, PlanetType::Terran), Biome::Ocean);
    assert_eq!(choose_biome(-450_000, 0, 500_000, 0, PlanetType::Terran), Biome::Ocean);
    assert_eq!(choose_biome(-450_001, 0, 500_000, 0, PlanetType::Terran), Biome::DeepOcean);
}

#[test]
fn altitude_bands() {
    let terran = PlanetType::Terran;
    assert_eq!(choose_biome(-100_000, 0, 100_000, 0, terran), Biome::IceCap);
    assert_eq!(choose_biome(-100_000, 400_000, 500_000, 0, terran), Biome::Wetland);
    assert_eq!(choose_biome(-100_000, 0, 500_000, 0, terran), Biome::Beach);
    assert_eq!(choose_biome(800_000, 0, 300_000, 0, terran), Biome::Snow);
    assert_eq!(choose_biome(900_000, 0, 500_000, 0, terran), Biome::Snow);
    assert_eq!(choose_biome(800_000, 0, 500_000, 0, terran), Biome::Mountain);
    assert_eq!(choose_biome(700_000, 0, 500_000, 0, terran), Biome::Plain);
    assert_eq!(choose_biome(300_000, 0, 100_000, 0, terran), Biome::IceCap);
    assert_eq!(choose_biome(300_000, 300_000, 200_000, 0, terran), Biome::Taiga);
    assert_eq!(choose_biome(300_000, 0, 200_000, 0, terran), Biome::Tundra);
    assert_eq!(choose_biome(300_000, -200_000, 400_000, 0, terran), Biome::Shrubland);
    assert_eq!(choose_biome(300_000, 400_000, 400_000, 0, terran), Biome::Forest);
    assert_eq!(choose_biome(300_000, 0, 400_000, 0, terran), Biome::Plain);
    assert_eq!(choose_biome(300_000, -100_000, 600_000, 0, terran), Biome::Desert);
    assert_eq!(choose_biome(300_000, 0, 600_000, 0, terran), Biome::Savanna);
    assert_eq!(choose_biome(300_000, 300_000, 600_000, 0, terran), Biome::Jungle);
}

#[test]
fn override_tie_break() {
    // Mountain-eligible cell: high, temperate.
    assert_eq!(choose_biome(850_000, 0, 500_000, 600_000, PlanetType::Terran), Biome::Volcano);
    assert_eq!(apply_volcanic(Biome::Mountain, 850_000, 600_000), Biome::Volcano);
    assert_eq!(apply_volcanic(Biome::Snow, 850_000, 600_000), Biome::Volcano);
    assert_eq!(apply_volcanic(Biome::Mountain, 750_000, 600_000), Biome::LavaField);
    assert_eq!(apply_volcanic(Biome::Mountain, 750_000, 200_000), Biome::AshLand);
    assert_eq!(apply_volcanic(Biome::Plain, 400_000, 200_000), Biome::AshLand);
    assert_eq!(apply_volcanic(Biome::Plain, 200_000, 200_000), Biome::Plain);
    assert_eq!(apply_volcanic(Biome::Forest, 400_000, 900_000), Biome::Forest);
    assert_eq!(apply_volcanic(Biome::Mountain, 900_000, 0), Biome::Mountain);
}

#[test]
fn remap_closure() {
    let targets = |pt: PlanetType| -> Vec<Biome> {
        match pt {
            PlanetType::Terran => vec![],
            PlanetType::Volcanic => vec![Biome::MagmaSea, Biome::AshLand, Biome::ScorchedWaste],
            PlanetType::Frozen => {
                vec![Biome::FrozenOcean, Biome::IceCap, Biome::GlacialPlain, Biome::Taiga]
            }
            PlanetType::Caustic => vec![Biome::CausticLake, Biome::ToxicSwamp, Biome::AcidFlatland],
            PlanetType::Barren => vec![Biome::RockyWaste, Biome::DustPlain],
        }
    };
    for b in all_biomes() {
        for &pt in &PLANETS {
            let r = apply_planet_type(b, pt);
            assert!(r == b || targets(pt).contains(&r), "{:?} on {:?} gave {:?}", b, pt, r);
        }
    }
    for &pt in &PLANETS {
        assert_eq!(apply_planet_type(Biome::Mountain, pt), Biome::Mountain);
        assert_eq!(apply_planet_type(Biome::Volcano, pt), Biome::Volcano);
    }
}

#[test]
fn remap_examples() {
    assert_eq!(apply_planet_type(Biome::Ocean, PlanetType::Volcanic), Biome::MagmaSea);
    assert_eq!(apply_planet_type(Biome::MagmaSea, PlanetType::Frozen), Biome::FrozenOcean);
    assert_eq!(apply_planet_type(Biome::Jungle, PlanetType::Frozen), Biome::Taiga);
    assert_eq!(apply_planet_type(Biome::Tundra, PlanetType::Caustic), Biome::AcidFlatland);
    assert_eq!(apply_planet_type(Biome::Snow, PlanetType::Barren), Biome::RockyWaste);
    assert_eq!(apply_planet_type(Biome::Taiga, PlanetType::Barren), Biome::DustPlain);
    assert_eq!(apply_planet_type(Biome::LavaField, PlanetType::Volcanic), Biome::LavaField);
    // The full cascade: a deep basin on a volcanic world is a magma sea.
    assert_eq!(choose_biome(-900_000, 0, 500_000, 0, PlanetType::Volcanic), Biome::MagmaSea);
}
