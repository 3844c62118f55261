//! Biome definition, metadata and the three-stage classification cascade:
//! altitude band, volcanic override, planet-archetype remap.
//!
//! All signals are fixed-point micro-units (see [`crate::fixed::UNIT`]).
use vstd::prelude::*;
use crate::world::PlanetType;

verus! {

/// The closed set of terrain labels a tile can carry.
#[derive(Clone, Copy, PartialEq, Eq, Structural, Debug, Hash)]
pub enum Biome {
    // Standard water
    DeepOcean,
    Ocean,
    // Shore
    Beach,
    Wetland,
    // Cold
    IceCap,
    Tundra,
    Taiga,
    // Temperate
    Shrubland,
    Plain,
    Forest,
    // Tropical
    Savanna,
    Desert,
    Jungle,
    // High elevation
    Mountain,
    Snow,
    /// Active caldera / summit vent.
    Volcano,
    /// Cooling lava flows spreading down volcanic flanks.
    LavaField,
    /// Ash-covered terrain surrounding a volcanic chain.
    AshLand,
    /// Seas of liquid rock (volcanic worlds).
    MagmaSea,
    /// Vitrified rock scoured by superheated winds (volcanic worlds).
    ScorchedWaste,
    /// Ice-covered ocean (frozen worlds).
    FrozenOcean,
    /// Permafrost plains (frozen worlds).
    GlacialPlain,
    /// Pools of corrosive liquid (caustic worlds).
    CausticLake,
    /// Wetlands saturated with toxic runoff (caustic worlds).
    ToxicSwamp,
    /// Flatlands encrusted with acid precipitate (caustic worlds).
    AcidFlatland,
    /// Boulder fields and bare bedrock (barren worlds).
    RockyWaste,
    /// Fine regolith plains (barren worlds).
    DustPlain,
}

// ── Metadata ────────────────────────────────────────────────────────────────

/// Display colour of each biome as `[red, green, blue]`.
pub open spec fn color_of(b: Biome) -> Seq<u8> {
    match b {
        Biome::DeepOcean => seq![10u8, 20, 140],
        Biome::Ocean => seq![30u8, 70, 200],
        Biome::Beach => seq![220u8, 210, 120],
        Biome::Wetland => seq![90u8, 140, 80],
        Biome::IceCap => seq![210u8, 235, 255],
        Biome::Tundra => seq![160u8, 185, 155],
        Biome::Taiga => seq![30u8, 90, 60],
        Biome::Shrubland => seq![170u8, 180, 80],
        Biome::Plain => seq![100u8, 200, 80],
        Biome::Forest => seq![20u8, 110, 20],
        Biome::Savanna => seq![210u8, 190, 60],
        Biome::Desert => seq![240u8, 200, 100],
        Biome::Jungle => seq![0u8, 90, 20],
        Biome::Mountain => seq![130u8, 120, 110],
        Biome::Snow => seq![245u8, 245, 250],
        Biome::Volcano => seq![255u8, 50, 0],
        Biome::LavaField => seq![200u8, 80, 10],
        Biome::AshLand => seq![95u8, 80, 70],
        Biome::MagmaSea => seq![180u8, 20, 0],
        Biome::ScorchedWaste => seq![70u8, 35, 15],
        Biome::FrozenOcean => seq![140u8, 195, 235],
        Biome::GlacialPlain => seq![200u8, 220, 240],
        Biome::CausticLake => seq![60u8, 170, 40],
        Biome::ToxicSwamp => seq![45u8, 100, 20],
        Biome::AcidFlatland => seq![165u8, 185, 60],
        Biome::RockyWaste => seq![110u8, 103, 90],
        Biome::DustPlain => seq![195u8, 168, 110],
    }
}

/// Canonical biome colour, shared by all rendering back ends.
pub fn biome_color(b: Biome) -> (r: [u8; 3])
    ensures
        r@ == color_of(b),
{
    let c: [u8; 3] = match b {
        Biome::DeepOcean => [10, 20, 140],
        Biome::Ocean => [30, 70, 200],
        Biome::Beach => [220, 210, 120],
        Biome::Wetland => [90, 140, 80],
        Biome::IceCap => [210, 235, 255],
        Biome::Tundra => [160, 185, 155],
        Biome::Taiga => [30, 90, 60],
        Biome::Shrubland => [170, 180, 80],
        Biome::Plain => [100, 200, 80],
        Biome::Forest => [20, 110, 20],
        Biome::Savanna => [210, 190, 60],
        Biome::Desert => [240, 200, 100],
        Biome::Jungle => [0, 90, 20],
        Biome::Mountain => [130, 120, 110],
        Biome::Snow => [245, 245, 250],
        Biome::Volcano => [255, 50, 0],
        Biome::LavaField => [200, 80, 10],
        Biome::AshLand => [95, 80, 70],
        Biome::MagmaSea => [180, 20, 0],
        Biome::ScorchedWaste => [70, 35, 15],
        Biome::FrozenOcean => [140, 195, 235],
        Biome::GlacialPlain => [200, 220, 240],
        Biome::CausticLake => [60, 170, 40],
        Biome::ToxicSwamp => [45, 100, 20],
        Biome::AcidFlatland => [165, 185, 60],
        Biome::RockyWaste => [110, 103, 90],
        Biome::DustPlain => [195, 168, 110],
    };
    assert(c@ =~= color_of(b));
    c
}

/// Human-readable name of each biome, as shown in the legend.
pub open spec fn name_of(b: Biome) -> Seq<char> {
    match b {
        Biome::DeepOcean => "Deep Ocean"@,
        Biome::Ocean => "Ocean"@,
        Biome::Beach => "Beach"@,
        Biome::Wetland => "Wetland"@,
        Biome::IceCap => "Ice Cap"@,
        Biome::Tundra => "Tundra"@,
        Biome::Taiga => "Taiga"@,
        Biome::Shrubland => "Shrubland"@,
        Biome::Plain => "Plain"@,
        Biome::Forest => "Forest"@,
        Biome::Savanna => "Savanna"@,
        Biome::Desert => "Desert"@,
        Biome::Jungle => "Jungle"@,
        Biome::Mountain => "Mountain"@,
        Biome::Snow => "Snow"@,
        Biome::Volcano => "Volcano"@,
        Biome::LavaField => "Lava Field"@,
        Biome::AshLand => "Ash Land"@,
        Biome::MagmaSea => "Magma Sea"@,
        Biome::ScorchedWaste => "Scorched Waste"@,
        Biome::FrozenOcean => "Frozen Ocean"@,
        Biome::GlacialPlain => "Glacial Plain"@,
        Biome::CausticLake => "Caustic Lake"@,
        Biome::ToxicSwamp => "Toxic Swamp"@,
        Biome::AcidFlatland => "Acid Flatland"@,
        Biome::RockyWaste => "Rocky Waste"@,
        Biome::DustPlain => "Dust Plain"@,
    }
}

/// Human-readable name for a biome, used in the legend.
pub fn biome_name(b: Biome) -> (r: &'static str)
    ensures
        r@ == name_of(b),
{
    match b {
        Biome::DeepOcean => "Deep Ocean",
        Biome::Ocean => "Ocean",
        Biome::Beach => "Beach",
        Biome::Wetland => "Wetland",
        Biome::IceCap => "Ice Cap",
        Biome::Tundra => "Tundra",
        Biome::Taiga => "Taiga",
        Biome::Shrubland => "Shrubland",
        Biome::Plain => "Plain",
        Biome::Forest => "Forest",
        Biome::Savanna => "Savanna",
        Biome::Desert => "Desert",
        Biome::Jungle => "Jungle",
        Biome::Mountain => "Mountain",
        Biome::Snow => "Snow",
        Biome::Volcano => "Volcano",
        Biome::LavaField => "Lava Field",
        Biome::AshLand => "Ash Land",
        Biome::MagmaSea => "Magma Sea",
        Biome::ScorchedWaste => "Scorched Waste",
        Biome::FrozenOcean => "Frozen Ocean",
        Biome::GlacialPlain => "Glacial Plain",
        Biome::CausticLake => "Caustic Lake",
        Biome::ToxicSwamp => "Toxic Swamp",
        Biome::AcidFlatland => "Acid Flatland",
        Biome::RockyWaste => "Rocky Waste",
        Biome::DustPlain => "Dust Plain",
    }
}

/// Canonical legend position of each biome: its place in declaration order.
pub open spec fn order_of(b: Biome) -> int {
    match b {
        Biome::DeepOcean => 0,
        Biome::Ocean => 1,
        Biome::Beach => 2,
        Biome::Wetland => 3,
        Biome::IceCap => 4,
        Biome::Tundra => 5,
        Biome::Taiga => 6,
        Biome::Shrubland => 7,
        Biome::Plain => 8,
        Biome::Forest => 9,
        Biome::Savanna => 10,
        Biome::Desert => 11,
        Biome::Jungle => 12,
        Biome::Mountain => 13,
        Biome::Snow => 14,
        Biome::Volcano => 15,
        Biome::LavaField => 16,
        Biome::AshLand => 17,
        Biome::MagmaSea => 18,
        Biome::ScorchedWaste => 19,
        Biome::FrozenOcean => 20,
        Biome::GlacialPlain => 21,
        Biome::CausticLake => 22,
        Biome::ToxicSwamp => 23,
        Biome::AcidFlatland => 24,
        Biome::RockyWaste => 25,
        Biome::DustPlain => 26,
    }
}

/// Canonical sort order for legend display (the declaration order).
pub fn biome_order(b: Biome) -> (r: u8)
    ensures
        r == order_of(b),
{
    match b {
        Biome::DeepOcean => 0,
        Biome::Ocean => 1,
        Biome::Beach => 2,
        Biome::Wetland => 3,
        Biome::IceCap => 4,
        Biome::Tundra => 5,
        Biome::Taiga => 6,
        Biome::Shrubland => 7,
        Biome::Plain => 8,
        Biome::Forest => 9,
        Biome::Savanna => 10,
        Biome::Desert => 11,
        Biome::Jungle => 12,
        Biome::Mountain => 13,
        Biome::Snow => 14,
        Biome::Volcano => 15,
        Biome::LavaField => 16,
        Biome::AshLand => 17,
        Biome::MagmaSea => 18,
        Biome::ScorchedWaste => 19,
        Biome::FrozenOcean => 20,
        Biome::GlacialPlain => 21,
        Biome::CausticLake => 22,
        Biome::ToxicSwamp => 23,
        Biome::AcidFlatland => 24,
        Biome::RockyWaste => 25,
        Biome::DustPlain => 26,
    }
}

// ── Planet climate offsets ──────────────────────────────────────────────────

/// `(Δtemperature, Δmoisture, Δvolcanic_zone)` of each archetype, in micro-units.
pub open spec fn offsets_of(pt: PlanetType) -> (int, int, int) {
    match pt {
        PlanetType::Terran => (0, 0, 0),
        PlanetType::Volcanic => (450_000, -550_000, 500_000),
        PlanetType::Frozen => (-550_000, 150_000, -300_000),
        PlanetType::Caustic => (100_000, 550_000, 0),
        PlanetType::Barren => (0, -650_000, -400_000),
    }
}

/// Returns `(Δtemperature, Δmoisture, Δvolcanic_zone)` for the given planet
/// archetype. The caller clamps the shifted signals to their valid ranges.
pub fn planet_offsets(pt: PlanetType) -> (r: (i32, i32, i32))
    ensures
        (r.0 as int, r.1 as int, r.2 as int) == offsets_of(pt),
{
    match pt {
        PlanetType::Terran => (0, 0, 0),
        // Scorching hot, bone-dry, heavily volcanic
        PlanetType::Volcanic => (450_000, -550_000, 500_000),
        // Perpetually cold, slightly more frozen precipitation
        PlanetType::Frozen => (-550_000, 150_000, -300_000),
        // Mildly warm, saturated with caustic moisture
        PlanetType::Caustic => (100_000, 550_000, 0),
        // Arid lifeless rock, no volcanic activity
        PlanetType::Barren => (0, -650_000, -400_000),
    }
}

// ── Stage one: altitude bands ───────────────────────────────────────────────

/// Base biome chosen from biome elevation `e`, moisture `m` and temperature `t`.
pub open spec fn base_biome(e: int, m: int, t: int) -> Biome {
    if e < -450_000 {
        Biome::DeepOcean
    } else if e < -150_000 {
        Biome::Ocean
    } else if e < 0 {
        if t < 150_000 {
            Biome::IceCap
        } else if m > 300_000 {
            Biome::Wetland
        } else {
            Biome::Beach
        }
    } else if e > 700_000 {
        if t < 350_000 || e > 880_000 {
            Biome::Snow
        } else {
            Biome::Mountain
        }
    } else if t < 150_000 {
        Biome::IceCap
    } else if t < 300_000 {
        if m > 200_000 {
            Biome::Taiga
        } else {
            Biome::Tundra
        }
    } else if t < 550_000 {
        if m < -100_000 {
            Biome::Shrubland
        } else if m > 350_000 {
            Biome::Forest
        } else {
            Biome::Plain
        }
    } else if m < -50_000 {
        Biome::Desert
    } else if m < 300_000 {
        Biome::Savanna
    } else {
        Biome::Jungle
    }
}

fn ocean_biome(e: i32) -> (r: Biome)
    requires
        e < -150_000,
    ensures
        r == base_biome(e as int, 0, 0),
{
    if e < -450_000 {
        Biome::DeepOcean
    } else {
        Biome::Ocean
    }
}

fn shore_biome(t: i32, m: i32) -> (r: Biome)
    ensures
        r == base_biome(-1, m as int, t as int),
{
    if t < 150_000 {
        Biome::IceCap  // frozen shore / pack ice
    } else if m > 300_000 {
        Biome::Wetland  // mangroves / marshes
    } else {
        Biome::Beach
    }
}

fn highland_biome(e: i32, t: i32) -> (r: Biome)
    requires
        e > 700_000,
    ensures
        r == base_biome(e as int, 0, t as int),
{
    if t < 350_000 || e > 880_000 {
        Biome::Snow
    } else {
        Biome::Mountain
    }
}

fn land_biome(t: i32, m: i32) -> (r: Biome)
    ensures
        r == base_biome(0, m as int, t as int),
{
    if t < 150_000 {
        return Biome::IceCap;  // polar
    }
    if t < 300_000 {
        return boreal_biome(m);
    }
    if t < 550_000 {
        return temperate_biome(m);
    }
    tropical_biome(m)
}

fn boreal_biome(m: i32) -> (r: Biome)
    ensures
        r == base_biome(0, m as int, 150_000),
{
    if m > 200_000 {
        Biome::Taiga
    } else {
        Biome::Tundra
    }
}

fn temperate_biome(m: i32) -> (r: Biome)
    ensures
        r == base_biome(0, m as int, 300_000),
{
    if m < -100_000 {
        Biome::Shrubland
    } else if m > 350_000 {
        Biome::Forest
    } else {
        Biome::Plain
    }
}

fn tropical_biome(m: i32) -> (r: Biome)
    ensures
        r == base_biome(0, m as int, 550_000),
{
    if m < -50_000 {
        Biome::Desert
    } else if m < 300_000 {
        Biome::Savanna
    } else {
        Biome::Jungle
    }
}

// ── Stage two: volcanic override ────────────────────────────────────────────

/// Biome after the volcanic override ladder; the strongest matching rule wins.
pub open spec fn volcanic_override(b: Biome, e: int, vz: int) -> Biome {
    let peak = b == Biome::Mountain || b == Biome::Snow;
    let slope = peak || b == Biome::Shrubland || b == Biome::Plain || b == Biome::Tundra;
    if vz <= 0 {
        b
    } else if peak && e > 800_000 && vz > 550_000 {
        Biome::Volcano
    } else if peak && vz > 300_000 {
        Biome::LavaField
    } else if slope && e > 300_000 && vz > 150_000 {
        Biome::AshLand
    } else {
        b
    }
}

/// Overrides a biome when it sits inside an active volcanic zone.
///
/// - `vz` volcanic zone in `[0, UNIT]`: `0` = inert, higher = stronger activity.
/// - `e`  biome elevation, distinguishes caldera from flank from foothill.
///
/// Override ladder (strongest condition wins):
/// - Volcano: `Mountain|Snow`, `e > 0.80`, `vz > 0.55`
/// - LavaField: `Mountain|Snow`, `vz > 0.30`
/// - AshLand: `Mountain|Snow|Shrubland|Plain|Tundra`, `e > 0.30`, `vz > 0.15`
pub fn apply_volcanic(biome: Biome, e: i32, vz: i32) -> (r: Biome)
    ensures
        r == volcanic_override(biome, e as int, vz as int),
{
    if vz <= 0 {
        return biome;
    }
    let peak = biome == Biome::Mountain || biome == Biome::Snow;
    if peak && e > 800_000 && vz > 550_000 {
        // Summit / caldera: active vent
        Biome::Volcano
    } else if peak && vz > 300_000 {
        // Volcanic flanks: cooling lava flows
        Biome::LavaField
    } else if (peak || biome == Biome::Shrubland || biome == Biome::Plain || biome == Biome::Tundra)
        && e > 300_000 && vz > 150_000 {
        // Lower slopes and surrounding terrain: ash wasteland
        Biome::AshLand
    } else {
        biome
    }
}

// ── Stage three: planet-archetype remap ─────────────────────────────────────

/// The archetype's biome remap table; biomes it does not list pass through.
pub open spec fn planet_remap(b: Biome, pt: PlanetType) -> Biome {
    match pt {
        PlanetType::Terran => b,
        PlanetType::Volcanic => match b {
            Biome::DeepOcean | Biome::Ocean => Biome::MagmaSea,
            Biome::Beach | Biome::Wetland | Biome::Forest | Biome::Jungle | Biome::Taiga => Biome::AshLand,
            Biome::Plain | Biome::Shrubland | Biome::Savanna | Biome::Desert | Biome::IceCap
            | Biome::Tundra | Biome::Snow | Biome::GlacialPlain => Biome::ScorchedWaste,
            _ => b,
        },
        PlanetType::Frozen => match b {
            Biome::DeepOcean | Biome::Ocean | Biome::MagmaSea => Biome::FrozenOcean,
            Biome::Beach | Biome::Wetland => Biome::IceCap,
            Biome::Plain | Biome::Shrubland | Biome::Savanna | Biome::Desert | Biome::LavaField
            | Biome::AshLand | Biome::ScorchedWaste => Biome::GlacialPlain,
            Biome::Forest | Biome::Jungle => Biome::Taiga,
            _ => b,
        },
        PlanetType::Caustic => match b {
            Biome::DeepOcean | Biome::Ocean => Biome::CausticLake,
            Biome::Beach | Biome::Wetland | Biome::Forest | Biome::Jungle | Biome::Taiga => Biome::ToxicSwamp,
            Biome::Plain | Biome::Shrubland | Biome::Savanna | Biome::Tundra | Biome::Desert
            | Biome::IceCap | Biome::Snow | Biome::GlacialPlain => Biome::AcidFlatland,
            _ => b,
        },
        PlanetType::Barren => match b {
            Biome::DeepOcean | Biome::Ocean | Biome::CausticLake | Biome::FrozenOcean | Biome::Beach
            | Biome::Wetland | Biome::ToxicSwamp | Biome::LavaField | Biome::AshLand
            | Biome::ScorchedWaste | Biome::Snow => Biome::RockyWaste,
            Biome::Plain | Biome::Shrubland | Biome::Savanna | Biome::Desert | Biome::Tundra
            | Biome::IceCap | Biome::GlacialPlain | Biome::AcidFlatland | Biome::Forest
            | Biome::Jungle | Biome::Taiga => Biome::DustPlain,
            _ => b,
        },
    }
}

/// Final pass that converts standard biomes into planet-exclusive ones.
/// `Terran` is a no-op; every other archetype remaps some or all biomes.
pub fn apply_planet_type(biome: Biome, pt: PlanetType) -> (r: Biome)
    ensures
        r == planet_remap(biome, pt),
{
    match pt {
        PlanetType::Terran => biome,
        // Ocean basins fill with magma; lowlands are scoured to bare rock.
        PlanetType::Volcanic => match biome {
            Biome::DeepOcean | Biome::Ocean => Biome::MagmaSea,
            Biome::Beach | Biome::Wetland => Biome::AshLand,
            Biome::Plain | Biome::Shrubland | Biome::Savanna | Biome::Desert => Biome::ScorchedWaste,
            Biome::Forest | Biome::Jungle | Biome::Taiga => Biome::AshLand,
            Biome::IceCap | Biome::Tundra | Biome::Snow | Biome::GlacialPlain => Biome::ScorchedWaste,
            other => other,
        },
        // Oceans are sealed under ice; temperate zones become permafrost plains.
        PlanetType::Frozen => match biome {
            Biome::DeepOcean | Biome::Ocean | Biome::MagmaSea => Biome::FrozenOcean,
            Biome::Beach | Biome::Wetland => Biome::IceCap,
            Biome::Plain | Biome::Shrubland => Biome::GlacialPlain,
            Biome::Forest | Biome::Jungle => Biome::Taiga,
            Biome::Savanna | Biome::Desert => Biome::GlacialPlain,
            Biome::LavaField | Biome::AshLand | Biome::ScorchedWaste => Biome::GlacialPlain,
            other => other,
        },
        // Oceans become acid seas; vegetation zones drown in toxic runoff.
        PlanetType::Caustic => match biome {
            Biome::DeepOcean | Biome::Ocean => Biome::CausticLake,
            Biome::Beach | Biome::Wetland | Biome::Forest | Biome::Jungle | Biome::Taiga => Biome::ToxicSwamp,
            Biome::Plain | Biome::Shrubland | Biome::Savanna | Biome::Tundra | Biome::Desert => Biome::AcidFlatland,
            Biome::IceCap | Biome::Snow | Biome::GlacialPlain => Biome::AcidFlatland,
            other => other,
        },
        // No liquid water; all life extinct; only rock and dust remain.
        PlanetType::Barren => match biome {
            Biome::DeepOcean | Biome::Ocean | Biome::CausticLake | Biome::FrozenOcean => Biome::RockyWaste,
            Biome::Beach | Biome::Wetland | Biome::ToxicSwamp => Biome::RockyWaste,
            Biome::Plain | Biome::Shrubland | Biome::Savanna | Biome::Desert | Biome::Tundra
            | Biome::IceCap | Biome::GlacialPlain | Biome::AcidFlatland => Biome::DustPlain,
            Biome::Forest | Biome::Jungle | Biome::Taiga => Biome::DustPlain,
            Biome::LavaField | Biome::AshLand | Biome::ScorchedWaste | Biome::Snow => Biome::RockyWaste,
            other => other,
        },
    }
}

// ── The whole cascade ───────────────────────────────────────────────────────

/// The biome of a cell: altitude band, then volcanic override, then remap.
pub open spec fn classify(e: int, m: int, t: int, vz: int, pt: PlanetType) -> Biome {
    planet_remap(volcanic_override(base_biome(e, m, t), e, vz), pt)
}

/// Selects the final biome for a tile by running the full cascade:
/// altitude band, volcanic override, planet remapping.
///
/// - `e`   biome elevation in `[-UNIT, UNIT]`
/// - `m`   moisture        in `[-UNIT, UNIT]` (positive is wet)
/// - `t`   temperature     in `[0, UNIT]` (`0` = polar, `UNIT` = equatorial)
/// - `vz`  volcanic zone   in `[0, UNIT]` (`0` = inert)
/// - `pt`  planet archetype, governing the final remap
pub fn choose_biome(e: i32, m: i32, t: i32, vz: i32, pt: PlanetType) -> (r: Biome)
    ensures
        r == classify(e as int, m as int, t as int, vz as int, pt),
{
    let base = if e < -150_000 {
        ocean_biome(e)
    } else if e < 0 {
        shore_biome(t, m)
    } else if e > 700_000 {
        highland_biome(e, t)
    } else {
        land_biome(t, m)
    };
    let after_volcano = apply_volcanic(base, e, vz);
    apply_planet_type(after_volcano, pt)
}

// ── Laws of the classifier ──────────────────────────────────────────────────

/// Classification is a pure function of its five inputs: two classifications
/// of the same `(e, m, t, vz, pt)` give the same biome.
pub proof fn lemma_classify_pure(e: int, m: int, t: int, vz: int, pt: PlanetType, r1: Biome, r2: Biome)
    requires
        r1 == classify(e, m, t, vz, pt),
        r2 == classify(e, m, t, vz, pt),
    ensures
        r1 == r2,
{
}

/// The Terran archetype remaps nothing.
pub proof fn lemma_terran_identity(b: Biome)
    ensures
        planet_remap(b, PlanetType::Terran) == b,
{
}

/// The deep-ocean threshold sits at `-0.45`: below it a Terran cell is deep
/// ocean, from it up to `-0.15` open ocean, whatever the other signals.
pub proof fn lemma_ocean_boundary(e: int, m: int, t: int, vz: int)
    ensures
        e < -450_000 ==> classify(e, m, t, vz, PlanetType::Terran) == Biome::DeepOcean,
        -450_000 <= e < -150_000 ==> classify(e, m, t, vz, PlanetType::Terran) == Biome::Ocean,
{
}

/// The strongest volcanic rule wins: a highland Terran cell above `0.80`
/// inside a zone above `0.55` is a volcano, although the lava-field and
/// ash-land conditions hold as well.
pub proof fn lemma_volcano_wins(e: int, m: int, t: int, vz: int)
    requires
        e > 800_000,
        vz > 550_000,
    ensures
        classify(e, m, t, vz, PlanetType::Terran) == Biome::Volcano,
{
}

/// The biomes that the archetype's remap table can produce.
pub open spec fn remap_targets(pt: PlanetType) -> Set<Biome> {
    match pt {
        PlanetType::Terran => Set::empty(),
        PlanetType::Volcanic => set![Biome::MagmaSea, Biome::AshLand, Biome::ScorchedWaste],
        PlanetType::Frozen => set![Biome::FrozenOcean, Biome::IceCap, Biome::GlacialPlain, Biome::Taiga],
        PlanetType::Caustic => set![Biome::CausticLake, Biome::ToxicSwamp, Biome::AcidFlatland],
        PlanetType::Barren => set![Biome::RockyWaste, Biome::DustPlain],
    }
}

/// The biomes exclusive to an archetype (none for `Terran`).
pub open spec fn exclusive_biomes(pt: PlanetType) -> Set<Biome> {
    match pt {
        PlanetType::Terran => Set::empty(),
        PlanetType::Volcanic => set![Biome::MagmaSea, Biome::ScorchedWaste],
        PlanetType::Frozen => set![Biome::FrozenOcean, Biome::GlacialPlain],
        PlanetType::Caustic => set![Biome::CausticLake, Biome::ToxicSwamp, Biome::AcidFlatland],
        PlanetType::Barren => set![Biome::RockyWaste, Biome::DustPlain],
    }
}

/// Remap closure: a remap either leaves the biome unchanged or yields one of
/// the archetype's own table entries, never a biome exclusive to another
/// archetype.
pub proof fn lemma_remap_closed(b: Biome, pt: PlanetType)
    ensures
        planet_remap(b, pt) == b || remap_targets(pt).contains(planet_remap(b, pt)),
        planet_remap(b, pt) != b ==> forall|other: PlanetType|
            other != pt ==> !#[trigger] exclusive_biomes(other).contains(planet_remap(b, pt)),
{
}

/// Mountains and volcanoes are never remapped.
pub proof fn lemma_peaks_kept(pt: PlanetType)
    ensures
        planet_remap(Biome::Mountain, pt) == Biome::Mountain,
        planet_remap(Biome::Volcano, pt) == Biome::Volcano,
{
}

} // verus!
