//! Rendering logic shared by the raster back ends: per-pixel colours with
//! contour darkening, the legend's biome list, and the false-colour ramp of
//! the diagnostic noise maps.
use vstd::prelude::*;
use vstd::arithmetic::div_mod::{lemma_fundamental_div_mod, lemma_mod_bound};
use crate::fixed::{UNIT, clamp, clamp_i64};
use crate::biome::{Biome, color_of, order_of, biome_color, biome_order};
use crate::climate::abs;
use crate::world::{PlanetType, Tile, World};
use crate::climate::CellNoise;
use crate::generation::generated;

verus! {

// ── Contours ────────────────────────────────────────────────────────────────

/// Elevations at which contour lines are drawn, in micro-units.
pub open spec fn contour_levels() -> Seq<int> {
    seq![-450_000, -150_000, 0, 150_000, 300_000, 450_000, 600_000, 750_000, 900_000]
}

/// Whether the edge between elevations `a` and `b` crosses a contour level.
pub open spec fn crosses(a: int, b: int) -> bool {
    exists|k: int| 0 <= k < contour_levels().len() && ((a < #[trigger] contour_levels()[k]) != (b < contour_levels()[k]))
}

/// Whether the edge between elevations `a` and `b` crosses a contour level.
pub fn crosses_contour(a: i32, b: i32) -> (r: bool)
    ensures
        r == crosses(a as int, b as int),
{
    let levels: [i32; 9] = [-450_000, -150_000, 0, 150_000, 300_000, 450_000, 600_000, 750_000, 900_000];
    assert(levels@.map_values(|l: i32| l as int) =~= contour_levels());
    let mut k: usize = 0;
    while k < 9
        invariant
            k <= 9,
            levels@.map_values(|l: i32| l as int) == contour_levels(),
            forall|j: int| 0 <= j < k ==> ((a < #[trigger] contour_levels()[j]) == (b < contour_levels()[j])),
        decreases 9 - k,
    {
        assert(levels@[k as int] as int == contour_levels()[k as int]);
        if (a < levels[k]) != (b < levels[k]) {
            return true;
        }
        k = k + 1;
    }
    false
}

/// A colour channel darkened by 40 % on a contour line.
pub open spec fn darken(c: u8) -> u8 {
    (c as int * 6 / 10) as u8
}

fn darken_channel(c: u8) -> (r: u8)
    ensures
        r == darken(c),
{
    (c as u16 * 6 / 10) as u8
}

/// The biome colour, darkened on contour lines.
pub open spec fn shade(b: Biome, contour: bool) -> Seq<u8> {
    if contour {
        color_of(b).map_values(|c: u8| darken(c))
    } else {
        color_of(b)
    }
}

/// The world's tiles cover its `width` × `height` grid in column-major order.
pub open spec fn grid_ok(w: &World) -> bool {
    &&& w.width > 0
    &&& w.height > 0
    &&& w.tiles@.len() == w.width * w.height
}

/// Every generated world of positive size can be rendered.
pub proof fn lemma_generated_grid_ok(
    w: World,
    width: int,
    height: int,
    seed: u32,
    sea_level: int,
    intensity: int,
    pt: PlanetType,
    circumference_km: int,
    noise: Seq<CellNoise>,
)
    requires
        width > 0,
        height > 0,
        generated(w, width, height, seed, sea_level, intensity, pt, circumference_km, noise),
    ensures
        grid_ok(&w),
{
}

/// Whether pixel `i` (column `i / h`, row `i % h`) lies on a contour line:
/// the edge to one of its four grid neighbours crosses a contour level.
pub open spec fn on_contour(t: Seq<Tile>, width: int, h: int, i: int) -> bool {
    let q = i / h;
    let r = i % h;
    let e = t[i].elevation as int;
    ||| q > 0 && crosses(e, t[i - h].elevation as int)
    ||| q + 1 < width && crosses(e, t[i + h].elevation as int)
    ||| r > 0 && crosses(e, t[i - 1].elevation as int)
    ||| r + 1 < h && crosses(e, t[i + 1].elevation as int)
}

/// Colour of each pixel of the world map in column-major order (index
/// `q * height + r`): the tile's biome colour, darkened where an edge to one
/// of its four neighbours crosses a contour level.
pub fn map_colors(w: &World) -> (px: Vec<[u8; 3]>)
    requires
        grid_ok(w),
    ensures
        px@.len() == w.tiles@.len(),
        forall|i: int|
            0 <= i < px@.len() ==> (#[trigger] px@[i])@ == shade(
                w.tiles@[i].biome,
                on_contour(w.tiles@, w.width as int, w.height as int, i),
            ),
{
    let h = w.height as usize;
    let width = w.width as usize;
    let n = w.tiles.len();
    let mut px: Vec<[u8; 3]> = Vec::new();
    let mut i: usize = 0;
    while i < n
        invariant
            grid_ok(w),
            h == w.height,
            width == w.width,
            n == w.tiles@.len(),
            i <= n,
            px@.len() == i,
            forall|j: int|
                0 <= j < i ==> (#[trigger] px@[j])@ == shade(
                    w.tiles@[j].biome,
                    on_contour(w.tiles@, w.width as int, w.height as int, j),
                ),
        decreases n - i,
    {
        let q = i / h;
        let r = i % h;
        proof {
            lemma_fundamental_div_mod(i as int, h as int);
            lemma_mod_bound(i as int, h as int);
        }
        assert((q + 1) * h <= n) by (nonlinear_arith)
            requires
                i == h * q + r,
                0 <= r < h,
                i < n,
                n == width * h,
        ;
        assert(i == q * h + r) by (nonlinear_arith)
            requires
                i == h * q + r,
        ;
        assert(r + 1 < h ==> i + 1 < n) by (nonlinear_arith)
            requires
                i == q * h + r,
                (q + 1) * h <= n,
        ;
        assert(q > 0 ==> i >= h) by (nonlinear_arith)
            requires
                i == q * h + r,
                0 <= r,
                h > 0,
        ;
        assert(q + 1 < width ==> i + h < n) by (nonlinear_arith)
            requires
                i == q * h + r,
                0 <= r < h,
                n == width * h,
        ;
        let e = w.tiles[i].elevation;
        let contour = (q > 0 && crosses_contour(e, w.tiles[i - h].elevation))
            || (q + 1 < width && crosses_contour(e, w.tiles[i + h].elevation))
            || (r > 0 && crosses_contour(e, w.tiles[i - 1].elevation))
            || (r + 1 < h && crosses_contour(e, w.tiles[i + 1].elevation));
        let base = biome_color(w.tiles[i].biome);
        let c: [u8; 3] = if contour {
            [darken_channel(base[0]), darken_channel(base[1]), darken_channel(base[2])]
        } else {
            base
        };
        proof {
            let b = w.tiles@[i as int].biome;
            assert(contour == on_contour(w.tiles@, w.width as int, w.height as int, i as int));
            if contour {
                assert(c@ =~= shade(b, true));
            } else {
                assert(c@ =~= shade(b, false));
            }
        }
        px.push(c);
        i = i + 1;
    }
    px
}

// ── Run-length encoding ─────────────────────────────────────────────────────

/// A horizontal run of equally coloured pixels.
#[derive(Clone, Copy, PartialEq, Eq, Debug)]
pub struct ColorRun {
    /// Index of the run's first pixel.
    pub start: usize,
    /// Number of pixels in the run, at least one.
    pub len: usize,
    pub color: [u8; 3],
}

/// Whether two colours are the same.
pub fn same_color(a: [u8; 3], b: [u8; 3]) -> (r: bool)
    ensures
        r == (a == b),
{
    if a[0] == b[0] && a[1] == b[1] && a[2] == b[2] {
        assert(a =~= b);
        true
    } else {
        false
    }
}

/// `runs` is the run-length encoding of `row`: maximal runs of one colour,
/// left to right, covering every pixel.
pub open spec fn encodes(runs: Seq<ColorRun>, row: Seq<[u8; 3]>) -> bool {
    &&& (runs.len() == 0 <==> row.len() == 0)
    &&& runs.len() > 0 ==> runs[0].start == 0
    &&& runs.len() > 0 ==> runs.last().start + runs.last().len == row.len()
    &&& forall|k: int| 0 <= k < runs.len() ==> (#[trigger] runs[k]).len >= 1
    &&& forall|k: int| 0 <= k < runs.len() - 1 ==> (#[trigger] runs[k + 1]).start == runs[k].start + runs[k].len
    &&& forall|k: int| 0 <= k < runs.len() - 1 ==> (#[trigger] runs[k + 1]).color != runs[k].color
    &&& forall|k: int, p: int|
        0 <= k < runs.len() && runs[k].start <= p < runs[k].start + runs[k].len ==> #[trigger] row[p]
            == (#[trigger] runs[k]).color
}

/// Merges consecutive pixels of one colour into runs, so that a row can be
/// drawn with one rectangle per run.
pub fn color_runs(row: &Vec<[u8; 3]>) -> (runs: Vec<ColorRun>)
    ensures
        encodes(runs@, row@),
{
    let mut runs: Vec<ColorRun> = Vec::new();
    let n = row.len();
    if n == 0 {
        return runs;
    }
    let mut start: usize = 0;
    let mut color = row[0];
    let mut p: usize = 1;
    while p < n
        invariant
            n == row@.len(),
            0 <= start < p <= n,
            color == row@[start as int],
            forall|x: int| start <= x < p ==> #[trigger] row@[x] == color,
            runs@.len() == 0 <==> start == 0,
            runs@.len() > 0 ==> runs@[0].start == 0,
            runs@.len() > 0 ==> runs@.last().start + runs@.last().len == start,
            runs@.len() > 0 ==> runs@.last().color != color,
            forall|k: int| 0 <= k < runs@.len() ==> (#[trigger] runs@[k]).len >= 1,
            forall|k: int| 0 <= k < runs@.len() - 1 ==> (#[trigger] runs@[k + 1]).start == runs@[k].start + runs@[k].len,
            forall|k: int| 0 <= k < runs@.len() - 1 ==> (#[trigger] runs@[k + 1]).color != runs@[k].color,
            forall|k: int, x: int|
                0 <= k < runs@.len() && runs@[k].start <= x < runs@[k].start + runs@[k].len ==> #[trigger] row@[x]
                    == (#[trigger] runs@[k]).color,
        decreases n - p,
    {
        let cur = row[p];
        if !same_color(cur, color) {
            let ghost before = runs@;
            runs.push(ColorRun { start, len: p - start, color });
            proof {
                assert(runs@[runs@.len() - 1] == ColorRun { start, len: (p - start) as usize, color });
                assert forall|k: int| 0 <= k < runs@.len() - 1 implies (#[trigger] runs@[k + 1]).start == runs@[k].start + runs@[k].len by {
                    if k + 1 < before.len() {
                        assert(runs@[k + 1] == before[k + 1]);
                    }
                }
                assert forall|k: int| 0 <= k < runs@.len() - 1 implies (#[trigger] runs@[k + 1]).color != runs@[k].color by {
                    if k + 1 < before.len() {
                        assert(runs@[k + 1] == before[k + 1]);
                    }
                }
            }
            start = p;
            color = cur;
        }
        p = p + 1;
    }
    let ghost before = runs@;
    runs.push(ColorRun { start, len: n - start, color });
    proof {
        assert forall|k: int| 0 <= k < runs@.len() - 1 implies (#[trigger] runs@[k + 1]).start == runs@[k].start + runs@[k].len by {
            if k + 1 < before.len() {
                assert(runs@[k + 1] == before[k + 1]);
            }
        }
        assert forall|k: int| 0 <= k < runs@.len() - 1 implies (#[trigger] runs@[k + 1]).color != runs@[k].color by {
            if k + 1 < before.len() {
                assert(runs@[k + 1] == before[k + 1]);
            }
        }
    }
    runs
}

// ── Legend ──────────────────────────────────────────────────────────────────

/// Some tile of the sequence has biome `b`.
pub open spec fn present(t: Seq<Tile>, b: Biome) -> bool {
    exists|i: int| 0 <= i < t.len() && (#[trigger] t[i]).biome == b
}

/// The biome at a given place of the canonical order.
pub fn biome_with_order(k: u8) -> (b: Biome)
    requires
        k < 27,
    ensures
        order_of(b) == k,
{
    match k {
        0 => Biome::DeepOcean,
        1 => Biome::Ocean,
        2 => Biome::Beach,
        3 => Biome::Wetland,
        4 => Biome::IceCap,
        5 => Biome::Tundra,
        6 => Biome::Taiga,
        7 => Biome::Shrubland,
        8 => Biome::Plain,
        9 => Biome::Forest,
        10 => Biome::Savanna,
        11 => Biome::Desert,
        12 => Biome::Jungle,
        13 => Biome::Mountain,
        14 => Biome::Snow,
        15 => Biome::Volcano,
        16 => Biome::LavaField,
        17 => Biome::AshLand,
        18 => Biome::MagmaSea,
        19 => Biome::ScorchedWaste,
        20 => Biome::FrozenOcean,
        21 => Biome::GlacialPlain,
        22 => Biome::CausticLake,
        23 => Biome::ToxicSwamp,
        24 => Biome::AcidFlatland,
        25 => Biome::RockyWaste,
        _ => Biome::DustPlain,
    }
}

proof fn lemma_order_injective(a: Biome, b: Biome)
    requires
        order_of(a) == order_of(b),
    ensures
        a == b,
{
}

proof fn lemma_order_bound(b: Biome)
    ensures
        0 <= order_of(b) < 27,
{
}

/// The biomes that appear on the map, each once, in canonical order: what
/// the legend lists.
pub fn legend_biomes(w: &World) -> (r: Vec<Biome>)
    ensures
        forall|b: Biome| r@.contains(b) <==> present(w.tiles@, b),
        forall|i: int, j: int| 0 <= i < j < r@.len() ==> order_of(#[trigger] r@[i]) < order_of(#[trigger] r@[j]),
{
    let mut seen: Vec<bool> = Vec::new();
    let mut k: usize = 0;
    while k < 27
        invariant
            k <= 27,
            seen@.len() == k,
            forall|j: int| 0 <= j < k ==> !(#[trigger] seen@[j]),
        decreases 27 - k,
    {
        seen.push(false);
        k = k + 1;
    }
    let n = w.tiles.len();
    let mut i: usize = 0;
    while i < n
        invariant
            n == w.tiles@.len(),
            i <= n,
            seen@.len() == 27,
            forall|b: Biome|
                #[trigger] seen@[order_of(b)] <==> exists|j: int| 0 <= j < i && (#[trigger] w.tiles@[j]).biome == b,
        decreases n - i,
    {
        let b = w.tiles[i].biome;
        let o = biome_order(b) as usize;
        proof {
            lemma_order_bound(b);
        }
        seen.set(o, true);
        proof {
            assert forall|c: Biome|
                #[trigger] seen@[order_of(c)] <==> exists|j: int| 0 <= j < i + 1 && (#[trigger] w.tiles@[j]).biome == c by {
                lemma_order_bound(c);
                if c == b {
                    assert(w.tiles@[i as int].biome == c);
                } else {
                    if order_of(c) == order_of(b) {
                        lemma_order_injective(c, b);
                    }
                    if exists|j: int| 0 <= j < i + 1 && (#[trigger] w.tiles@[j]).biome == c {
                        let j = choose|j: int| 0 <= j < i + 1 && (#[trigger] w.tiles@[j]).biome == c;
                        assert(j != i);
                    }
                }
            }
        }
        i = i + 1;
    }
    let mut out: Vec<Biome> = Vec::new();
    let mut k: u8 = 0;
    while k < 27
        invariant
            k <= 27,
            seen@.len() == 27,
            forall|b: Biome| #[trigger] seen@[order_of(b)] <==> present(w.tiles@, b),
            forall|j: int| 0 <= j < out@.len() ==> order_of(#[trigger] out@[j]) < k,
            forall|a: int, c: int| 0 <= a < c < out@.len() ==> order_of(#[trigger] out@[a]) < order_of(#[trigger] out@[c]),
            forall|b: Biome| out@.contains(b) <==> (order_of(b) < k && present(w.tiles@, b)),
        decreases 27 - k,
    {
        let b = biome_with_order(k);
        let ghost before = out@;
        if seen[k as usize] {
            out.push(b);
        }
        proof {
            assert forall|c: Biome| out@.contains(c) <==> (order_of(c) < k + 1 && present(w.tiles@, c)) by {
                if order_of(c) == k {
                    lemma_order_injective(c, b);
                }
                if out@.contains(c) {
                    let j = choose|j: int| 0 <= j < out@.len() && out@[j] == c;
                    if j < before.len() {
                        assert(before[j] == c);
                        assert(before.contains(c));
                    }
                }
                if order_of(c) < k && present(w.tiles@, c) {
                    assert(before.contains(c));
                    let j = choose|j: int| 0 <= j < before.len() && before[j] == c;
                    assert(out@[j] == c);
                }
                if order_of(c) == k && present(w.tiles@, c) {
                    assert(out@[out@.len() - 1] == c);
                }
            }
        }
        k = k + 1;
    }
    out
}

// ── False-colour ramp ───────────────────────────────────────────────────────

/// One channel of the "jet" ramp: a hat function centred at `centre / 4`,
/// scaled to `[0, 255]`.
pub open spec fn jet_channel(t: int, centre: int) -> int {
    clamp(1_500_000 - abs(4 * t - centre * UNIT), 0, UNIT as int) * 255 / UNIT as int
}

fn channel(t: i64, centre: i64) -> (c: u8)
    requires
        0 <= t <= UNIT,
        1 <= centre <= 3,
    ensures
        c == jet_channel(t as int, centre as int),
{
    let x = 4 * t - centre * 1_000_000;
    let d = if x < 0 { -x } else { x };
    let v = clamp_i64(1_500_000 - d, 0, 1_000_000);
    assert(0 <= v * 255 <= 255_000_000) by (nonlinear_arith)
        requires
            0 <= v <= 1_000_000,
    ;
    ((v * 255) / 1_000_000) as u8
}

/// The "jet" colour of `t` (clamped to `[0, UNIT]`) as `[red, green, blue]`:
/// blue, cyan, green, yellow, red as `t` rises.
pub open spec fn jet_of(t: int) -> Seq<u8> {
    let u = clamp(t, 0, UNIT as int);
    seq![jet_channel(u, 3) as u8, jet_channel(u, 2) as u8, jet_channel(u, 1) as u8]
}

/// "Jet" ramp: blue, cyan, green, yellow, red.
pub fn jet(t: i32) -> (c: [u8; 3])
    ensures
        c@ == jet_of(t as int),
{
    let u = clamp_i64(t as i64, 0, 1_000_000);
    let c = [channel(u, 3), channel(u, 2), channel(u, 1)];
    assert(c@ =~= jet_of(t as int));
    c
}

/// Colour of a signed value: `-UNIT` blue, `0` green, `UNIT` red.
pub fn diverge(v: i32) -> (c: [u8; 3])
    ensures
        c@ == jet_of((clamp(v as int, -UNIT as int, UNIT as int) + UNIT) / 2),
{
    let s = clamp_i64(v as i64, -1_000_000, 1_000_000);
    jet(((s + 1_000_000) / 2) as i32)
}

/// Colour of an unsigned value: `0` blue, `UNIT` red.
pub fn sequential(v: i32) -> (c: [u8; 3])
    ensures
        c@ == jet_of(clamp(v as int, 0, UNIT as int)),
{
    jet(clamp_i64(v as i64, 0, 1_000_000) as i32)
}

} // verus!
