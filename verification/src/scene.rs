//! Scene generator: builds the full point cloud for one frame from fixed
//! procedural rules — trunk rings, four foliage cone tiers, a bipyramid star
//! sampled over its triangular faces, and a greeting arc above the star.
//!
//! Positions are model-space milli-units; the visibility gates
//! (`birth_threshold` against growth progress, `lod_level` against zoom
//! progress) are milli-units of [0, 1].

use vstd::prelude::*;
use crate::fx::{
    fx_mul, fx_mul_s, fx_sin, fx_cos, fx_sin_s, fx_cos_s, lemma_fx_mul_unit, lemma_fx_mul_range,
    lemma_fx_mul_nonneg,
};
use crate::rng::{Rng, rng_step, rng_unit_of, rng_iter, lemma_rng_iter_add, rng_iter2, lemma_rng_iter2_add};

verus! {

/// The role of a point; the variants rule out meaningless flag combinations.
#[derive(Clone, Copy, PartialEq, Eq, Structural, Debug)]
pub enum PointKind {
    Trunk,
    Foliage { ornament: bool, ornament_id: usize },
    Star { bright: bool },
    Greeting { ch: char },
}

/// One point of the ephemeral per-frame cloud.
#[derive(Clone, Copy, PartialEq, Eq, Structural, Debug)]
pub struct Point3D {
    pub x: i64,
    pub y: i64,
    pub z: i64,
    pub r: u8,
    pub g: u8,
    pub b: u8,
    pub birth_threshold: i64,
    pub lod_level: i64,
    pub kind: PointKind,
}

/// Well-formed point: both gates in [0, 1] and the position inside the
/// model-space box that the projector accepts.
pub open spec fn wf_point(p: Point3D) -> bool {
    &&& 0 <= p.birth_threshold <= 1000
    &&& 0 <= p.lod_level <= 1000
    &&& -20_000 <= p.x <= 20_000
    &&& -20_000 <= p.y <= 20_000
    &&& -20_000 <= p.z <= 20_000
    &&& (p.kind matches PointKind::Foliage { ornament_id, .. } ==> ornament_id <= 1_000_000)
}

/// Whether a point is drawn emphasised.
pub open spec fn is_bright_s(k: PointKind) -> bool {
    match k {
        PointKind::Trunk => false,
        PointKind::Foliage { ornament, .. } => ornament,
        PointKind::Star { bright } => bright,
        PointKind::Greeting { .. } => true,
    }
}

/// Number of star points in a sequence.
pub open spec fn star_count(s: Seq<Point3D>) -> int
    decreases s.len(),
{
    if s.len() == 0 {
        0
    } else {
        star_count(s.drop_last()) + (if s.last().kind is Star {
            1int
        } else {
            0int
        })
    }
}

pub proof fn lemma_star_count_add(a: Seq<Point3D>, b: Seq<Point3D>)
    ensures
        star_count(a + b) == star_count(a) + star_count(b),
    decreases b.len(),
{
    if b.len() == 0 {
        assert(a + b =~= a);
    } else {
        lemma_star_count_add(a, b.drop_last());
        assert((a + b).drop_last() =~= a + b.drop_last());
        assert((a + b).last() == b.last());
    }
}

pub proof fn lemma_star_count_none(s: Seq<Point3D>)
    requires
        forall|i: int| 0 <= i < s.len() ==> !((#[trigger] s[i]).kind is Star),
    ensures
        star_count(s) == 0,
    decreases s.len(),
{
    if s.len() > 0 {
        lemma_star_count_none(s.drop_last());
    }
}

pub proof fn lemma_star_count_all(s: Seq<Point3D>)
    requires
        forall|i: int| 0 <= i < s.len() ==> (#[trigger] s[i]).kind is Star,
    ensures
        star_count(s) == s.len(),
    decreases s.len(),
{
    if s.len() > 0 {
        lemma_star_count_all(s.drop_last());
    }
}

/// The trunk point at one flat index: the rings are laid out 150 points per
/// height step (5 radius bands of 30 angular samples each).
pub open spec fn trunk_point_s(i: int) -> Point3D {
    let ys = i / 150;
    let rl = 1 + (i % 150) / 30;
    let ang = i % 30;
    let t = ys * 1000 / 25;
    let taper = fx_mul_s(t, 300);
    let base = 1100 - taper;
    let rad = fx_mul_s(base, rl * 1000 / 6);
    let a = ang * 6280 / 35;
    Point3D {
        x: fx_mul_s(fx_cos_s(a), rad) as i64,
        y: (-6000 + 3 * t) as i64,
        z: fx_mul_s(fx_sin_s(a), rad) as i64,
        r: 95,
        g: 55,
        b: 30,
        birth_threshold: fx_mul_s(t, 100) as i64,
        lod_level: 0,
        kind: PointKind::Trunk,
    }
}

/// Trunk: 25 height steps of 5 concentric rings with 30 angular samples,
/// radius tapering with height, brown, growing in during the first tenth of
/// the growth animation (birth threshold is the height fraction over ten).
/// The points are a fixed, pinned sequence.
pub fn trunk_points() -> (r: Vec<Point3D>)
    ensures
        r@.len() == 3750,
        forall|i: int| 0 <= i < 3750 ==> #[trigger] r@[i] == trunk_point_s(i),
        forall|i: int|
            0 <= i < r@.len() ==> {
                &&& wf_point(#[trigger] r@[i])
                &&& r@[i].kind is Trunk
                &&& r@[i].lod_level == 0
                &&& r@[i].birth_threshold == 4 * (i / 150)
            },
{
    let mut points: Vec<Point3D> = Vec::new();
    for y_step in 0..25usize
        invariant
            points@.len() == y_step * 150,
            forall|i: int| 0 <= i < points@.len() ==> #[trigger] points@[i] == trunk_point_s(i),
            forall|i: int|
                0 <= i < points@.len() ==> {
                    &&& wf_point(#[trigger] points@[i])
                    &&& points@[i].kind is Trunk
                    &&& points@[i].lod_level == 0
                    &&& points@[i].birth_threshold == 4 * (i / 150)
                },
    {
        let t: i64 = ((y_step * 1000) / 25) as i64;
        let birth = fx_mul(t, 100);
        proof {
            reveal(crate::fx::fx_mul_s);
            reveal(crate::fx::tdiv);
            assert(t == 40 * y_step);
            assert(t * 100 == 1000 * (4 * y_step as int));
            vstd::arithmetic::div_mod::lemma_div_multiples_vanish(4 * y_step as int, 1000);
            assert(birth == 4 * y_step as int);
        }
        for r_l in 1..6usize
            invariant
                y_step < 25,
                t == 40 * y_step,
                birth == 4 * y_step as int,
                points@.len() == y_step * 150 + (r_l - 1) * 30,
                forall|i: int|
                    0 <= i < points@.len() ==> #[trigger] points@[i] == trunk_point_s(i),
                forall|i: int|
                    0 <= i < points@.len() ==> {
                        &&& wf_point(#[trigger] points@[i])
                        &&& points@[i].kind is Trunk
                        &&& points@[i].lod_level == 0
                        &&& points@[i].birth_threshold == 4 * (i / 150)
                    },
        {
            let taper = fx_mul(t, 300);
            proof {
                lemma_fx_mul_range(t as int, 300, 960, 300);
                lemma_fx_mul_nonneg(t as int, 300);
            }
            let base = 1100 - taper;
            let rad = fx_mul(base, ((r_l * 1000) / 6) as i64);
            proof {
                lemma_fx_mul_unit(base as int, ((r_l * 1000) / 6) as int, 1100);
            }
            for ang in 0..30usize
                invariant
                    y_step < 25,
                    1 <= r_l < 6,
                    t == 40 * y_step,
                    birth == 4 * y_step as int,
                    -1100 <= rad <= 1100,
                    points@.len() == y_step * 150 + (r_l - 1) * 30 + ang,
                    rad == fx_mul_s(1100 - fx_mul_s(t as int, 300), (r_l * 1000 / 6) as int),
                    forall|i: int|
                        0 <= i < points@.len() ==> #[trigger] points@[i] == trunk_point_s(i),
                    forall|i: int|
                        0 <= i < points@.len() ==> {
                            &&& wf_point(#[trigger] points@[i])
                            &&& points@[i].kind is Trunk
                            &&& points@[i].lod_level == 0
                            &&& points@[i].birth_threshold == 4 * (i / 150)
                        },
            {
                let a = ((ang * 6280) / 35) as i64;
                let c = fx_cos(a);
                let s = fx_sin(a);
                let px = fx_mul(c, rad);
                let pz = fx_mul(s, rad);
                let py = -6000 + 3 * t;
                proof {
                    reveal(crate::fx::fx_mul_s);
                    reveal(crate::fx::tdiv);
                    lemma_fx_mul_unit(rad as int, c as int, 1100);
                    lemma_fx_mul_unit(rad as int, s as int, 1100);
                    assert(fx_mul_s(c as int, rad as int) == fx_mul_s(rad as int, c as int));
                    assert(fx_mul_s(s as int, rad as int) == fx_mul_s(rad as int, s as int));
                    let idx = points@.len() as int;
                    let rem = (r_l as int - 1) * 30 + ang as int;
                    assert(idx / 150 == y_step as int && idx % 150 == rem) by {
                        vstd::arithmetic::div_mod::lemma_fundamental_div_mod_converse(
                            idx,
                            150,
                            y_step as int,
                            rem,
                        );
                    }
                    assert(rem / 30 == r_l as int - 1 && rem % 30 == ang as int) by {
                        vstd::arithmetic::div_mod::lemma_fundamental_div_mod_converse(
                            rem,
                            30,
                            r_l as int - 1,
                            ang as int,
                        );
                    }
                    assert(idx % 30 == ang as int) by {
                        vstd::arithmetic::div_mod::lemma_fundamental_div_mod_converse(
                            idx,
                            30,
                            y_step as int * 5 + r_l as int - 1,
                            ang as int,
                        );
                    }
                }
                points.push(
                    Point3D {
                        x: px,
                        y: py,
                        z: pz,
                        r: 95,
                        g: 55,
                        b: 30,
                        birth_threshold: birth,
                        lod_level: 0,
                        kind: PointKind::Trunk,
                    },
                );
            }
        }
    }
    points
}

/// The tier pass of one flat band index (8 rings per radial step, 28 steps
/// per tier pass; the widest tier is built first).
pub open spec fn band_tier_s(b: int) -> int {
    3 - b / 224
}

/// The radial step of one flat band index.
pub open spec fn band_step_s(b: int) -> int {
    (b % 224) / 8
}

/// The radius ring of one flat band index.
pub open spec fn band_ring_s(b: int) -> int {
    1 + b % 8
}

/// The step fraction of a band.
pub open spec fn band_t_s(b: int) -> int {
    band_step_s(b) * 1000 / 28
}

/// The height of a band.
pub open spec fn band_y_s(b: int) -> int {
    3000 - band_tier_s(b) * 1600 - fx_mul_s(band_t_s(b), 2800)
}

/// The radius of a band.
pub open spec fn band_rad_s(b: int) -> int {
    fx_mul_s(fx_mul_s(1400 + band_tier_s(b) * 1200, band_t_s(b)), band_ring_s(b) * 1000 / 8)
}

/// How many points a band holds: its radius times fifty, at least fifteen.
pub open spec fn band_count_s(b: int) -> int {
    let np = fx_mul_s(band_rad_s(b), 50);
    if np < 15 {
        15
    } else {
        np
    }
}

/// The birth threshold of a band, kept inside the unit interval.
pub open spec fn band_birth_s(b: int) -> int {
    let raw = 100 + (b / 224) * 150 + (band_t_s(b) + 100);
    if raw > 1000 {
        1000
    } else {
        raw
    }
}

/// The green shade of a band.
pub open spec fn band_green_s(b: int) -> int {
    70 + band_tier_s(b) * 40 + band_step_s(b) * 2
}

/// The `p`-th sample of band `b`, its ornament decided by the draw from `st`.
pub open spec fn foliage_point_s(st: u32, b: int, p: int) -> Point3D {
    let a = p * 6280 / 10;
    Point3D {
        x: fx_mul_s(fx_cos_s(a), band_rad_s(b)) as i64,
        y: band_y_s(b) as i64,
        z: fx_mul_s(fx_sin_s(a), band_rad_s(b)) as i64,
        r: 0,
        g: band_green_s(b) as u8,
        b: 20,
        birth_threshold: band_birth_s(b) as i64,
        lod_level: 0,
        kind: PointKind::Foliage {
            ornament: rng_unit_of(st) > 940,
            ornament_id: (p + band_step_s(b)) as usize,
        },
    }
}

/// All samples of band `b`, their draws starting from `st`.
pub open spec fn band_points_s(st: u32, b: int) -> Seq<Point3D> {
    Seq::new(band_count_s(b) as nat, |p: int| foliage_point_s(rng_iter(st, p as nat), b, p))
}

/// The foliage points of the first `b` bands, one draw per point, starting
/// from `st`.
pub open spec fn foliage_seq_s(st: u32, b: int) -> Seq<Point3D>
    decreases b,
{
    if b <= 0 {
        Seq::empty()
    } else {
        let prefix = foliage_seq_s(st, b - 1);
        prefix + band_points_s(rng_iter(st, prefix.len()), b - 1)
    }
}

/// Foliage: four downward-opening cone tiers, 28 radial steps, up to 8 radius
/// bands, point count growing with band radius; green shaded by tier and step;
/// a random ~6% of points carry an ornament. Birth thresholds start at 0.2 and
/// rise outward and upward, so the foliage grows in after the trunk. The
/// points are a pure function of the random state handed in, pinned as a
/// sequence.
pub fn foliage_points(rng: &mut Rng) -> (r: Vec<Point3D>)
    ensures
        r@ == foliage_seq_s(old(rng).state, 896),
        final(rng).state == rng_iter(old(rng).state, r@.len() as nat),
        forall|i: int|
            0 <= i < r@.len() ==> {
                &&& wf_point(#[trigger] r@[i])
                &&& r@[i].kind matches PointKind::Foliage { .. }
                &&& r@[i].lod_level == 0
                &&& r@[i].birth_threshold >= 200
            },
{
    let ghost st0 = rng.state;
    let mut points: Vec<Point3D> = Vec::new();
    for ti in 0..4usize
        invariant
            rng.state == rng_iter(st0, points@.len() as nat),
            points@ == foliage_seq_s(st0, 224 * ti),
            forall|i: int|
                0 <= i < points@.len() ==> {
                    &&& wf_point(#[trigger] points@[i])
                    &&& points@[i].kind matches PointKind::Foliage { .. }
                    &&& points@[i].lod_level == 0
                    &&& points@[i].birth_threshold >= 200
                },
    {
        let tier = 3 - ti;
        let t_off: i64 = (ti * 150) as i64;
        let y_start: i64 = 3000 - (tier as i64) * 1600;
        let max_r: i64 = 1400 + (tier as i64) * 1200;
        for s in 0..28usize
            invariant
                ti < 4,
                tier == 3 - ti,
                t_off == ti * 150,
                y_start == 3000 - tier * 1600,
                max_r == 1400 + tier * 1200,
                rng.state == rng_iter(st0, points@.len() as nat),
                points@ == foliage_seq_s(st0, 224 * ti + 8 * s),
                forall|i: int|
                    0 <= i < points@.len() ==> {
                        &&& wf_point(#[trigger] points@[i])
                        &&& points@[i].kind matches PointKind::Foliage { .. }
                        &&& points@[i].lod_level == 0
                        &&& points@[i].birth_threshold >= 200
                    },
        {
            let t: i64 = ((s * 1000) / 28) as i64;
            let drop = fx_mul(t, 2800);
            proof {
                lemma_fx_mul_range(t as int, 2800, 1000, 2800);
                lemma_fx_mul_nonneg(t as int, 2800);
            }
            let y = y_start - drop;
            let sr = fx_mul(max_r, t);
            proof {
                lemma_fx_mul_unit(max_r as int, t as int, 5000);
                lemma_fx_mul_nonneg(max_r as int, t as int);
            }
            let birth_raw = 100 + t_off + (t + 100);
            let birth = if birth_raw > 1000 {
                1000
            } else {
                birth_raw
            };
            let shade: u8 = (70 + tier * 40 + s * 2) as u8;
            for r_idx in 1..9usize
                invariant
                    ti < 4,
                    tier == 3 - ti,
                    t_off == ti * 150,
                    max_r == 1400 + tier * 1200,
                    s < 28,
                    t == s * 1000 / 28,
                    0 <= t <= 964,
                    0 <= sr <= 5000,
                    sr == fx_mul_s(max_r as int, t as int),
                    y == 3000 - tier * 1600 - fx_mul_s(t as int, 2800),
                    -1800 - 2800 <= y <= 3000,
                    birth == (if 100 + ti * 150 + (t + 100) > 1000 {
                        1000int
                    } else {
                        100 + ti * 150 + (t + 100)
                    }),
                    200 <= birth <= 1000,
                    shade == 70 + tier * 40 + s * 2,
                    rng.state == rng_iter(st0, points@.len() as nat),
                    points@ == foliage_seq_s(st0, 224 * ti + 8 * s + (r_idx - 1)),
                    forall|i: int|
                        0 <= i < points@.len() ==> {
                            &&& wf_point(#[trigger] points@[i])
                            &&& points@[i].kind matches PointKind::Foliage { .. }
                            &&& points@[i].lod_level == 0
                            &&& points@[i].birth_threshold >= 200
                        },
            {
                let ghost b = 224 * ti as int + 8 * s as int + (r_idx as int - 1);
                proof {
                    vstd::arithmetic::div_mod::lemma_fundamental_div_mod_converse(
                        b,
                        224,
                        ti as int,
                        8 * s as int + (r_idx as int - 1),
                    );
                    vstd::arithmetic::div_mod::lemma_fundamental_div_mod_converse(
                        8 * s as int + (r_idx as int - 1),
                        8,
                        s as int,
                        r_idx as int - 1,
                    );
                    assert(band_tier_s(b) == tier as int);
                    assert(band_step_s(b) == s as int);
                    assert(band_ring_s(b) == r_idx as int);
                    assert(band_t_s(b) == t as int);
                    assert(band_y_s(b) == y as int);
                    assert(band_birth_s(b) == birth as int);
                    assert(band_green_s(b) == shade as int);
                }
                let rad = fx_mul(sr, ((r_idx * 1000) / 8) as i64);
                proof {
                    lemma_fx_mul_unit(sr as int, ((r_idx * 1000) / 8) as int, 5000);
                    lemma_fx_mul_nonneg(sr as int, ((r_idx * 1000) / 8) as int);
                    assert(band_rad_s(b) == rad as int);
                }
                let np = fx_mul(rad, 50);
                proof {
                    lemma_fx_mul_range(rad as int, 50, 5000, 50);
                    lemma_fx_mul_nonneg(rad as int, 50);
                }
                let num_p: usize = if np < 15 {
                    15
                } else {
                    np as usize
                };
                proof {
                    assert(band_count_s(b) == num_p as int);
                }
                let ghost flen = points@.len() as int;
                let ghost stb = rng.state;
                for p in 0..num_p
                    invariant
                        s < 28,
                        num_p <= 250,
                        0 <= rad <= 5000,
                        -1800 - 2800 <= y <= 3000,
                        200 <= birth <= 1000,
                        0 <= b < 896,
                        band_rad_s(b) == rad as int,
                        band_count_s(b) == num_p as int,
                        band_y_s(b) == y as int,
                        band_birth_s(b) == birth as int,
                        band_green_s(b) == shade as int,
                        band_step_s(b) == s as int,
                        flen == foliage_seq_s(st0, b).len(),
                        stb == rng_iter(st0, flen as nat),
                        points@.len() == flen + p,
                        rng.state == rng_iter(stb, p as nat),
                        points@ == foliage_seq_s(st0, b) + Seq::new(
                            p as nat,
                            |q: int| foliage_point_s(rng_iter(stb, q as nat), b, q),
                        ),
                        forall|i: int|
                            0 <= i < points@.len() ==> {
                                &&& wf_point(#[trigger] points@[i])
                                &&& points@[i].kind matches PointKind::Foliage { .. }
                                &&& points@[i].lod_level == 0
                                &&& points@[i].birth_threshold >= 200
                            },
                {
                    let ghost stp = rng.state;
                    let a = ((p * 6280) / 10) as i64;
                    let draw = rng.next_unit();
                    let is_orn = draw > 940;
                    let c = fx_cos(a);
                    let sn = fx_sin(a);
                    let px = fx_mul(c, rad);
                    let pz = fx_mul(sn, rad);
                    proof {
                        reveal(crate::fx::fx_mul_s);
                        lemma_fx_mul_unit(rad as int, c as int, 5000);
                        lemma_fx_mul_unit(rad as int, sn as int, 5000);
                        assert(fx_mul_s(c as int, rad as int) == fx_mul_s(rad as int, c as int));
                        assert(fx_mul_s(sn as int, rad as int) == fx_mul_s(rad as int, sn as int));
                    }
                    points.push(
                        Point3D {
                            x: px,
                            y,
                            z: pz,
                            r: 0,
                            g: shade,
                            b: 20,
                            birth_threshold: birth,
                            lod_level: 0,
                            kind: PointKind::Foliage { ornament: is_orn, ornament_id: p + s },
                        },
                    );
                    proof {
                        assert(rng.state == rng_iter(stb, (p + 1) as nat));
                        assert(points@.last() == foliage_point_s(rng_iter(stb, p as nat), b, p as int));
                        assert(points@ =~= foliage_seq_s(st0, b) + Seq::new(
                            (p + 1) as nat,
                            |q: int| foliage_point_s(rng_iter(stb, q as nat), b, q),
                        ));
                    }
                }
                proof {
                    assert(Seq::new(
                        num_p as nat,
                        |q: int| foliage_point_s(rng_iter(stb, q as nat), b, q),
                    ) =~= band_points_s(stb, b));
                    assert(points@ =~= foliage_seq_s(st0, b + 1));
                    lemma_rng_iter_add(st0, flen as nat, num_p as nat);
                }
            }
        }
    }
    points
}

/// The two barycentric draws taken from state `st`, folded into the triangle
/// when their sum leaves it.
pub open spec fn folded_pair_s(st: u32) -> (int, int) {
    let a = rng_unit_of(st);
    let b = rng_unit_of(rng_step(st));
    if a + b > 1000 {
        (1000 - a, 1000 - b)
    } else {
        (a, b)
    }
}

/// The star sample produced from state `st` on the face `(v1, v2, v3)` with
/// the given shade and LOD, around the star centre.
pub open spec fn face_point_s(
    st: u32,
    v1: (i64, i64, i64),
    v2: (i64, i64, i64),
    v3: (i64, i64, i64),
    shade: i64,
    lod: i64,
) -> Point3D {
    let ab = folded_pair_s(st);
    let aa = ab.0;
    let bb = ab.1;
    Point3D {
        x: (v1.0 + fx_mul_s(aa, v2.0 - v1.0) + fx_mul_s(bb, v3.0 - v1.0)) as i64,
        y: (3600 + v1.1 + fx_mul_s(aa, v2.1 - v1.1) + fx_mul_s(bb, v3.1 - v1.1)) as i64,
        z: (v1.2 + fx_mul_s(aa, v2.2 - v1.2) + fx_mul_s(bb, v3.2 - v1.2)) as i64,
        r: (255 * shade / 1000) as u8,
        g: (210 * shade / 1000) as u8,
        b: 0,
        birth_threshold: 850,
        lod_level: lod,
        kind: PointKind::Star { bright: shade > 800 },
    }
}

/// One vertex of a star vertex ring.
fn pick_vertex(vs: &Vec<(i64, i64, i64)>, i: usize) -> (v: (i64, i64, i64))
    requires
        i < vs@.len(),
    ensures
        v == vs@[i as int],
{
    vs[i]
}

/// Densely sample one triangular star face by folded barycentric draws,
/// pushing `density` points around the star centre (0, 3.6, 0).
fn sample_face(
    points: &mut Vec<Point3D>,
    v1: (i64, i64, i64),
    v2: (i64, i64, i64),
    v3: (i64, i64, i64),
    shade: i64,
    density: usize,
    lod: i64,
    rng: &mut Rng,
)
    requires
        -2000 <= v1.0 <= 2000,
        -2000 <= v1.1 <= 2000,
        -2000 <= v1.2 <= 2000,
        -2000 <= v2.0 <= 2000,
        -2000 <= v2.1 <= 2000,
        -2000 <= v2.2 <= 2000,
        -2000 <= v3.0 <= 2000,
        -2000 <= v3.1 <= 2000,
        -2000 <= v3.2 <= 2000,
        0 <= shade <= 1000,
        0 <= lod <= 1000,
        density <= 1000,
    ensures
        final(points)@.len() == old(points)@.len() + density,
        forall|i: int|
            0 <= i < old(points)@.len() ==> final(points)@[i] == old(points)@[i],
        forall|i: int|
            old(points)@.len() <= i < final(points)@.len() ==> {
                &&& wf_point(#[trigger] final(points)@[i])
                &&& final(points)@[i].kind == (PointKind::Star { bright: shade > 800 })
                &&& final(points)@[i].birth_threshold == 850
                &&& final(points)@[i].lod_level == lod
            },
        final(rng).state == rng_iter2(old(rng).state, density as nat),
        forall|m: int|
            0 <= m < density ==> #[trigger] final(points)@[old(points)@.len() + m]
                == face_point_s(rng_iter2(old(rng).state, m as nat), v1, v2, v3, shade, lod),
{
    let ghost base = points@.len() as int;
    let ghost st0 = rng.state;
    let cr: u8 = ((255 * shade) / 1000) as u8;
    let cg: u8 = ((210 * shade) / 1000) as u8;
    let bright = shade > 800;
    for k in 0..density
        invariant
            base == old(points)@.len(),
            points@.len() == base + k,
            rng.state == rng_iter2(st0, k as nat),
            forall|m: int|
                0 <= m < k ==> #[trigger] points@[base + m] == face_point_s(
                    rng_iter2(st0, m as nat),
                    v1,
                    v2,
                    v3,
                    shade,
                    lod,
                ),
            0 <= shade <= 1000,
            cr == (255 * shade) / 1000,
            cg == (210 * shade) / 1000,
            bright == (shade > 800),
            0 <= lod <= 1000,
            -2000 <= v1.0 <= 2000,
            -2000 <= v1.1 <= 2000,
            -2000 <= v1.2 <= 2000,
            -2000 <= v2.0 <= 2000,
            -2000 <= v2.1 <= 2000,
            -2000 <= v2.2 <= 2000,
            -2000 <= v3.0 <= 2000,
            -2000 <= v3.1 <= 2000,
            -2000 <= v3.2 <= 2000,
            forall|i: int| 0 <= i < base ==> points@[i] == old(points)@[i],
            forall|i: int|
                base <= i < points@.len() ==> {
                    &&& wf_point(#[trigger] points@[i])
                    &&& points@[i].kind == (PointKind::Star { bright: shade > 800 })
                    &&& points@[i].birth_threshold == 850
                    &&& points@[i].lod_level == lod
                },
    {
        let ghost stk = rng.state;
        let mut aa = rng.next_unit();
        let mut bb = rng.next_unit();
        if aa + bb > 1000 {
            aa = 1000 - aa;
            bb = 1000 - bb;
        }
        proof {
            assert((aa as int, bb as int) == folded_pair_s(stk));
            assert(rng.state == rng_iter2(st0, (k + 1) as nat));
        }
        proof {
            lemma_fx_mul_range(aa as int, (v2.0 - v1.0) as int, 1000, 4000);
            lemma_fx_mul_range(aa as int, (v3.0 - v1.0) as int, 1000, 4000);
            lemma_fx_mul_range(aa as int, (v2.1 - v1.1) as int, 1000, 4000);
            lemma_fx_mul_range(aa as int, (v3.1 - v1.1) as int, 1000, 4000);
            lemma_fx_mul_range(aa as int, (v2.2 - v1.2) as int, 1000, 4000);
            lemma_fx_mul_range(aa as int, (v3.2 - v1.2) as int, 1000, 4000);
            lemma_fx_mul_range(bb as int, (v2.0 - v1.0) as int, 1000, 4000);
            lemma_fx_mul_range(bb as int, (v3.0 - v1.0) as int, 1000, 4000);
            lemma_fx_mul_range(bb as int, (v2.1 - v1.1) as int, 1000, 4000);
            lemma_fx_mul_range(bb as int, (v3.1 - v1.1) as int, 1000, 4000);
            lemma_fx_mul_range(bb as int, (v2.2 - v1.2) as int, 1000, 4000);
            lemma_fx_mul_range(bb as int, (v3.2 - v1.2) as int, 1000, 4000);
        }
        let px = v1.0 + fx_mul(aa, v2.0 - v1.0) + fx_mul(bb, v3.0 - v1.0);
        let py = v1.1 + fx_mul(aa, v2.1 - v1.1) + fx_mul(bb, v3.1 - v1.1);
        let pz = v1.2 + fx_mul(aa, v2.2 - v1.2) + fx_mul(bb, v3.2 - v1.2);
        let ghost prev = points@;
        points.push(
            Point3D {
                x: px,
                y: 3600 + py,
                z: pz,
                r: cr,
                g: cg,
                b: 0,
                birth_threshold: 850,
                lod_level: lod,
                kind: PointKind::Star { bright },
            },
        );
        proof {
            assert forall|j: int| 0 <= j < base implies points@[j] == old(points)@[j] by {
                assert(points@[j] == prev[j]);
            }
            assert(points@[base + k] == face_point_s(stk, v1, v2, v3, shade, lod));
        }
    }
}

/// Samples per face: denser under the zoom flag.
pub open spec fn star_density_s(zooming: bool) -> int {
    if zooming {
        900int
    } else {
        180int
    }
}

/// One outer-ring vertex of the star (radius 1, five-fold).
pub open spec fn star_outer_vertex_s(i: int) -> (i64, i64, i64) {
    let a = i * 72 * 17453 / 1000;
    (fx_sin_s(a) as i64, fx_cos_s(a) as i64, 0)
}

/// One inner-ring vertex of the star (radius 0.45, offset 36 degrees).
pub open spec fn star_inner_vertex_s(i: int) -> (i64, i64, i64) {
    let a = (i * 72 + 36) * 17453 / 1000;
    (fx_mul_s(fx_sin_s(a), 450) as i64, fx_mul_s(fx_cos_s(a), 450) as i64, 0)
}

/// The face with flat index `f` (three per spoke): its corner vertices and
/// shade.
pub open spec fn star_face_s(f: int) -> ((i64, i64, i64), (i64, i64, i64), (i64, i64, i64), i64) {
    let spoke = f / 3;
    let kind = f % 3;
    let prev = (spoke + 4) % 5;
    if kind == 0 {
        ((0i64, 0i64, 300i64), star_outer_vertex_s(spoke), star_inner_vertex_s(spoke), 1000i64)
    } else if kind == 1 {
        ((0i64, 0i64, 300i64), star_outer_vertex_s(spoke), star_inner_vertex_s(prev), 750i64)
    } else {
        ((0i64, 0i64, -300i64), star_outer_vertex_s(spoke), star_inner_vertex_s(spoke), 500i64)
    }
}

/// The star sample with flat index `n`, drawn from the `n`-th pair of draws.
pub open spec fn star_point_s(st0: u32, n: int, zooming: bool) -> Point3D {
    let face = star_face_s(n / star_density_s(zooming));
    face_point_s(
        rng_iter2(st0, n as nat),
        face.0,
        face.1,
        face.2,
        face.3,
        if zooming {
            400i64
        } else {
            0i64
        },
    )
}

/// Star: a five-fold bipyramid; each of the 15 triangular faces is sampled
/// 900 times when the zoom flag is set (those denser faces carry LOD 0.4, so
/// they appear only under zoom), else 180 times. Every sample is a pure
/// function of the random state handed in, pinned position by position.
pub fn star_points(zooming: bool, rng: &mut Rng) -> (r: Vec<Point3D>)
    ensures
        r@.len() == 15 * star_density_s(zooming),
        forall|n: int|
            0 <= n < r@.len() ==> #[trigger] r@[n] == star_point_s(old(rng).state, n, zooming),
        final(rng).state == rng_iter2(old(rng).state, (15 * star_density_s(zooming)) as nat),
        forall|i: int|
            0 <= i < r@.len() ==> {
                &&& wf_point(#[trigger] r@[i])
                &&& r@[i].kind is Star
                &&& r@[i].birth_threshold == 850
            },
{
    let ghost st0 = rng.state;
    let mut points: Vec<Point3D> = Vec::new();
    let mut outer_v: Vec<(i64, i64, i64)> = Vec::new();
    let mut inner_v: Vec<(i64, i64, i64)> = Vec::new();
    for i in 0..5usize
        invariant
            outer_v@.len() == i,
            forall|j: int| 0 <= j < i ==> #[trigger] outer_v@[j] == star_outer_vertex_s(j),
            forall|j: int|
                0 <= j < i ==> {
                    &&& -1000 <= (#[trigger] outer_v@[j]).0 <= 1000
                    &&& -1000 <= outer_v@[j].1 <= 1000
                    &&& outer_v@[j].2 == 0
                },
    {
        let a = ((i * 72 * 17453) / 1000) as i64;
        outer_v.push((fx_sin(a), fx_cos(a), 0));
    }
    for i in 0..5usize
        invariant
            inner_v@.len() == i,
            outer_v@.len() == 5,
            forall|j: int|
                0 <= j < outer_v@.len() ==> {
                    &&& -1000 <= (#[trigger] outer_v@[j]).0 <= 1000
                    &&& -1000 <= outer_v@[j].1 <= 1000
                    &&& outer_v@[j].2 == 0
                },
            forall|j: int| 0 <= j < i ==> #[trigger] inner_v@[j] == star_inner_vertex_s(j),
            forall|j: int|
                0 <= j < i ==> {
                    &&& -1000 <= (#[trigger] inner_v@[j]).0 <= 1000
                    &&& -1000 <= inner_v@[j].1 <= 1000
                    &&& inner_v@[j].2 == 0
                },
    {
        let a = (((i * 72 + 36) * 17453) / 1000) as i64;
        let sn = fx_sin(a);
        let cs = fx_cos(a);
        let ix = fx_mul(sn, 450);
        let iy = fx_mul(cs, 450);
        proof {
            lemma_fx_mul_range(sn as int, 450, 1000, 450);
            lemma_fx_mul_range(cs as int, 450, 1000, 450);
        }
        inner_v.push((ix, iy, 0));
    }
    let front_c = (0i64, 0i64, 300i64);
    let back_c = (0i64, 0i64, -300i64);
    let density: usize = if zooming {
        900
    } else {
        180
    };
    let lod: i64 = if zooming {
        400
    } else {
        0
    };
    for i in 0..5usize
        invariant
            outer_v@.len() == 5,
            inner_v@.len() == 5,
            density == star_density_s(zooming),
            lod == (if zooming {
                400int
            } else {
                0int
            }),
            rng.state == rng_iter2(st0, (i * 3 * density) as nat),
            forall|j: int| 0 <= j < outer_v@.len() ==> #[trigger] outer_v@[j]
                == star_outer_vertex_s(j),
            forall|j: int| 0 <= j < inner_v@.len() ==> #[trigger] inner_v@[j]
                == star_inner_vertex_s(j),
            forall|n: int|
                0 <= n < points@.len() ==> #[trigger] points@[n] == star_point_s(
                    st0,
                    n,
                    zooming,
                ),
            forall|j: int|
                0 <= j < outer_v@.len() ==> {
                    &&& -1000 <= (#[trigger] outer_v@[j]).0 <= 1000
                    &&& -1000 <= outer_v@[j].1 <= 1000
                    &&& outer_v@[j].2 == 0
                },
            forall|j: int|
                0 <= j < inner_v@.len() ==> {
                    &&& -1000 <= (#[trigger] inner_v@[j]).0 <= 1000
                    &&& -1000 <= inner_v@[j].1 <= 1000
                    &&& inner_v@[j].2 == 0
                },
            front_c == (0i64, 0i64, 300i64),
            back_c == (0i64, 0i64, -300i64),
            points@.len() == i * 3 * density,
            forall|k: int|
                0 <= k < points@.len() ==> {
                    &&& wf_point(#[trigger] points@[k])
                    &&& points@[k].kind is Star
                    &&& points@[k].birth_threshold == 850
                    &&& points@[k].lod_level == lod
                },
    {
        let prev = (i + 4) % 5;
        let o = pick_vertex(&outer_v, i);
        let inn = pick_vertex(&inner_v, i);
        let inp = pick_vertex(&inner_v, prev);
        proof {
            assert(-1000 <= outer_v@[i as int].0 <= 1000);
            assert(-1000 <= inner_v@[i as int].0 <= 1000);
            assert(-1000 <= inner_v@[prev as int].0 <= 1000);
        }
        let ghost b0 = points@.len() as int;
        let ghost s0 = rng.state;
        sample_face(&mut points, front_c, o, inn, 1000, density, lod, rng);
        proof {
            lemma_star_face_pin(st0, s0, b0, i as int, 0, density as int, points@, front_c, o, inn,
                1000, lod, zooming);
            lemma_rng_iter2_add(st0, b0 as nat, density as nat);
        }
        let ghost b1 = points@.len() as int;
        let ghost s1 = rng.state;
        sample_face(&mut points, front_c, o, inp, 750, density, lod, rng);
        proof {
            lemma_star_face_pin(st0, s1, b1, i as int, 1, density as int, points@, front_c, o, inp,
                750, lod, zooming);
            lemma_rng_iter2_add(st0, b1 as nat, density as nat);
        }
        let ghost b2 = points@.len() as int;
        let ghost s2 = rng.state;
        sample_face(&mut points, back_c, o, inn, 500, density, lod, rng);
        proof {
            lemma_star_face_pin(st0, s2, b2, i as int, 2, density as int, points@, back_c, o, inn,
                500, lod, zooming);
            lemma_rng_iter2_add(st0, b2 as nat, density as nat);
            assert((i as int + 1) * 3 * (density as int) == i as int * 3 * (density as int) + 3 * (
            density as int)) by (nonlinear_arith);
        }
    }
    proof {
        assert(points@.len() == 15 * star_density_s(zooming));
    }
    points
}

/// After one face call, the fresh samples are the star points of their flat
/// indices: the face index decodes from the position, and the draw pairs
/// compose.
proof fn lemma_star_face_pin(
    st0: u32,
    sc: u32,
    base: int,
    i: int,
    t: int,
    density: int,
    pts: Seq<Point3D>,
    v1: (i64, i64, i64),
    v2: (i64, i64, i64),
    v3: (i64, i64, i64),
    shade: i64,
    lod: i64,
    zooming: bool,
)
    requires
        0 <= i < 5,
        0 <= t < 3,
        density == star_density_s(zooming),
        lod == (if zooming {
            400int
        } else {
            0int
        }),
        base == (i * 3 + t) * density,
        sc == rng_iter2(st0, base as nat),
        base + density <= pts.len(),
        forall|m: int|
            0 <= m < density ==> #[trigger] pts[base + m] == face_point_s(
                rng_iter2(sc, m as nat),
                v1,
                v2,
                v3,
                shade,
                lod,
            ),
        star_face_s(i * 3 + t) == (v1, v2, v3, shade),
    ensures
        forall|n: int|
            base <= n < base + density ==> #[trigger] pts[n] == star_point_s(st0, n, zooming),
{
    assert forall|n: int|
        base <= n < base + density implies #[trigger] pts[n] == star_point_s(st0, n, zooming) by {
        let m = n - base;
        lemma_rng_iter2_add(st0, base as nat, m as nat);
        vstd::arithmetic::div_mod::lemma_fundamental_div_mod_converse(n, density, i * 3 + t, m);
        assert(pts[base + m] == face_point_s(rng_iter2(sc, m as nat), v1, v2, v3, shade, lod));
    }
}

/// One character of a text, as the glyph for a greeting point.
fn pick_char(t: &Vec<char>, i: usize) -> (c: char)
    requires
        i < t@.len(),
    ensures
        c == t@[i as int],
{
    t[i]
}

/// The fixed greeting phrase.
pub open spec fn greeting_text_s() -> Seq<char> {
    seq!['M', 'E', 'R', 'R', 'Y', ' ', 'C', 'H', 'R', 'I', 'S', 'T', 'M', 'A', 'S']
}

/// The greeting point for one character position: laid on an arc sweeping
/// from 135 to 45 degrees above the star, red or green by the blink phase
/// crossed with the position's parity.
pub open spec fn greeting_point_s(i: int, time: int) -> Point3D {
    let frac = i * 1000 / 14;
    let arc = fx_mul_s(frac, 500);
    let term = 750 - arc;
    let angle = fx_mul_s(3141, term);
    let blink = (time * 6 / 1000) % 2 == 0;
    let red = blink != (i % 2 == 0);
    Point3D {
        x: fx_mul_s(fx_cos_s(angle), 1300) as i64,
        y: (3600 + fx_mul_s(fx_sin_s(angle), 1300)) as i64,
        z: 0,
        r: (if red {
            255u8
        } else {
            50u8
        }),
        g: (if red {
            50u8
        } else {
            255u8
        }),
        b: 50,
        birth_threshold: 0,
        lod_level: 500,
        kind: PointKind::Greeting { ch: greeting_text_s()[i] },
    }
}

/// Greeting arc: emitted only once zoom progress strictly exceeds 0.1; a fixed
/// phrase laid out along an arc above the star, blinking between red and green
/// by a time phase crossed with character parity; always bright, born at once,
/// hidden until half zoom. The points are a pure function of zoom gate and
/// time, pinned position by position.
pub fn greeting_points(zoom: i64, time: i64) -> (r: Vec<Point3D>)
    requires
        0 <= time <= 1_000_000_000_000,
    ensures
        r@.len() == (if zoom > 100 {
            15int
        } else {
            0int
        }),
        forall|i: int| 0 <= i < r@.len() ==> #[trigger] r@[i] == greeting_point_s(i, time as int),
        forall|i: int|
            0 <= i < r@.len() ==> {
                &&& wf_point(#[trigger] r@[i])
                &&& r@[i].kind matches PointKind::Greeting { .. }
                &&& r@[i].birth_threshold == 0
                &&& r@[i].lod_level == 500
            },
{
    let mut points: Vec<Point3D> = Vec::new();
    if zoom > 100 {
        let mut text: Vec<char> = Vec::new();
        text.push('M');
        text.push('E');
        text.push('R');
        text.push('R');
        text.push('Y');
        text.push(' ');
        text.push('C');
        text.push('H');
        text.push('R');
        text.push('I');
        text.push('S');
        text.push('T');
        text.push('M');
        text.push('A');
        text.push('S');
        proof {
            assert(text@ =~= greeting_text_s());
        }
        let blink = ((time as u64 * 6) / 1000) % 2 == 0;
        for i in 0..15usize
            invariant
                text@ == greeting_text_s(),
                0 <= time <= 1_000_000_000_000,
                blink == ((time * 6 / 1000) % 2 == 0),
                points@.len() == i,
                forall|j: int|
                    0 <= j < points@.len() ==> #[trigger] points@[j] == greeting_point_s(
                        j,
                        time as int,
                    ),
                forall|j: int|
                    0 <= j < points@.len() ==> {
                        &&& wf_point(#[trigger] points@[j])
                        &&& points@[j].kind matches PointKind::Greeting { .. }
                        &&& points@[j].birth_threshold == 0
                        &&& points@[j].lod_level == 500
                    },
        {
            let ch = pick_char(&text, i);
            let frac = ((i * 1000) / 14) as i64;
            let arc = fx_mul(frac, 500);
            proof {
                lemma_fx_mul_range(frac as int, 500, 1000, 500);
                lemma_fx_mul_nonneg(frac as int, 500);
            }
            let term = 750 - arc;
            let angle = fx_mul(3141, term);
            proof {
                lemma_fx_mul_range(3141, term as int, 3141, 750);
                lemma_fx_mul_nonneg(3141, term as int);
            }
            let cs = fx_cos(angle);
            let sn = fx_sin(angle);
            proof {
                lemma_fx_mul_range(cs as int, 1300, 1000, 1300);
                lemma_fx_mul_range(sn as int, 1300, 1000, 1300);
            }
            let gx = fx_mul(cs, 1300);
            let gy = 3600 + fx_mul(sn, 1300);
            let red = if blink != (i % 2 == 0) {
                true
            } else {
                false
            };
            let (cr, cg, cb): (u8, u8, u8) = if red {
                (255, 50, 50)
            } else {
                (50, 255, 50)
            };
            points.push(
                Point3D {
                    x: gx,
                    y: gy,
                    z: 0,
                    r: cr,
                    g: cg,
                    b: cb,
                    birth_threshold: 0,
                    lod_level: 500,
                    kind: PointKind::Greeting { ch },
                },
            );
        }
    }
    points
}

/// The trunk as a sequence.
pub open spec fn trunk_seq_s() -> Seq<Point3D> {
    Seq::new(3750, |i: int| trunk_point_s(i))
}

/// The star as a sequence, its draws starting from `st`.
pub open spec fn star_seq_s(st: u32, zooming: bool) -> Seq<Point3D> {
    Seq::new((15 * star_density_s(zooming)) as nat, |n: int| star_point_s(st, n, zooming))
}

/// The greeting arc as a sequence: empty until zoom strictly exceeds 0.1.
pub open spec fn greeting_seq_s(zoom: int, time: int) -> Seq<Point3D> {
    if zoom > 100 {
        Seq::new(15, |i: int| greeting_point_s(i, time))
    } else {
        Seq::empty()
    }
}

/// The whole scene as a sequence: trunk, foliage, star, greeting, in that
/// order, the foliage and star draws threaded from `st`. Two frames built
/// from the same state and arguments are equal by construction.
pub open spec fn scene_seq_s(st: u32, zooming: bool, zoom: int, time: int) -> Seq<Point3D> {
    let fol = foliage_seq_s(st, 896);
    trunk_seq_s() + fol + star_seq_s(rng_iter(st, fol.len()), zooming) + greeting_seq_s(
        zoom,
        time,
    )
}

/// Build the whole point cloud for one frame, deterministically re-seeded.
/// The zoom flag only sets the star sampling density; the zoom progress gates
/// the greeting arc; the time drives its blink phase. The random source is
/// handed on so the rasterizer's sparkle draws continue the same sequence.
pub fn generate_scene(zooming: bool, zoom: i64, time: i64, rng: &mut Rng) -> (r: Vec<Point3D>)
    requires
        0 <= time <= 1_000_000_000_000,
    ensures
        r@ == scene_seq_s(old(rng).state, zooming, zoom as int, time as int),
        final(rng).state == rng_iter2(
            rng_iter(old(rng).state, foliage_seq_s(old(rng).state, 896).len()),
            (15 * star_density_s(zooming)) as nat,
        ),
        forall|i: int| 0 <= i < r@.len() ==> wf_point(#[trigger] r@[i]),
        star_count(r@) == (if zooming {
            13500int
        } else {
            2700int
        }),
        zoom <= 100 ==> forall|i: int| 0 <= i < r@.len() ==> !((#[trigger] r@[i]).kind is Greeting),
        forall|i: int|
            0 <= i < r@.len() ==> ((#[trigger] r@[i]).kind matches PointKind::Foliage { .. }
                ==> r@[i].birth_threshold >= 200),
        r@.len() > 3750,
        forall|i: int| 0 <= i < 3750 ==> #[trigger] r@[i] == trunk_point_s(i),
        forall|i: int| 0 <= i < 150 ==> (#[trigger] r@[i]).kind is Trunk && r@[i].birth_threshold
            == 0,
        zoom > 100 ==> forall|k: int|
            0 <= k < 15 ==> r@[r@.len() - 15 + k] == greeting_point_s(k, time as int),
{
    let ghost st0 = rng.state;
    let mut pts = trunk_points();
    let ghost t_part = pts@;
    let mut fol = foliage_points(rng);
    let ghost f_part = fol@;
    pts.append(&mut fol);
    let mut st = star_points(zooming, rng);
    let ghost s_part = st@;
    pts.append(&mut st);
    let mut gr = greeting_points(zoom, time);
    let ghost g_part = gr@;
    pts.append(&mut gr);
    proof {
        assert(pts@ == t_part + f_part + s_part + g_part);
        assert(t_part =~= trunk_seq_s());
        assert(s_part =~= star_seq_s(rng_iter(st0, f_part.len()), zooming));
        assert(g_part =~= greeting_seq_s(zoom as int, time as int));
        assert(pts@ =~= scene_seq_s(st0, zooming, zoom as int, time as int));
        lemma_star_count_add(t_part + f_part + s_part, g_part);
        lemma_star_count_add(t_part + f_part, s_part);
        lemma_star_count_add(t_part, f_part);
        lemma_star_count_none(t_part);
        lemma_star_count_none(f_part);
        lemma_star_count_none(g_part);
        lemma_star_count_all(s_part);
        assert forall|i: int| 0 <= i < 3750 implies #[trigger] pts@[i] == trunk_point_s(i) by {
            assert(pts@[i] == t_part[i]);
        }
        if zoom > 100 {
            assert forall|k: int|
                0 <= k < 15 implies pts@[pts@.len() - 15 + k] == greeting_point_s(
                k,
                time as int,
            ) by {
                assert(pts@[pts@.len() - 15 + k] == g_part[k]);
            }
        }
    }
    pts
}

/// The visibility gate: a point is in the visible set iff growth progress has
/// reached its birth threshold and zoom progress plus the 0.1 forward bias
/// has reached its LOD level (both boundaries included).
pub open spec fn visible_s(p: Point3D, growth: int, zoom: int) -> bool {
    p.birth_threshold <= growth && p.lod_level <= zoom + 100
}

/// The visibility test as a predicate, so contracts can name the filter.
pub open spec fn vis_pred(growth: int, zoom: int) -> spec_fn(Point3D) -> bool {
    |p: Point3D| visible_s(p, growth, zoom)
}

pub fn visible(p: &Point3D, growth: i64, zoom: i64) -> (r: bool)
    requires
        -1_000_000 <= zoom <= 1_000_000,
    ensures
        r == visible_s(*p, growth as int, zoom as int),
{
    p.birth_threshold <= growth && p.lod_level <= zoom + 100
}

/// The visible subset of the scene, in generation order.
pub fn visible_points(points: &Vec<Point3D>, growth: i64, zoom: i64) -> (r: Vec<Point3D>)
    requires
        -1_000_000 <= zoom <= 1_000_000,
    ensures
        r@ == points@.filter(vis_pred(growth as int, zoom as int)),
        forall|k: int| 0 <= k < r@.len() ==> points@.contains(#[trigger] r@[k]),
{
    let ghost pred = vis_pred(growth as int, zoom as int);
    let mut out: Vec<Point3D> = Vec::new();
    for idx in 0..points.len()
        invariant
            -1_000_000 <= zoom <= 1_000_000,
            out@ == points@.subrange(0, idx as int).filter(pred),
            forall|k: int| 0 <= k < out@.len() ==> points@.contains(#[trigger] out@[k]),
            pred == vis_pred(growth as int, zoom as int),
    {
        let p = points[idx];
        proof {
            assert(points@.contains(points@[idx as int]));
        }
        proof {
            reveal(Seq::filter);
            assert(points@.subrange(0, idx + 1).drop_last() =~= points@.subrange(0, idx as int));
            assert(points@.subrange(0, idx + 1).last() == points@[idx as int]);
        }
        if visible(&p, growth, zoom) {
            out.push(p);
        }
    }
    proof {
        assert(points@.subrange(0, points@.len() as int) =~= points@);
    }
    out
}

/// Membership in the visible collection is exactly the visibility test.
pub proof fn lemma_visible_set_iff(points: Seq<Point3D>, growth: int, zoom: int, p: Point3D)
    requires
        points.contains(p),
    ensures
        points.filter(vis_pred(growth, zoom)).contains(p) <==> visible_s(p, growth, zoom),
{
    let filtered = points.filter(vis_pred(growth, zoom));
    if visible_s(p, growth, zoom) {
        let i = choose|i: int| 0 <= i < points.len() && points[i] == p;
        points.lemma_filter_contains(vis_pred(growth, zoom), i);
    }
    if filtered.contains(p) {
        let k = choose|k: int| 0 <= k < filtered.len() && filtered[k] == p;
        points.lemma_filter_pred(vis_pred(growth, zoom), k);
    }
}

/// A point whose LOD gate passes is in the visible set iff growth progress
/// has reached its birth threshold, the boundary included.
pub proof fn lemma_growth_gate(points: Seq<Point3D>, growth: int, zoom: int, p: Point3D)
    requires
        points.contains(p),
        p.lod_level <= zoom + 100,
    ensures
        points.filter(vis_pred(growth, zoom)).contains(p) <==> growth >= p.birth_threshold,
{
    lemma_visible_set_iff(points, growth, zoom, p);
}

/// A point whose birth gate passes is in the visible set iff zoom progress
/// plus the 0.1 forward bias has reached its LOD level.
pub proof fn lemma_zoom_gate(points: Seq<Point3D>, growth: int, zoom: int, p: Point3D)
    requires
        points.contains(p),
        p.birth_threshold <= growth,
    ensures
        points.filter(vis_pred(growth, zoom)).contains(p) <==> zoom + 100 >= p.lod_level,
{
    lemma_visible_set_iff(points, growth, zoom, p);
}

} // verus!
