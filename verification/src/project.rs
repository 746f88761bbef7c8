//! Projector: rotates every point by the camera angles (no roll), applies the
//! zoom vertical offset, and resolves each point's glyph and color — the
//! star's time-driven brightness shimmer with saturating channels, and the
//! ornaments' four-color cycle. Depth is the rotated Z, used for ordering and
//! intensity only.

use vstd::prelude::*;
use crate::fx::{
    fx_mul, fx_mul_s, fx_sin, fx_sin_s, tdiv64, tdiv, clip_s, lemma_fx_mul_unit,
};
use crate::scene::{Point3D, PointKind, wf_point, is_bright_s};
use crate::snow::{SnowFlake, wf_flake};

verus! {

/// A point after rotation, with its resolved glyph, color and role flags.
#[derive(Clone, Copy, PartialEq, Eq, Structural, Debug)]
pub struct ProjPoint {
    pub px: i64,
    pub py: i64,
    pub pz: i64,
    pub r: u8,
    pub g: u8,
    pub b: u8,
    pub ch: char,
    pub bright: bool,
    pub star: bool,
    pub snow: bool,
    pub greeting: bool,
}

/// Projected coordinates inside the box the rasterizer accepts.
pub open spec fn wf_proj(q: ProjPoint) -> bool {
    &&& -800_000 <= q.px <= 800_000
    &&& -800_000 <= q.py <= 800_000
    &&& -800_000 <= q.pz <= 800_000
}

/// Rotation about the Y axis then the X axis, from the sines and cosines of
/// the camera angles (milli-units each).
pub open spec fn rot_s(x: int, y: int, z: int, sx: int, cx: int, sy: int, cy: int) -> (
    int,
    int,
    int,
) {
    let x1 = fx_mul_s(x, cy) + fx_mul_s(z, sy);
    let z1 = fx_mul_s(z, cy) - fx_mul_s(x, sy);
    let y2 = fx_mul_s(y, cx) - fx_mul_s(z1, sx);
    let z2 = fx_mul_s(y, sx) + fx_mul_s(z1, cx);
    (x1, y2, z2)
}

pub fn rotate(x: i64, y: i64, z: i64, sx: i64, cx: i64, sy: i64, cy: i64) -> (r: (i64, i64, i64))
    requires
        -250_000 <= x <= 250_000,
        -250_000 <= y <= 250_000,
        -250_000 <= z <= 250_000,
        -1000 <= sx <= 1000,
        -1000 <= cx <= 1000,
        -1000 <= sy <= 1000,
        -1000 <= cy <= 1000,
    ensures
        (r.0 as int, r.1 as int, r.2 as int) == rot_s(
            x as int,
            y as int,
            z as int,
            sx as int,
            cx as int,
            sy as int,
            cy as int,
        ),
        -800_000 <= r.0 <= 800_000,
        -800_000 <= r.1 <= 800_000,
        -800_000 <= r.2 <= 800_000,
{
    proof {
        lemma_fx_mul_unit(x as int, cy as int, 250_000);
        lemma_fx_mul_unit(z as int, sy as int, 250_000);
        lemma_fx_mul_unit(z as int, cy as int, 250_000);
        lemma_fx_mul_unit(x as int, sy as int, 250_000);
        lemma_fx_mul_unit(y as int, cx as int, 250_000);
        lemma_fx_mul_unit(y as int, sx as int, 250_000);
    }
    let x1 = fx_mul(x, cy) + fx_mul(z, sy);
    let z1 = fx_mul(z, cy) - fx_mul(x, sy);
    proof {
        lemma_fx_mul_unit(z1 as int, sx as int, 500_000);
        lemma_fx_mul_unit(z1 as int, cx as int, 500_000);
    }
    let y2 = fx_mul(y, cx) - fx_mul(z1, sx);
    let z2 = fx_mul(y, sx) + fx_mul(z1, cx);
    (x1, y2, z2)
}

/// A channel plus a signed shift, saturated into the valid channel range.
pub open spec fn sat3(c: int, d: int) -> int {
    clip_s(c + d, 0, 255)
}

/// The star's brightness shimmer: a sinusoid of elapsed time and the point's
/// un-rotated X, scaled to at most a quarter of the channel range.
pub open spec fn shimmer_s(time: int, x: int) -> int {
    fx_mul_s(fx_sin_s(time * 8 + x * 15), 25)
}

/// A channel plus a signed shift, saturating instead of wrapping.
pub fn sat_add(c: u8, d: i64) -> (r: u8)
    requires
        -1000 <= d <= 1000,
    ensures
        r == sat3(c as int, d as int),
{
    let v = c as i64 + d;
    if v < 0 {
        0
    } else if v > 255 {
        255
    } else {
        v as u8
    }
}

/// The shimmer value for a star point.
pub fn shimmer(time: i64, x: i64) -> (r: i64)
    requires
        0 <= time <= 1_000_000_000_000,
        -20_000 <= x <= 20_000,
    ensures
        r == shimmer_s(time as int, x as int),
        -25 <= r <= 25,
{
    let sn = fx_sin(time * 8 + x * 15);
    proof {
        crate::fx::lemma_fx_mul_range(sn as int, 25, 1000, 25);
    }
    fx_mul(sn, 25)
}

/// The ornament color cycle: a fixed four-color palette keyed by the
/// ornament's identity plus the elapsed time.
pub open spec fn palette_s(phase: int) -> (int, int, int) {
    if phase == 0 {
        (255int, 60int, 60int)
    } else if phase == 1 {
        (60int, 180int, 255int)
    } else if phase == 2 {
        (255int, 215int, 0int)
    } else {
        (100int, 255int, 100int)
    }
}

/// The color of a point at projection time: stars shimmer, ornaments cycle,
/// everything else (greetings included) keeps its base color.
pub open spec fn adjust_color_s(p: Point3D, time: int) -> (int, int, int) {
    match p.kind {
        PointKind::Star { .. } => {
            let shm = shimmer_s(time, p.x as int);
            (sat3(p.r as int, shm), sat3(p.g as int, shm), sat3(p.b as int, tdiv(shm, 2)))
        },
        PointKind::Foliage { ornament, ornament_id } => {
            if ornament {
                palette_s(((ornament_id + time * 4 / 1000) % 4) as int)
            } else {
                (p.r as int, p.g as int, p.b as int)
            }
        },
        _ => (p.r as int, p.g as int, p.b as int),
    }
}

pub fn adjust_color(p: &Point3D, time: i64) -> (c: (u8, u8, u8))
    requires
        wf_point(*p),
        0 <= time <= 1_000_000_000_000,
    ensures
        (c.0 as int, c.1 as int, c.2 as int) == adjust_color_s(*p, time as int),
{
    match p.kind {
        PointKind::Star { .. } => {
            let shm = shimmer(time, p.x);
            let half = tdiv64(shm, 2);
            (sat_add(p.r, shm), sat_add(p.g, shm), sat_add(p.b, half))
        },
        PointKind::Foliage { ornament, ornament_id } => {
            if ornament {
                let phase = ((ornament_id as u64 + (time as u64 * 4) / 1000) % 4) as usize;
                proof {
                    assert(ornament_id as u64 + (time as u64 * 4) / 1000 == ornament_id + time * 4
                        / 1000);
                }
                match phase {
                    0 => (255, 60, 60),
                    1 => (60, 180, 255),
                    2 => (255, 215, 0),
                    _ => (100, 255, 100),
                }
            } else {
                (p.r, p.g, p.b)
            }
        },
        _ => (p.r, p.g, p.b),
    }
}

/// The fully projected form of one scene point.
pub open spec fn project_s(
    p: Point3D,
    glyph: char,
    time: int,
    y_off: int,
    sx: int,
    cx: int,
    sy: int,
    cy: int,
) -> ProjPoint {
    let pos = rot_s(p.x as int, p.y + y_off, p.z as int, sx, cx, sy, cy);
    let col = adjust_color_s(p, time);
    ProjPoint {
        px: pos.0 as i64,
        py: pos.1 as i64,
        pz: pos.2 as i64,
        r: col.0 as u8,
        g: col.1 as u8,
        b: col.2 as u8,
        ch: (match p.kind {
            PointKind::Greeting { ch } => ch,
            _ => glyph,
        }),
        bright: is_bright_s(p.kind),
        star: p.kind is Star,
        snow: false,
        greeting: p.kind is Greeting,
    }
}

/// Project the visible scene points, handing each non-greeting point a glyph
/// cycled from the input text by its position.
pub fn project_points(
    pts: &Vec<Point3D>,
    chars: &Vec<char>,
    time: i64,
    y_off: i64,
    sx: i64,
    cx: i64,
    sy: i64,
    cy: i64,
) -> (r: Vec<ProjPoint>)
    requires
        forall|i: int| 0 <= i < pts@.len() ==> wf_point(#[trigger] pts@[i]),
        chars@.len() > 0,
        0 <= time <= 1_000_000_000_000,
        -3200 <= y_off <= 0,
        -1000 <= sx <= 1000,
        -1000 <= cx <= 1000,
        -1000 <= sy <= 1000,
        -1000 <= cy <= 1000,
    ensures
        r@.len() == pts@.len(),
        forall|i: int|
            0 <= i < r@.len() ==> #[trigger] r@[i] == project_s(
                pts@[i],
                chars@[i % chars@.len() as int],
                time as int,
                y_off as int,
                sx as int,
                cx as int,
                sy as int,
                cy as int,
            ),
        forall|i: int| 0 <= i < r@.len() ==> wf_proj(#[trigger] r@[i]),
{
    let mut out: Vec<ProjPoint> = Vec::new();
    let n = pts.len();
    for idx in 0..n
        invariant
            n == pts@.len(),
            chars@.len() > 0,
            0 <= time <= 1_000_000_000_000,
            -3200 <= y_off <= 0,
            -1000 <= sx <= 1000,
            -1000 <= cx <= 1000,
            -1000 <= sy <= 1000,
            -1000 <= cy <= 1000,
            forall|i: int| 0 <= i < pts@.len() ==> wf_point(#[trigger] pts@[i]),
            out@.len() == idx,
            forall|i: int|
                0 <= i < out@.len() ==> #[trigger] out@[i] == project_s(
                    pts@[i],
                    chars@[i % chars@.len() as int],
                    time as int,
                    y_off as int,
                    sx as int,
                    cx as int,
                    sy as int,
                    cy as int,
                ),
            forall|i: int| 0 <= i < out@.len() ==> wf_proj(#[trigger] out@[i]),
    {
        let p = *point_at(pts, idx);
        let glyph = match p.kind {
            PointKind::Greeting { ch } => ch,
            _ => *char_at(chars, idx % chars.len()),
        };
        let pos = rotate(p.x, p.y + y_off, p.z, sx, cx, sy, cy);
        let col = adjust_color(&p, time);
        let bright = match p.kind {
            PointKind::Trunk => false,
            PointKind::Foliage { ornament, .. } => ornament,
            PointKind::Star { bright } => bright,
            PointKind::Greeting { .. } => true,
        };
        let star = match p.kind {
            PointKind::Star { .. } => true,
            _ => false,
        };
        let greeting = match p.kind {
            PointKind::Greeting { .. } => true,
            _ => false,
        };
        out.push(
            ProjPoint {
                px: pos.0,
                py: pos.1,
                pz: pos.2,
                r: col.0,
                g: col.1,
                b: col.2,
                ch: glyph,
                bright,
                star,
                snow: false,
                greeting,
            },
        );
    }
    out
}

/// The projected form of one snow flake: pale blue, alternating glyphs by
/// position, always emphasised.
pub open spec fn snow_proj_s(
    f: SnowFlake,
    i: int,
    y_off: int,
    sx: int,
    cx: int,
    sy: int,
    cy: int,
) -> ProjPoint {
    let pos = rot_s(f.x as int, f.y + y_off, f.z as int, sx, cx, sy, cy);
    ProjPoint {
        px: pos.0 as i64,
        py: pos.1 as i64,
        pz: pos.2 as i64,
        r: 180,
        g: 180,
        b: 255,
        ch: (if i % 2 == 0 {
            '*'
        } else {
            '.'
        }),
        bright: true,
        star: false,
        snow: true,
        greeting: false,
    }
}

/// Project the snow flakes.
pub fn project_snow(snow: &Vec<SnowFlake>, y_off: i64, sx: i64, cx: i64, sy: i64, cy: i64) -> (r:
    Vec<ProjPoint>)
    requires
        forall|i: int| 0 <= i < snow@.len() ==> wf_flake(#[trigger] snow@[i]),
        -3200 <= y_off <= 0,
        -1000 <= sx <= 1000,
        -1000 <= cx <= 1000,
        -1000 <= sy <= 1000,
        -1000 <= cy <= 1000,
    ensures
        r@.len() == snow@.len(),
        forall|i: int|
            0 <= i < r@.len() ==> #[trigger] r@[i] == snow_proj_s(
                snow@[i],
                i,
                y_off as int,
                sx as int,
                cx as int,
                sy as int,
                cy as int,
            ),
        forall|i: int| 0 <= i < r@.len() ==> wf_proj(#[trigger] r@[i]),
{
    let mut out: Vec<ProjPoint> = Vec::new();
    let n = snow.len();
    for idx in 0..n
        invariant
            n == snow@.len(),
            -3200 <= y_off <= 0,
            -1000 <= sx <= 1000,
            -1000 <= cx <= 1000,
            -1000 <= sy <= 1000,
            -1000 <= cy <= 1000,
            forall|i: int| 0 <= i < snow@.len() ==> wf_flake(#[trigger] snow@[i]),
            out@.len() == idx,
            forall|i: int|
                0 <= i < out@.len() ==> #[trigger] out@[i] == snow_proj_s(
                    snow@[i],
                    i,
                    y_off as int,
                    sx as int,
                    cx as int,
                    sy as int,
                    cy as int,
                ),
            forall|i: int| 0 <= i < out@.len() ==> wf_proj(#[trigger] out@[i]),
    {
        let f = *flake_ref(snow, idx);
        let pos = rotate(f.x, f.y + y_off, f.z, sx, cx, sy, cy);
        let ch = if idx % 2 == 0 {
            '*'
        } else {
            '.'
        };
        out.push(
            ProjPoint {
                px: pos.0,
                py: pos.1,
                pz: pos.2,
                r: 180,
                g: 180,
                b: 255,
                ch,
                bright: true,
                star: false,
                snow: true,
                greeting: false,
            },
        );
    }
    out
}

/// One point of a collection.
fn point_at(pts: &Vec<Point3D>, i: usize) -> (p: &Point3D)
    requires
        i < pts@.len(),
    ensures
        *p == pts@[i as int],
{
    &pts[i]
}

/// One character of a text.
fn char_at(t: &Vec<char>, i: usize) -> (c: &char)
    requires
        i < t@.len(),
    ensures
        *c == t@[i as int],
{
    &t[i]
}

/// One flake of a collection.
fn flake_ref(snow: &Vec<SnowFlake>, i: usize) -> (f: &SnowFlake)
    requires
        i < snow@.len(),
    ensures
        *f == snow@[i as int],
{
    &snow[i]
}

} // verus!
