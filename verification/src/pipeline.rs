//! The per-frame pipeline: rebuild the scene deterministically, gate it by
//! the growth and zoom progress, project everything (snow included once
//! growth has completed), sort back to front, and paint the grid, with the
//! sparkle overlay on top. Malformed progress values are clamped before use.

use vstd::prelude::*;
use crate::fx::{
    fx_mul, fx_mul_s, fx_sin, fx_sin_s, fx_cos, fx_cos_s, clip, clip_s, lemma_fx_mul_unit,
    lemma_fx_mul_nonneg,
};
use crate::rng::Rng;
use crate::scene::{generate_scene, visible_points, wf_point, scene_seq_s, vis_pred};
use crate::project::{project_points, project_snow, wf_proj, ProjPoint, project_s, snow_proj_s};
use crate::raster::{
    Grid, wf_grid, paint, sparkle, sort_by_depth, sorted_desc, paint_s, sparkle_s, blank_cell,
};
use crate::rng::{rng_iter, rng_iter2};
use crate::scene::{foliage_seq_s, star_density_s};
use crate::state::{AnimState, wf_state};

verus! {

/// The fixed seed the scene is rebuilt from every frame, so static geometry
/// is identical across frames.
pub const SCENE_SEED: u32 = 777;

/// The cells-per-unit scale of a frame: the base scale grows toward the
/// close-up scale with zoom progress.
pub open spec fn frame_scale_s(height: int, zoom: int) -> int {
    let base = height * 1000 / 14;
    let close = height * 10_000 / 26;
    let diff = if close - base < 0 {
        0
    } else {
        close - base
    };
    base + fx_mul_s(diff, zoom)
}

/// The points a frame draws, in generation order: the visible scene points
/// with their glyphs and adjusted colors, then — only once growth has
/// completed — the projected snow.
pub open spec fn frame_points_s(s: AnimState, time: int) -> Seq<ProjPoint> {
    let growth = clip_s(s.growth as int, 0, 1000);
    let zoom = clip_s(s.zoom as int, 0, 1000);
    let sx = fx_sin_s(s.angle_x as int);
    let cx = fx_cos_s(s.angle_x as int);
    let sy = fx_sin_s(s.angle_y as int);
    let cy = fx_cos_s(s.angle_y as int);
    let y_off = -fx_mul_s(3200, zoom);
    let vis = scene_seq_s(SCENE_SEED, s.is_zooming, zoom, time).filter(vis_pred(growth, zoom));
    let proj = Seq::new(
        vis.len(),
        |i: int| project_s(
            vis[i],
            s.input@[i % s.input@.len() as int],
            time,
            y_off,
            sx,
            cx,
            sy,
            cy,
        ),
    );
    if growth >= 1000 {
        proj + Seq::new(
            s.snow@.len(),
            |i: int| snow_proj_s(s.snow@[i], i, y_off, sx, cx, sy, cy),
        )
    } else {
        proj
    }
}

/// Render one frame of the animation onto a fresh grid of the given size:
/// some depth-sorted arrangement of exactly the frame's points, painted onto
/// a blank grid (below the sparkle zoom threshold, where the grid is exactly
/// that painting).
pub fn render_frame(s: &AnimState, time: i64, width: usize, height: usize) -> (g: Grid)
    requires
        wf_state(*s),
        s.input@.len() > 0,
        0 <= time <= 1_000_000_000_000,
        1 <= width <= 1000,
        1 <= height <= 1000,
    ensures
        wf_grid(g),
        g.width == width,
        g.height == height,
        clip_s(s.zoom as int, 0, 1000) <= 800 ==> exists|q: Seq<ProjPoint>|
            {
                &&& sorted_desc(q)
                &&& q.to_multiset() == frame_points_s(*s, time as int).to_multiset()
                &&& g.cells@ == paint_s(
                    Seq::new((width * height) as nat, |i: int| blank_cell()),
                    q,
                    frame_scale_s(height as int, clip_s(s.zoom as int, 0, 1000)),
                    clip_s(s.zoom as int, 0, 1000),
                    width as int,
                    height as int,
                )
            },
        clip_s(s.zoom as int, 0, 1000) > 800 ==> exists|q: Seq<ProjPoint>|
            {
                &&& sorted_desc(q)
                &&& q.to_multiset() == frame_points_s(*s, time as int).to_multiset()
                &&& g.cells@ == sparkle_s(
                    paint_s(
                        Seq::new((width * height) as nat, |i: int| blank_cell()),
                        q,
                        frame_scale_s(height as int, clip_s(s.zoom as int, 0, 1000)),
                        clip_s(s.zoom as int, 0, 1000),
                        width as int,
                        height as int,
                    ),
                    q,
                    0,
                    rng_iter2(
                        rng_iter(SCENE_SEED, foliage_seq_s(SCENE_SEED, 896).len()),
                        (15 * star_density_s(s.is_zooming)) as nat,
                    ),
                    frame_scale_s(height as int, clip_s(s.zoom as int, 0, 1000)),
                    width as int,
                    height as int,
                ).0
            },
{
    let growth = clip(s.growth, 0, 1000);
    let zoom = clip(s.zoom, 0, 1000);
    let mut rng = Rng::new(SCENE_SEED);
    let scene = generate_scene(s.is_zooming, zoom, time, &mut rng);
    let vis = visible_points(&scene, growth, zoom);
    proof {
        assert forall|k: int| 0 <= k < vis@.len() implies wf_point(#[trigger] vis@[k]) by {
            assert(scene@.contains(vis@[k]));
            let j = choose|j: int| 0 <= j < scene@.len() && scene@[j] == vis@[k];
            assert(wf_point(scene@[j]));
        }
    }
    let sxa = fx_sin(s.angle_x);
    let cxa = fx_cos(s.angle_x);
    let sya = fx_sin(s.angle_y);
    let cya = fx_cos(s.angle_y);
    proof {
        lemma_fx_mul_unit(3200, zoom as int, 3200);
        lemma_fx_mul_nonneg(3200, zoom as int);
    }
    let y_off = -fx_mul(3200, zoom);
    let mut proj = project_points(&vis, &s.input, time, y_off, sxa, cxa, sya, cya);
    if growth >= 1000 {
        let mut snowp = project_snow(&s.snow, y_off, sxa, cxa, sya, cya);
        let ghost before = proj@;
        proj.append(&mut snowp);
        proof {
            assert forall|k: int| 0 <= k < proj@.len() implies wf_proj(#[trigger] proj@[k]) by {
                if k < before.len() {
                    assert(proj@[k] == before[k]);
                }
            }
        }
    }
    let ghost unsorted = proj@;
    let sorted = sort_by_depth(proj);
    proof {
        broadcast use vstd::seq_lib::group_to_multiset_ensures;

        assert forall|k: int| 0 <= k < sorted@.len() implies wf_proj(#[trigger] sorted@[k]) by {
            assert(sorted@.to_multiset().contains(sorted@[k]));
        }
    }
    let b_scale = ((height * 1000) / 14) as i64;
    let hs = ((height * 10_000) / 26) as i64;
    let mut diff = hs - b_scale;
    if diff < 0 {
        diff = 0;
    }
    proof {
        lemma_fx_mul_unit(diff as int, zoom as int, diff as int);
        lemma_fx_mul_nonneg(diff as int, zoom as int);
    }
    let scale = b_scale + fx_mul(diff, zoom);
    let mut grid = Grid::new(width, height);
    proof {
        assert(grid.cells@ =~= Seq::new((width * height) as nat, |i: int| blank_cell()));
    }
    let ghost blank = grid.cells@;
    paint(&mut grid, &sorted, scale, zoom);
    sparkle(&mut grid, &sorted, scale, zoom, &mut rng);
    proof {
        assert(unsorted =~= frame_points_s(*s, time as int));
        assert(scale == frame_scale_s(height as int, zoom as int));
        if zoom <= 800 {
            assert(sorted_desc(sorted@) && sorted@.to_multiset() == frame_points_s(
                *s,
                time as int,
            ).to_multiset() && grid.cells@ == paint_s(
                Seq::new((width * height) as nat, |i: int| blank_cell()),
                sorted@,
                frame_scale_s(height as int, clip_s(s.zoom as int, 0, 1000)),
                clip_s(s.zoom as int, 0, 1000),
                width as int,
                height as int,
            ));
        } else {
            assert(sorted_desc(sorted@) && sorted@.to_multiset() == frame_points_s(
                *s,
                time as int,
            ).to_multiset() && grid.cells@ == sparkle_s(
                paint_s(
                    Seq::new((width * height) as nat, |i: int| blank_cell()),
                    sorted@,
                    frame_scale_s(height as int, clip_s(s.zoom as int, 0, 1000)),
                    clip_s(s.zoom as int, 0, 1000),
                    width as int,
                    height as int,
                ),
                sorted@,
                0,
                rng_iter2(
                    rng_iter(SCENE_SEED, foliage_seq_s(SCENE_SEED, 896).len()),
                    (15 * star_density_s(s.is_zooming)) as nat,
                ),
                frame_scale_s(height as int, clip_s(s.zoom as int, 0, 1000)),
                width as int,
                height as int,
            ).0);
        }
    }
    grid
}

} // verus!
