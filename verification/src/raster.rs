//! Depth sort and rasterizer: orders the projected points back to front and
//! paints them onto a character grid, so that nearer points overwrite farther
//! ones that land on the same cell (painter's algorithm). Cells outside the
//! grid are clipped, never wrapped or clamped. Intensity falls off with
//! depth, and the tree body fades once the camera zooms into the star.

use vstd::prelude::*;
use vstd::seq_lib::lemma_multiset_commutative;
use crate::fx::{fx_mul, fx_mul_s, tdiv64, tdiv, clip_s, lemma_fx_mul_range};
use crate::project::{ProjPoint, wf_proj};

verus! {

/// Farthest first: depths never increase along the sequence.
pub open spec fn sorted_desc(s: Seq<ProjPoint>) -> bool {
    forall|i: int, j: int| 0 <= i < j < s.len() ==> s[i].pz >= s[j].pz
}

/// One point of a collection.
fn point_at(pts: &Vec<ProjPoint>, i: usize) -> (p: &ProjPoint)
    requires
        i < pts@.len(),
    ensures
        *p == pts@[i as int],
{
    &pts[i]
}

/// Merge two depth-sorted runs, largest depth first.
fn merge(a: Vec<ProjPoint>, b: Vec<ProjPoint>) -> (r: Vec<ProjPoint>)
    requires
        sorted_desc(a@),
        sorted_desc(b@),
    ensures
        sorted_desc(r@),
        r@.to_multiset() == a@.to_multiset().add(b@.to_multiset()),
        r@.len() == a@.len() + b@.len(),
{
    let mut out: Vec<ProjPoint> = Vec::new();
    let mut i: usize = 0;
    let mut j: usize = 0;
    proof {
        broadcast use vstd::seq_lib::group_to_multiset_ensures;
        broadcast use vstd::multiset::group_multiset_axioms;

        assert(out@.to_multiset() =~= a@.subrange(0, 0).to_multiset().add(
            b@.subrange(0, 0).to_multiset(),
        ));
    }
    while i < a.len() || j < b.len()
        invariant
            i <= a@.len(),
            j <= b@.len(),
            sorted_desc(a@),
            sorted_desc(b@),
            sorted_desc(out@),
            out@.len() == i + j,
            out@.to_multiset() == a@.subrange(0, i as int).to_multiset().add(
                b@.subrange(0, j as int).to_multiset(),
            ),
            forall|k: int|
                0 <= k < out@.len() && i < a@.len() ==> (#[trigger] out@[k]).pz >= a@[i as int].pz,
            forall|k: int|
                0 <= k < out@.len() && j < b@.len() ==> (#[trigger] out@[k]).pz >= b@[j as int].pz,
        decreases a@.len() + b@.len() - i - j,
    {
        let take_a = if i < a.len() {
            if j < b.len() {
                point_at(&a, i).pz >= point_at(&b, j).pz
            } else {
                true
            }
        } else {
            false
        };
        let ghost prev = out@;
        if take_a {
            let x = *point_at(&a, i);
            out.push(x);
            proof {
                broadcast use vstd::seq_lib::group_to_multiset_ensures;

                assert(a@.subrange(0, i + 1).drop_last() =~= a@.subrange(0, i as int));
                assert(a@.subrange(0, i + 1) =~= a@.subrange(0, i as int).push(x));
                assert(out@.to_multiset() =~= a@.subrange(0, i + 1).to_multiset().add(
                    b@.subrange(0, j as int).to_multiset(),
                ));
            }
            i = i + 1;
        } else {
            let x = *point_at(&b, j);
            out.push(x);
            proof {
                broadcast use vstd::seq_lib::group_to_multiset_ensures;

                assert(b@.subrange(0, j + 1).drop_last() =~= b@.subrange(0, j as int));
                assert(b@.subrange(0, j + 1) =~= b@.subrange(0, j as int).push(x));
                assert(out@.to_multiset() =~= a@.subrange(0, i as int).to_multiset().add(
                    b@.subrange(0, j + 1).to_multiset(),
                ));
            }
            j = j + 1;
        }
    }
    proof {
        assert(a@.subrange(0, a@.len() as int) =~= a@);
        assert(b@.subrange(0, b@.len() as int) =~= b@);
    }
    out
}

/// Sort the projected points by descending depth, so the farthest is drawn
/// first. The result is a permutation of the input.
pub fn sort_by_depth(v: Vec<ProjPoint>) -> (r: Vec<ProjPoint>)
    ensures
        sorted_desc(r@),
        r@.to_multiset() == v@.to_multiset(),
        r@.len() == v@.len(),
    decreases v@.len(),
{
    if v.len() <= 1 {
        return v;
    }
    let mid = v.len() / 2;
    let mut left: Vec<ProjPoint> = Vec::new();
    let mut right: Vec<ProjPoint> = Vec::new();
    for idx in 0..mid
        invariant
            mid < v@.len(),
            left@.len() == idx,
            forall|k: int| 0 <= k < left@.len() ==> #[trigger] left@[k] == v@[k],
    {
        left.push(*point_at(&v, idx));
    }
    let n = v.len();
    for idx in mid..n
        invariant
            mid < n,
            n == v@.len(),
            mid <= idx <= n,
            right@.len() == idx - mid,
            forall|k: int| 0 <= k < right@.len() ==> #[trigger] right@[k] == v@[mid + k],
    {
        right.push(*point_at(&v, idx));
    }
    proof {
        assert(left@ =~= v@.subrange(0, mid as int));
        assert(right@ =~= v@.subrange(mid as int, v@.len() as int));
        assert(v@ =~= left@ + right@);
        lemma_multiset_commutative(left@, right@);
    }
    let ls = sort_by_depth(left);
    let rs = sort_by_depth(right);
    merge(ls, rs)
}

/// One cell of the drawable grid.
#[derive(Clone, Copy, PartialEq, Eq, Structural, Debug)]
pub struct Cell {
    pub ch: char,
    pub r: u8,
    pub g: u8,
    pub b: u8,
    pub bright: bool,
}

/// The character grid the frame is painted onto.
pub struct Grid {
    pub cells: Vec<Cell>,
    pub width: usize,
    pub height: usize,
}

/// A grid of a sane terminal size whose cell store matches its bounds.
pub open spec fn wf_grid(g: Grid) -> bool {
    &&& g.cells@.len() == g.width * g.height
    &&& 1 <= g.width <= 1000
    &&& 1 <= g.height <= 1000
}

/// The blank cell a frame starts from.
pub open spec fn blank_cell() -> Cell {
    Cell { ch: ' ', r: 0, g: 0, b: 0, bright: false }
}

impl Grid {
    /// A blank grid of the given size.
    pub fn new(width: usize, height: usize) -> (g: Grid)
        requires
            1 <= width <= 1000,
            1 <= height <= 1000,
        ensures
            wf_grid(g),
            g.width == width,
            g.height == height,
            forall|i: int| 0 <= i < g.cells@.len() ==> #[trigger] g.cells@[i] == blank_cell(),
    {
        let mut cells: Vec<Cell> = Vec::new();
        proof {
            assert(width * height <= 1_000_000) by (nonlinear_arith)
                requires
                    1 <= width as int <= 1000,
                    1 <= height as int <= 1000,
            ;
        }
        let total = width * height;
        for i in 0..total
            invariant
                cells@.len() == i,
                forall|k: int| 0 <= k < cells@.len() ==> #[trigger] cells@[k] == blank_cell(),
        {
            cells.push(Cell { ch: ' ', r: 0, g: 0, b: 0, bright: false });
        }
        Grid { cells, width, height }
    }
}

/// Horizontal screen position in milli-cells: the grid centre plus the
/// projected X scaled, widened 4.8-fold for the tall aspect of character
/// cells.
pub open spec fn col_m_s(px: int, scale: int, w: int) -> int {
    w * 500 + fx_mul_s(fx_mul_s(px, scale), 4800)
}

/// Vertical screen position in milli-cells: the grid centre minus the
/// projected Y scaled (positive model Y moves up the screen).
pub open spec fn row_m_s(py: int, scale: int, h: int) -> int {
    h * 500 - fx_mul_s(py, scale)
}

/// Whether the point lands inside the drawable area.
pub open spec fn on_grid_s(q: ProjPoint, scale: int, w: int, h: int) -> bool {
    &&& 0 <= col_m_s(q.px as int, scale, w) < w * 1000
    &&& 0 <= row_m_s(q.py as int, scale, h) < h * 1000
}

/// The cell index a point lands on.
pub open spec fn cell_index_s(q: ProjPoint, scale: int, w: int, h: int) -> int {
    (row_m_s(q.py as int, scale, h) / 1000) * w + col_m_s(q.px as int, scale, w) / 1000
}

/// Whether the zoom fade applies to a point: past 0.4 zoom, everything but
/// the star, the snow and the greeting fades out.
pub open spec fn fades_s(q: ProjPoint, zoom: int) -> bool {
    zoom > 400 && !q.star && !q.snow && !q.greeting
}

/// The depth intensity: 0.5 + (depth + 6) / 12, clamped to [0.2, 1.4], then
/// scaled down by the zoom fade where that applies.
pub open spec fn inten_s(pz: int, zoom: int, fades: bool) -> int {
    let base = clip_s(500 + tdiv(pz + 6000, 12), 200, 1400);
    if fades {
        fx_mul_s(base, 1000 - fx_mul_s(zoom - 400, 1500))
    } else {
        base
    }
}

/// A channel scaled by the intensity, floored at a tenth, truncated, and
/// saturated into the valid channel range.
pub open spec fn chan_s(c: int, inten: int) -> int {
    let m = if inten < 100 {
        100int
    } else {
        inten
    };
    clip_s(tdiv(c * m, 1000), 0, 255)
}

/// Channel outputs always lie in the valid range, whatever the intensity.
pub proof fn lemma_channel_range(c: int, inten: int)
    ensures
        0 <= chan_s(c, inten) <= 255,
{
}

/// The painted form of a point.
pub open spec fn paint_cell_s(q: ProjPoint, zoom: int) -> Cell {
    let inten = inten_s(q.pz as int, zoom, fades_s(q, zoom));
    Cell {
        ch: q.ch,
        r: chan_s(q.r as int, inten) as u8,
        g: chan_s(q.g as int, inten) as u8,
        b: chan_s(q.b as int, inten) as u8,
        bright: q.bright,
    }
}

/// The grid contents after painting the points in order: each in-bounds
/// point writes its cell, later points overwriting earlier ones.
pub open spec fn paint_s(cells: Seq<Cell>, pts: Seq<ProjPoint>, scale: int, zoom: int, w: int, h: int) -> Seq<
    Cell,
>
    decreases pts.len(),
{
    if pts.len() == 0 {
        cells
    } else {
        let rest = paint_s(cells, pts.drop_last(), scale, zoom, w, h);
        let q = pts.last();
        if on_grid_s(q, scale, w, h) {
            rest.update(cell_index_s(q, scale, w, h), paint_cell_s(q, zoom))
        } else {
            rest
        }
    }
}

/// The depth intensity of a point.
pub fn intensity(pz: i64, zoom: i64, fades: bool) -> (r: i64)
    requires
        -800_000 <= pz <= 800_000,
        0 <= zoom <= 1000,
        fades ==> zoom > 400,
    ensures
        r == inten_s(pz as int, zoom as int, fades),
        0 <= r <= 1400,
{
    let base = {
        let d = 500 + tdiv64(pz + 6000, 12);
        if d < 200 {
            200
        } else if d > 1400 {
            1400
        } else {
            d
        }
    };
    if fades {
        let cut = fx_mul(zoom - 400, 1500);
        proof {
            lemma_fx_mul_range((zoom - 400) as int, 1500, 600, 1500);
            crate::fx::lemma_fx_mul_nonneg((zoom - 400) as int, 1500);
            lemma_fx_mul_range(base as int, (1000 - cut) as int, 1400, 1000);
            crate::fx::lemma_fx_mul_nonneg(base as int, (1000 - cut) as int);
        }
        fx_mul(base, 1000 - cut)
    } else {
        base
    }
}

/// A channel scaled by the intensity.
pub fn final_channel(c: u8, inten: i64) -> (r: u8)
    requires
        -10_000 <= inten <= 10_000,
    ensures
        r == chan_s(c as int, inten as int),
{
    let m = if inten < 100 {
        100
    } else {
        inten
    };
    proof {
        assert(0 <= c as int * m <= 2_550_000) by (nonlinear_arith)
            requires
                0 <= c as int <= 255,
                100 <= m as int <= 10_000,
        ;
    }
    let v = tdiv64(c as i64 * m, 1000);
    if v > 255 {
        255
    } else {
        v as u8
    }
}

/// Paint the points onto the grid in their given order; out-of-bounds points
/// are discarded.
pub fn paint(grid: &mut Grid, pts: &Vec<ProjPoint>, scale: i64, zoom: i64)
    requires
        wf_grid(*old(grid)),
        forall|i: int| 0 <= i < pts@.len() ==> wf_proj(#[trigger] pts@[i]),
        0 <= zoom <= 1000,
        0 <= scale <= 400_000,
    ensures
        wf_grid(*final(grid)),
        final(grid).width == old(grid).width,
        final(grid).height == old(grid).height,
        final(grid).cells@ == paint_s(
            old(grid).cells@,
            pts@,
            scale as int,
            zoom as int,
            old(grid).width as int,
            old(grid).height as int,
        ),
{
    let w = grid.width;
    let h = grid.height;
    let n = pts.len();
    for i in 0..n
        invariant
            n == pts@.len(),
            w == old(grid).width,
            h == old(grid).height,
            grid.width == w,
            grid.height == h,
            wf_grid(*grid),
            0 <= zoom <= 1000,
            0 <= scale <= 400_000,
            forall|k: int| 0 <= k < pts@.len() ==> wf_proj(#[trigger] pts@[k]),
            grid.cells@ == paint_s(
                old(grid).cells@,
                pts@.subrange(0, i as int),
                scale as int,
                zoom as int,
                w as int,
                h as int,
            ),
    {
        let q = *point_at(pts, i);
        proof {
            lemma_fx_mul_range(q.px as int, scale as int, 800_000, 400_000);
            lemma_fx_mul_range(q.py as int, scale as int, 800_000, 400_000);
            lemma_fx_mul_range(
                fx_mul_s(q.px as int, scale as int),
                4800,
                320_000_000_000,
                4800,
            );
        }
        let sxm = fx_mul(q.px, scale);
        let sym = fx_mul(q.py, scale);
        let col_m = (w as i64) * 500 + fx_mul(sxm, 4800);
        let row_m = (h as i64) * 500 - sym;
        let ghost prefix = pts@.subrange(0, i as int);
        proof {
            assert(pts@.subrange(0, i + 1).drop_last() =~= prefix);
            assert(pts@.subrange(0, i + 1).last() == pts@[i as int]);
        }
        if 0 <= col_m && col_m < (w as i64) * 1000 && 0 <= row_m && row_m < (h as i64) * 1000 {
            let col = (col_m as u64 / 1000) as usize;
            let row = (row_m as u64 / 1000) as usize;
            proof {
                reveal(crate::fx::tdiv);
                assert(col as int == col_m_s(q.px as int, scale as int, w as int) / 1000);
                assert(row as int == row_m_s(q.py as int, scale as int, h as int) / 1000);
                assert(col < w && row < h) by {
                    vstd::arithmetic::div_mod::lemma_div_is_ordered(
                        col_m as int,
                        w as int * 1000 - 1,
                        1000,
                    );
                    vstd::arithmetic::div_mod::lemma_div_is_ordered(
                        row_m as int,
                        h as int * 1000 - 1,
                        1000,
                    );
                    assert((w as int * 1000 - 1) / 1000 == w - 1) by (nonlinear_arith)
                        requires
                            1 <= w as int <= 1000,
                    ;
                    assert((h as int * 1000 - 1) / 1000 == h - 1) by (nonlinear_arith)
                        requires
                            1 <= h as int <= 1000,
                    ;
                }
                let wi = w as int;
                let hi = h as int;
                let ri = row as int;
                let ci = col as int;
                assert(ri * wi + ci < wi * hi && wi * hi <= 1_000_000) by (nonlinear_arith)
                    requires
                        0 <= ri <= hi - 1,
                        0 <= ci <= wi - 1,
                        1 <= wi <= 1000,
                        1 <= hi <= 1000,
                ;
            }
            let idx = row * w + col;
            proof {
                assert(idx as int == cell_index_s(q, scale as int, w as int, h as int));
            }
            let fades = zoom > 400 && !q.star && !q.snow && !q.greeting;
            let inten = intensity(q.pz, zoom, fades);
            let cell = Cell {
                ch: q.ch,
                r: final_channel(q.r, inten),
                g: final_channel(q.g, inten),
                b: final_channel(q.b, inten),
                bright: q.bright,
            };
            grid.cells[idx] = cell;
        }
    }
    proof {
        assert(pts@.subrange(0, pts@.len() as int) =~= pts@);
    }
}

/// One point's sparkle chance: whether the draws fire and where the speckle
/// lands, as a pure function of the random state. Returns the cells and the
/// state after this point.
pub open spec fn sparkle_step_s(
    cells: Seq<Cell>,
    q: ProjPoint,
    st: u32,
    scale: int,
    w: int,
    h: int,
) -> (Seq<Cell>, u32) {
    if on_grid_s(q, scale, w, h) && q.star && !q.greeting {
        let d = crate::rng::rng_unit_of(st);
        let st1 = crate::rng::rng_step(st);
        if d > 980 {
            let col = col_m_s(q.px as int, scale, w) / 1000;
            let row = row_m_s(q.py as int, scale, h) / 1000;
            let d2 = crate::rng::rng_unit_of(st1);
            let st2 = crate::rng::rng_step(st1);
            let d3 = crate::rng::rng_unit_of(st2);
            let st3 = crate::rng::rng_step(st2);
            let fxc_raw = col + tdiv(8 * d2 - 4000, 1000);
            let fyc_raw = row + tdiv(4 * d3 - 2000, 1000);
            let fxc = if fxc_raw < 0 {
                0
            } else {
                fxc_raw
            };
            let fyc = if fyc_raw < 0 {
                0
            } else {
                fyc_raw
            };
            if fxc < w && fyc < h {
                let d4 = crate::rng::rng_unit_of(st3);
                let st4 = crate::rng::rng_step(st3);
                let glyph = if (d4 / 1000) % 4 == 0 {
                    '\u{2884}'
                } else {
                    '\u{28e6}'
                };
                let idx = fyc * w + fxc;
                (
                    cells.update(
                        idx,
                        Cell { ch: glyph, r: 255, g: 255, b: 200, bright: cells[idx].bright },
                    ),
                    st4,
                )
            } else {
                (cells, st3)
            }
        } else {
            (cells, st1)
        }
    } else {
        (cells, st)
    }
}

/// The sparkle pass over the points from position `i` on.
pub open spec fn sparkle_s(
    cells: Seq<Cell>,
    pts: Seq<ProjPoint>,
    i: int,
    st: u32,
    scale: int,
    w: int,
    h: int,
) -> (Seq<Cell>, u32)
    decreases pts.len() - i,
{
    if i < 0 || i >= pts.len() {
        (cells, st)
    } else {
        let step = sparkle_step_s(cells, pts[i], st, scale, w, h);
        sparkle_s(step.0, pts, i + 1, step.1, scale, w, h)
    }
}

/// Secondary sparkle effect: once zoom progress exceeds 0.8, each drawn star
/// point has a small chance to scatter one extra pale glyph at a random
/// nearby cell, clipped to the drawable area. An overlay on the depth pass,
/// pinned as a pure function of the random state; below that zoom the grid
/// and the random source are untouched.
pub fn sparkle(grid: &mut Grid, pts: &Vec<ProjPoint>, scale: i64, zoom: i64, rng: &mut crate::rng::Rng)
    requires
        wf_grid(*old(grid)),
        forall|i: int| 0 <= i < pts@.len() ==> wf_proj(#[trigger] pts@[i]),
        0 <= zoom <= 1000,
        0 <= scale <= 400_000,
    ensures
        wf_grid(*final(grid)),
        final(grid).width == old(grid).width,
        final(grid).height == old(grid).height,
        zoom <= 800 ==> final(grid).cells@ == old(grid).cells@ && final(rng).state == old(
            rng,
        ).state,
        zoom > 800 ==> (final(grid).cells@, final(rng).state) == sparkle_s(
            old(grid).cells@,
            pts@,
            0,
            old(rng).state,
            scale as int,
            old(grid).width as int,
            old(grid).height as int,
        ),
{
    if zoom <= 800 {
        return ;
    }
    let w = grid.width;
    let h = grid.height;
    let n = pts.len();
    for i in 0..n
        invariant
            n == pts@.len(),
            w == old(grid).width,
            h == old(grid).height,
            grid.width == w,
            grid.height == h,
            wf_grid(*grid),
            0 <= scale <= 400_000,
            forall|k: int| 0 <= k < pts@.len() ==> wf_proj(#[trigger] pts@[k]),
            sparkle_s(
                old(grid).cells@,
                pts@,
                0,
                old(rng).state,
                scale as int,
                w as int,
                h as int,
            ) == sparkle_s(grid.cells@, pts@, i as int, rng.state, scale as int, w as int, h as int),
    {
        let ghost prev_cells = grid.cells@;
        let ghost prev_st = rng.state;
        let q = *point_at(pts, i);
        proof {
            lemma_fx_mul_range(q.px as int, scale as int, 800_000, 400_000);
            lemma_fx_mul_range(q.py as int, scale as int, 800_000, 400_000);
            lemma_fx_mul_range(fx_mul_s(q.px as int, scale as int), 4800, 320_000_000_000, 4800);
        }
        let sxm = fx_mul(q.px, scale);
        let sym = fx_mul(q.py, scale);
        let col_m = (w as i64) * 500 + fx_mul(sxm, 4800);
        let row_m = (h as i64) * 500 - sym;
        if 0 <= col_m && col_m < (w as i64) * 1000 && 0 <= row_m && row_m < (h as i64) * 1000 {
            if q.star && !q.greeting {
                let d = rng.next_unit();
                if d > 980 {
                    let col = ((col_m as u64 / 1000)) as i64;
                    let row = ((row_m as u64 / 1000)) as i64;
                    let d2 = rng.next_unit();
                    let dx = tdiv64(8 * d2 - 4000, 1000);
                    let d3 = rng.next_unit();
                    let dy = tdiv64(4 * d3 - 2000, 1000);
                    let fx_c = if col + dx < 0 {
                        0
                    } else {
                        col + dx
                    };
                    let fy_c = if row + dy < 0 {
                        0
                    } else {
                        row + dy
                    };
                    if fx_c < w as i64 && fy_c < h as i64 {
                        let g = rng.next_unit();
                        let glyph = if (g / 1000) % 4 == 0 {
                            '\u{2884}'
                        } else {
                            '\u{28e6}'
                        };
                        proof {
                            let wi = w as int;
                            let hi = h as int;
                            let ri = fy_c as int;
                            let ci = fx_c as int;
                            assert(ri * wi + ci < wi * hi && wi * hi <= 1_000_000) by (nonlinear_arith)
                                requires
                                    0 <= ri <= hi - 1,
                                    0 <= ci <= wi - 1,
                                    1 <= wi <= 1000,
                                    1 <= hi <= 1000,
                            ;
                        }
                        let idx = (fy_c as usize) * w + (fx_c as usize);
                        let old_cell = grid.cells[idx];
                        grid.cells[idx] = Cell {
                            ch: glyph,
                            r: 255,
                            g: 255,
                            b: 200,
                            bright: old_cell.bright,
                        };
                    }
                }
            }
        }
        proof {
            assert(sparkle_step_s(prev_cells, pts@[i as int], prev_st, scale as int, w as int, h as int)
                == (grid.cells@, rng.state));
            assert(sparkle_s(prev_cells, pts@, i as int, prev_st, scale as int, w as int, h as int)
                == sparkle_s(grid.cells@, pts@, i as int + 1, rng.state, scale as int, w as int, h as int));
        }
    }
    proof {
        assert(sparkle_s(grid.cells@, pts@, n as int, rng.state, scale as int, w as int, h as int)
            == (grid.cells@, rng.state));
    }
}

/// Occlusion correctness: when exactly two points land on one cell and one
/// is strictly nearer (smaller depth), the painted grid holds the nearer
/// point's cell, whatever their order of generation was before the sort.
pub proof fn lemma_occlusion(
    cells: Seq<Cell>,
    pts: Seq<ProjPoint>,
    scale: int,
    zoom: int,
    w: int,
    h: int,
    i: int,
    j: int,
)
    requires
        sorted_desc(pts),
        0 <= i < pts.len(),
        0 <= j < pts.len(),
        i != j,
        on_grid_s(pts[i], scale, w, h),
        on_grid_s(pts[j], scale, w, h),
        cell_index_s(pts[i], scale, w, h) == cell_index_s(pts[j], scale, w, h),
        pts[i].pz > pts[j].pz,
        forall|k: int|
            0 <= k < pts.len() && k != i && k != j ==> !(on_grid_s(#[trigger] pts[k], scale, w, h)
                && cell_index_s(pts[k], scale, w, h) == cell_index_s(pts[j], scale, w, h)),
        cells.len() == w * h,
        1 <= w <= 1000,
        1 <= h <= 1000,
    ensures
        paint_s(cells, pts, scale, zoom, w, h)[cell_index_s(pts[j], scale, w, h)] == paint_cell_s(
            pts[j],
            zoom,
        ),
    decreases pts.len(),
{
    reveal_with_fuel(paint_s, 2);
    let target = cell_index_s(pts[j], scale, w, h);
    let n = pts.len() - 1;
    lemma_cell_index_bounds(pts[j], scale, w, h);
    if j == n {
        lemma_paint_len(cells, pts.drop_last(), scale, zoom, w, h);
    } else {
        if on_grid_s(pts[n], scale, w, h) {
            lemma_cell_index_bounds(pts[n], scale, w, h);
        }
        assert(i < j) by {
            if j < i {
                assert(pts[j].pz >= pts[i].pz);
            }
        }
        let sub = pts.drop_last();
        assert(sorted_desc(sub));
        assert(forall|k: int|
            0 <= k < sub.len() && k != i && k != j ==> !(on_grid_s(#[trigger] sub[k], scale, w, h)
                && cell_index_s(sub[k], scale, w, h) == cell_index_s(sub[j], scale, w, h)));
        lemma_occlusion(cells, sub, scale, zoom, w, h, i, j);
        lemma_paint_len(cells, sub, scale, zoom, w, h);
        if on_grid_s(pts[n], scale, w, h) {
            assert(cell_index_s(pts[n], scale, w, h) != target);
        }
    }
}

/// Painting keeps the number of cells.
pub proof fn lemma_paint_len(
    cells: Seq<Cell>,
    pts: Seq<ProjPoint>,
    scale: int,
    zoom: int,
    w: int,
    h: int,
)
    requires
        cells.len() == w * h,
        1 <= w <= 1000,
        1 <= h <= 1000,
    ensures
        paint_s(cells, pts, scale, zoom, w, h).len() == cells.len(),
    decreases pts.len(),
{
    reveal_with_fuel(paint_s, 2);
    if pts.len() > 0 {
        lemma_paint_len(cells, pts.drop_last(), scale, zoom, w, h);
        if on_grid_s(pts.last(), scale, w, h) {
            lemma_cell_index_bounds(pts.last(), scale, w, h);
        }
    }
}

/// An in-bounds point's cell index lies inside the cell store.
pub proof fn lemma_cell_index_bounds(q: ProjPoint, scale: int, w: int, h: int)
    requires
        on_grid_s(q, scale, w, h),
        1 <= w <= 1000,
        1 <= h <= 1000,
    ensures
        0 <= cell_index_s(q, scale, w, h) < w * h,
{
    let cm = col_m_s(q.px as int, scale, w);
    let rm = row_m_s(q.py as int, scale, h);
    vstd::arithmetic::div_mod::lemma_div_is_ordered(0, cm, 1000);
    vstd::arithmetic::div_mod::lemma_div_is_ordered(0, rm, 1000);
    vstd::arithmetic::div_mod::lemma_div_is_ordered(cm, w * 1000 - 1, 1000);
    vstd::arithmetic::div_mod::lemma_div_is_ordered(rm, h * 1000 - 1, 1000);
    assert((w * 1000 - 1) / 1000 == w - 1) by (nonlinear_arith)
        requires
            1 <= w <= 1000,
    ;
    assert((h * 1000 - 1) / 1000 == h - 1) by (nonlinear_arith)
        requires
            1 <= h <= 1000,
    ;
    assert((rm / 1000) * w + cm / 1000 < w * h) by (nonlinear_arith)
        requires
            0 <= rm / 1000 <= h - 1,
            0 <= cm / 1000 <= w - 1,
            1 <= w,
            1 <= h,
    ;
}

} // verus!
