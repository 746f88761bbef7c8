//! Snow layer: a persistent set of falling particles, advanced incrementally
//! frame to frame. A flake falls by its speed, drifts sideways on a sinusoid
//! of elapsed time and its own phase, and wraps from below the floor back to
//! the ceiling, looping forever. The update runs only once the growth
//! animation has completed.

use vstd::prelude::*;
use crate::fx::{fx_mul, fx_mul_s, fx_sin, fx_sin_s, clip_s, lemma_fx_mul_range};

verus! {

/// Height below which a flake wraps.
pub const SNOW_FLOOR: i64 = -10_000;
/// Height a wrapped flake returns to.
pub const SNOW_CEILING: i64 = 10_000;
/// A falling particle; position in model-space milli-units, drift phase in
/// milli-radians, fall speed in milli-units per step.
#[derive(Clone, Copy, PartialEq, Eq, Structural, Debug)]
pub struct SnowFlake {
    pub x: i64,
    pub y: i64,
    pub z: i64,
    pub drift: i64,
    pub speed: i64,
}

/// A flake inside the world box, with a sane speed and phase.
pub open spec fn wf_flake(f: SnowFlake) -> bool {
    &&& -200_000 <= f.x <= 200_000
    &&& -11_000 <= f.y <= 100_000
    &&& -200_000 <= f.z <= 200_000
    &&& 0 <= f.speed <= 1000
    &&& -1_000_000_000 <= f.drift <= 1_000_000_000
}

/// The height after one step: fall by the speed, wrapping to the ceiling
/// once strictly below the floor.
pub open spec fn step_y(y: int, speed: int) -> int {
    if y - speed < SNOW_FLOOR {
        SNOW_CEILING as int
    } else {
        y - speed
    }
}

/// The horizontal position after one step: the sinusoidal drift, kept inside
/// the world box. The clamp at 200 model units is a departure from letting
/// the drift accumulate without bound: it only binds after hundreds of
/// thousands of steps in one direction, far outside any drawable area.
pub open spec fn step_x(x: int, drift: int, time: int) -> int {
    clip_s(x + fx_mul_s(fx_sin_s(drift + time), 20), -200_000, 200_000)
}

/// Advance one flake by one step; reports whether the height wrapped.
pub fn snow_step(f: &mut SnowFlake, time: i64) -> (wrapped: bool)
    requires
        wf_flake(*old(f)),
        0 <= time <= 1_000_000_000_000,
    ensures
        wf_flake(*final(f)),
        final(f).y == step_y(old(f).y as int, old(f).speed as int),
        final(f).x == step_x(old(f).x as int, old(f).drift as int, time as int),
        final(f).z == old(f).z,
        final(f).drift == old(f).drift,
        final(f).speed == old(f).speed,
        wrapped == (old(f).y - old(f).speed < SNOW_FLOOR),
        final(f).y >= SNOW_FLOOR,
        wrapped ==> final(f).y == SNOW_CEILING,
{
    let ny = f.y - f.speed;
    let sd = fx_sin(f.drift + time);
    proof {
        lemma_fx_mul_range(sd as int, 20, 1000, 20);
    }
    let dx = fx_mul(sd, 20);
    let moved = f.x + dx;
    let nx = if moved < -200_000 {
        -200_000
    } else if moved > 200_000 {
        200_000
    } else {
        moved
    };
    let wrapped = ny < SNOW_FLOOR;
    f.x = nx;
    f.y = if wrapped {
        SNOW_CEILING
    } else {
        ny
    };
    wrapped
}

/// The height loops: a step never leaves the height below the floor, and a
/// fall past the floor comes back exactly to the ceiling.
pub proof fn lemma_snow_wraps(y: int, speed: int)
    requires
        0 <= speed,
        SNOW_FLOOR <= y,
    ensures
        step_y(y, speed) >= SNOW_FLOOR,
        y - speed < SNOW_FLOOR ==> step_y(y, speed) == SNOW_CEILING,
        y - speed >= SNOW_FLOOR ==> step_y(y, speed) == y - speed,
{
}

/// Advance the whole snow collection once growth has completed; before that
/// the collection is untouched, gated like a point with birth threshold 1.
/// Returns how many flakes wrapped this step (none while still growing).
pub fn update_snow(snow: &mut Vec<SnowFlake>, growth: i64, time: i64) -> (wraps: usize)
    requires
        forall|i: int| 0 <= i < old(snow)@.len() ==> wf_flake(#[trigger] old(snow)@[i]),
        0 <= time <= 1_000_000_000_000,
    ensures
        final(snow)@.len() == old(snow)@.len(),
        forall|i: int| 0 <= i < final(snow)@.len() ==> wf_flake(#[trigger] final(snow)@[i]),
        growth < 1000 ==> final(snow)@ == old(snow)@ && wraps == 0,
        growth >= 1000 ==> forall|i: int|
            0 <= i < final(snow)@.len() ==> {
                &&& (#[trigger] final(snow)@[i]).y == step_y(
                    old(snow)@[i].y as int,
                    old(snow)@[i].speed as int,
                )
                &&& final(snow)@[i].x == step_x(
                    old(snow)@[i].x as int,
                    old(snow)@[i].drift as int,
                    time as int,
                )
                &&& final(snow)@[i].z == old(snow)@[i].z
                &&& final(snow)@[i].drift == old(snow)@[i].drift
                &&& final(snow)@[i].speed == old(snow)@[i].speed
            },
        growth >= 1000 ==> ((wraps == 0) <==> forall|i: int|
            0 <= i < old(snow)@.len() ==> (#[trigger] old(snow)@[i]).y - old(snow)@[i].speed
                >= SNOW_FLOOR),
{
    if growth < 1000 {
        return 0;
    }
    let mut out: Vec<SnowFlake> = Vec::new();
    let mut wraps: usize = 0;
    let n = snow.len();
    for idx in 0..n
        invariant
            n == old(snow)@.len(),
            snow@ == old(snow)@,
            0 <= time <= 1_000_000_000_000,
            forall|i: int| 0 <= i < old(snow)@.len() ==> wf_flake(#[trigger] old(snow)@[i]),
            out@.len() == idx,
            wraps <= idx,
            forall|i: int|
                0 <= i < out@.len() ==> {
                    &&& wf_flake(#[trigger] out@[i])
                    &&& out@[i].y == step_y(old(snow)@[i].y as int, old(snow)@[i].speed as int)
                    &&& out@[i].x == step_x(
                        old(snow)@[i].x as int,
                        old(snow)@[i].drift as int,
                        time as int,
                    )
                    &&& out@[i].z == old(snow)@[i].z
                    &&& out@[i].drift == old(snow)@[i].drift
                    &&& out@[i].speed == old(snow)@[i].speed
                },
            (wraps == 0) <==> forall|i: int|
                0 <= i < idx ==> (#[trigger] old(snow)@[i]).y - old(snow)@[i].speed >= SNOW_FLOOR,
    {
        let mut fl = *flake_at(snow, idx);
        let w = snow_step(&mut fl, time);
        out.push(fl);
        if w {
            wraps = wraps + 1;
        }
    }
    *snow = out;
    wraps
}

/// One flake of the collection.
fn flake_at(snow: &Vec<SnowFlake>, i: usize) -> (f: &SnowFlake)
    requires
        i < snow@.len(),
    ensures
        *f == snow@[i as int],
{
    &snow[i]
}

} // verus!
