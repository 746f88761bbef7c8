//! Animation state and the per-frame decisions of the outer loop: growth and
//! zoom progress updates, snow advancement, and key handling. The driver
//! around the library only polls the terminal, keeps the clock, and hands
//! events and elapsed time in.

use vstd::prelude::*;
use crate::snow::{SnowFlake, wf_flake, update_snow, step_y, step_x};
use crate::scene::greeting_text_s;

verus! {

/// A key event, already decoded by the driver.
#[derive(Clone, Copy, PartialEq, Eq, Structural, Debug)]
pub enum KeyEvent {
    StartGrow,
    ToggleZoom,
    Backspace,
    Insert { ch: char },
    Left,
    Right,
    Up,
    Down,
}

/// The animation state: input text, camera angles in milli-radians, growth
/// and zoom progress in milli-units of [0, 1], and the persistent snow.
pub struct AnimState {
    pub input: Vec<char>,
    pub angle_x: i64,
    pub angle_y: i64,
    pub growth: i64,
    pub zoom: i64,
    pub is_growing: bool,
    pub is_zooming: bool,
    pub snow: Vec<SnowFlake>,
}

/// Progresses in range, angles inside the accumulation cap, snow well-formed.
pub open spec fn wf_state(s: AnimState) -> bool {
    &&& 0 <= s.growth <= 1000
    &&& 0 <= s.zoom <= 1000
    &&& -1_000_000_000 <= s.angle_x <= 1_000_000_000
    &&& -1_000_000_000 <= s.angle_y <= 1_000_000_000
    &&& forall|i: int| 0 <= i < s.snow@.len() ==> wf_flake(#[trigger] s.snow@[i])
}

impl AnimState {
    /// The starting state: the default phrase, a slight downward camera
    /// tilt, nothing grown or zoomed yet.
    pub fn new(snow: Vec<SnowFlake>) -> (s: AnimState)
        requires
            forall|i: int| 0 <= i < snow@.len() ==> wf_flake(#[trigger] snow@[i]),
        ensures
            wf_state(s),
            s.angle_x == 200,
            s.angle_y == 0,
            s.growth == 0,
            s.zoom == 0,
            !s.is_growing,
            !s.is_zooming,
            s.snow@ == snow@,
            s.input@ == greeting_text_s(),
    {
        let mut input: Vec<char> = Vec::new();
        input.push('M');
        input.push('E');
        input.push('R');
        input.push('R');
        input.push('Y');
        input.push(' ');
        input.push('C');
        input.push('H');
        input.push('R');
        input.push('I');
        input.push('S');
        input.push('T');
        input.push('M');
        input.push('A');
        input.push('S');
        proof {
            assert(input@ =~= greeting_text_s());
        }
        AnimState {
            input,
            angle_x: 200,
            angle_y: 0,
            growth: 0,
            zoom: 0,
            is_growing: false,
            is_zooming: false,
            snow,
        }
    }
}

/// Apply one key event: start the growth animation over, toggle the zoom
/// once grown far enough, edit the input text, or turn the camera by 0.15
/// radians (the angles saturate at the accumulation cap instead of
/// overflowing).
pub fn apply_key(s: &mut AnimState, key: KeyEvent)
    requires
        wf_state(*old(s)),
    ensures
        wf_state(*final(s)),
        final(s).snow@ == old(s).snow@,
        final(s).zoom == old(s).zoom,
        final(s).input@ == (match key {
            KeyEvent::Backspace => if old(s).input@.len() > 0 {
                old(s).input@.drop_last()
            } else {
                old(s).input@
            },
            KeyEvent::Insert { ch } => old(s).input@.push(ch),
            _ => old(s).input@,
        }),
        final(s).growth == (if key == KeyEvent::StartGrow {
            0int
        } else {
            old(s).growth as int
        }),
        final(s).is_growing == (key == KeyEvent::StartGrow || old(s).is_growing),
        final(s).is_zooming == (if key == KeyEvent::ToggleZoom && old(s).growth >= 900 {
            !old(s).is_zooming
        } else {
            old(s).is_zooming
        }),
        final(s).angle_x == (match key {
            KeyEvent::Up => clamp_angle_s(old(s).angle_x - 150),
            KeyEvent::Down => clamp_angle_s(old(s).angle_x + 150),
            _ => old(s).angle_x as int,
        }),
        final(s).angle_y == (match key {
            KeyEvent::Left => clamp_angle_s(old(s).angle_y - 150),
            KeyEvent::Right => clamp_angle_s(old(s).angle_y + 150),
            _ => old(s).angle_y as int,
        }),
{
    match key {
        KeyEvent::StartGrow => {
            s.is_growing = true;
            s.growth = 0;
        },
        KeyEvent::ToggleZoom => {
            if s.growth >= 900 {
                s.is_zooming = !s.is_zooming;
            }
        },
        KeyEvent::Backspace => {
            s.input.pop();
        },
        KeyEvent::Insert { ch } => {
            s.input.push(ch);
        },
        KeyEvent::Left => {
            s.angle_y = clamp_angle(s.angle_y - 150);
        },
        KeyEvent::Right => {
            s.angle_y = clamp_angle(s.angle_y + 150);
        },
        KeyEvent::Up => {
            s.angle_x = clamp_angle(s.angle_x - 150);
        },
        KeyEvent::Down => {
            s.angle_x = clamp_angle(s.angle_x + 150);
        },
    }
}

/// An angle held inside the accumulation cap.
pub open spec fn clamp_angle_s(a: int) -> int {
    if a < -1_000_000_000 {
        -1_000_000_000
    } else if a > 1_000_000_000 {
        1_000_000_000
    } else {
        a
    }
}

fn clamp_angle(a: i64) -> (r: i64)
    requires
        -2_000_000_000 <= a <= 2_000_000_000,
    ensures
        r == clamp_angle_s(a as int),
{
    if a < -1_000_000_000 {
        -1_000_000_000
    } else if a > 1_000_000_000 {
        1_000_000_000
    } else {
        a
    }
}

/// Advance the animation for one frame: while the growth animation runs, the
/// growth progress follows elapsed time over the 4.5-second ramp; once grown,
/// the snow falls; the zoom progress moves by 0.05 toward whichever end the
/// zoom flag points at. Returns how many snow flakes wrapped.
pub fn tick(s: &mut AnimState, elapsed: i64) -> (wraps: usize)
    requires
        wf_state(*old(s)),
        0 <= elapsed <= 1_000_000_000_000,
    ensures
        wf_state(*final(s)),
        final(s).input@ == old(s).input@,
        final(s).angle_x == old(s).angle_x,
        final(s).angle_y == old(s).angle_y,
        final(s).is_growing == old(s).is_growing,
        final(s).is_zooming == old(s).is_zooming,
        final(s).growth == (if old(s).is_growing && old(s).growth < 1000 {
            if elapsed * 2 / 9 > 1000 {
                1000int
            } else {
                elapsed * 2 / 9
            }
        } else {
            old(s).growth as int
        }),
        final(s).zoom == (if old(s).is_zooming {
            if old(s).zoom + 50 > 1000 {
                1000int
            } else {
                old(s).zoom + 50
            }
        } else {
            if old(s).zoom - 50 < 0 {
                0int
            } else {
                old(s).zoom - 50
            }
        }),
        final(s).growth < 1000 ==> final(s).snow@ == old(s).snow@ && wraps == 0,
        final(s).growth >= 1000 ==> final(s).snow@.len() == old(s).snow@.len() && forall|i: int|
            0 <= i < final(s).snow@.len() ==> {
                &&& (#[trigger] final(s).snow@[i]).y == step_y(
                    old(s).snow@[i].y as int,
                    old(s).snow@[i].speed as int,
                )
                &&& final(s).snow@[i].x == step_x(
                    old(s).snow@[i].x as int,
                    old(s).snow@[i].drift as int,
                    elapsed as int,
                )
                &&& final(s).snow@[i].speed == old(s).snow@[i].speed
                &&& final(s).snow@[i].drift == old(s).snow@[i].drift
                &&& final(s).snow@[i].z == old(s).snow@[i].z
            },
{
    if s.is_growing && s.growth < 1000 {
        let raw = ((elapsed as u64 * 2) / 9) as i64;
        s.growth = if raw > 1000 {
            1000
        } else {
            raw
        };
    }
    let mut flakes = Vec::new();
    core::mem::swap(&mut flakes, &mut s.snow);
    let wraps = update_snow(&mut flakes, s.growth, elapsed);
    core::mem::swap(&mut flakes, &mut s.snow);
    if s.is_zooming {
        s.zoom = if s.zoom + 50 > 1000 {
            1000
        } else {
            s.zoom + 50
        };
    } else {
        s.zoom = if s.zoom - 50 < 0 {
            0
        } else {
            s.zoom - 50
        };
    }
    wraps
}

} // verus!
