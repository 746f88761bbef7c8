//! Deterministic pseudo-random source: a 32-bit xorshift generator whose
//! sequence is a pure function of the seed, so procedural placement is
//! reproducible frame after frame.

use vstd::prelude::*;

verus! {

/// One step of the xorshift recurrence (shift-right 13, shift-left 17,
/// shift-right 5).
pub open spec fn rng_step(s: u32) -> u32 {
    let a = s ^ (s >> 13);
    let b = a ^ (a << 17);
    b ^ (b >> 5)
}

/// The state after `n` draws from `s`.
pub open spec fn rng_iter(s: u32, n: nat) -> u32
    decreases n,
{
    if n == 0 {
        s
    } else {
        rng_step(rng_iter(s, (n - 1) as nat))
    }
}

/// Draws compose: `a` draws and then `b` draws is `a + b` draws.
pub proof fn lemma_rng_iter_add(s: u32, a: nat, b: nat)
    ensures
        rng_iter(rng_iter(s, a), b) == rng_iter(s, a + b),
    decreases b,
{
    if b > 0 {
        lemma_rng_iter_add(s, a, (b - 1) as nat);
        assert(a + b - 1 == (a + (b - 1) as nat));
    }
}

/// The state after `n` pairs of draws from `s`.
pub open spec fn rng_iter2(s: u32, n: nat) -> u32
    decreases n,
{
    if n == 0 {
        s
    } else {
        rng_step(rng_step(rng_iter2(s, (n - 1) as nat)))
    }
}

/// Drawing pairs composes: `a` pairs and then `b` pairs is `a + b` pairs.
pub proof fn lemma_rng_iter2_add(s: u32, a: nat, b: nat)
    ensures
        rng_iter2(rng_iter2(s, a), b) == rng_iter2(s, a + b),
    decreases b,
{
    if b > 0 {
        lemma_rng_iter2_add(s, a, (b - 1) as nat);
        assert(a + b - 1 == (a + (b - 1) as nat));
    }
}

/// The unit sample drawn from state `s`: the advanced state scaled down by
/// 2^32, so the draw always lies in milli-units of [0, 1).
pub open spec fn rng_unit_of(s: u32) -> int {
    (rng_step(s) as int) * 1000 / 0x1_0000_0000
}

pub struct Rng {
    pub state: u32,
}

impl Rng {
    pub fn new(seed: u32) -> (r: Rng)
        ensures
            r.state == seed,
    {
        Rng { state: seed }
    }

    /// Advance the state once and return a sample in [0, 1000): the
    /// fixed-point counterpart of a draw from the unit interval, the upper
    /// bound excluded.
    pub fn next_unit(&mut self) -> (r: i64)
        ensures
            final(self).state == rng_step(old(self).state),
            r == rng_unit_of(old(self).state),
            0 <= r < 1000,
    {
        let s0 = self.state;
        let a = s0 ^ (s0 >> 13);
        let b = a ^ (a << 17);
        let c = b ^ (b >> 5);
        self.state = c;
        let scaled: u64 = (c as u64) * 1000;
        let r: u64 = scaled / 0x1_0000_0000;
        proof {
            assert(scaled < 0x1_0000_0000u64 * 1000) by (nonlinear_arith)
                requires
                    scaled == (c as u64) * 1000,
                    c as u64 <= 0xffff_ffffu64,
            ;
            vstd::arithmetic::div_mod::lemma_multiply_divide_lt(
                scaled as int,
                0x1_0000_0000,
                1000,
            );
        }
        r as i64
    }
}

} // verus!
