//! Toroidal coordinate arithmetic: adding or subtracting a step inside a
//! half-open range `[min, max)`, wrapping past either edge.

use vstd::prelude::*;
use vstd::arithmetic::div_mod::lemma_fundamental_div_mod;
use vstd::arithmetic::div_mod::lemma_mod_multiples_vanish;

verus! {

/// The position `delta` cells after `p` in the cyclic range `[min, max)`:
/// `min + ((p + delta - min) % (max - min))`, with `%` the Euclidean
/// remainder, so the result lies in `[min, max)` whenever `min < max`.
pub open spec fn spec_wrap_add(p: u16, delta: u16, min: u16, max: u16) -> int
    recommends
        min < max,
{
    min + ((p + delta - min) % (max - min))
}

/// The position `delta` cells before `p` in the cyclic range `[min, max)`:
/// the same formula over `p - delta`.
pub open spec fn spec_wrap_sub(p: u16, delta: u16, min: u16, max: u16) -> int
    recommends
        min < max,
{
    min + ((p - delta - min) % (max - min))
}

pub fn wrap_add(p1: u16, p2: u16, min: u16, max: u16) -> (r: u16)
    requires
        min < max,
        min <= p1,
    ensures
        min <= r < max,
        r == spec_wrap_add(p1, p2, min, max),
{
    let range: u32 = max as u32 - min as u32;
    let num: u32 = p1 as u32 + p2 as u32;
    let r: u32 = (num - min as u32) % range + min as u32;
    r as u16
}

pub fn wrap_sub(p1: u16, p2: u16, min: u16, max: u16) -> (r: u16)
    requires
        min < max,
        min <= p1,
    ensures
        min <= r < max,
        r == spec_wrap_sub(p1, p2, min, max),
{
    let range: u32 = max as u32 - min as u32;
    let d: u32 = p2 as u32 % range;
    let num: u32 = (p1 as u32 - min as u32) + (range - d);
    let r: u32 = num % range + min as u32;
    proof {
        let rng = range as int;
        let q = p2 as int / rng;
        lemma_fundamental_div_mod(p2 as int, rng);
        assert(rng * (q + 1) == rng * q + rng) by (nonlinear_arith);
        assert(num == rng * (q + 1) + (p1 - p2 - min));
        lemma_mod_multiples_vanish(q + 1, p1 - p2 - min, rng);
    }
    r as u16
}

} // verus!
