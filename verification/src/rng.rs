use vstd::prelude::*;

verus! {

pub const LCG_MULTIPLIER: u64 = 6364136223846793005;

pub const LCG_INCREMENT: u64 = 1442695040888963407;

/// The successor of a generator state: one linear-congruential step,
/// taken modulo 2^64.
#[verifier::opaque]
pub open spec fn lcg_next(s: u64) -> u64 {
    vstd::wrapping::u64_specs::wrapping_add(
        vstd::wrapping::u64_specs::wrapping_mul(s, LCG_MULTIPLIER),
        LCG_INCREMENT,
    )
}

/// The state after `k` successive steps.
pub open spec fn lcg_iter(s: u64, k: nat) -> u64
    decreases k,
{
    if k == 0 {
        s
    } else {
        lcg_next(lcg_iter(s, (k - 1) as nat))
    }
}

/// Stepping `a` times and then `b` more is stepping `a + b` times.
pub proof fn lemma_lcg_iter_add(s: u64, a: nat, b: nat)
    ensures
        lcg_iter(lcg_iter(s, a), b) == lcg_iter(s, a + b),
    decreases b,
{
    if b > 0 {
        lemma_lcg_iter_add(s, a, (b - 1) as nat);
    }
}

/// A deterministic pseudo-random source. Every draw is pinned down by
/// `lcg_next`, so any two generators seeded alike produce the same
/// stream; the caller chooses how the seed is picked.
pub struct Lcg64 {
    pub state: u64,
}

impl Lcg64 {
    pub fn new(seed: u64) -> (r: Lcg64)
        ensures
            r.state == seed,
    {
        Lcg64 { state: seed }
    }

    /// Advances the state once and hands it out.
    pub fn next_u64(&mut self) -> (r: u64)
        ensures
            final(self).state == lcg_next(old(self).state),
            r == final(self).state,
    {
        proof {
            reveal(lcg_next);
        }
        self.state = self.state.wrapping_mul(LCG_MULTIPLIER).wrapping_add(LCG_INCREMENT);
        self.state
    }

    /// A draw reduced below `bound`.
    pub fn below(&mut self, bound: u64) -> (r: u64)
        requires
            1 <= bound,
        ensures
            final(self).state == lcg_next(old(self).state),
            r == lcg_next(old(self).state) % bound,
            r < bound,
    {
        let x = self.next_u64();
        x % bound
    }
}

} // verus!
