//! An explicit, seeded generator handle, threaded through every call that
//! needs randomness.
//!
//! The generator is the library's own xorshift sequence, so that two trials
//! constructed with the same seed draw bit-identical values on every machine
//! — the property the Monte Carlo harness and its reproducibility contract
//! rest on. Draws into a range use the remainder of the raw word, which is
//! uniform up to modulo bias.

use vstd::prelude::*;

verus! {

/// The constant mixed into a raw seed so that small seeds do not start the
/// sequence in a low-entropy corner.
pub const SEED_GAMMA: u64 = 0x9E3779B97F4A7C15;

/// One xorshift step of the generator word.
pub open spec fn spec_step(x: u64) -> u64 {
    let a = x ^ (x << 13);
    let b = a ^ (a >> 7);
    b ^ (b << 17)
}

/// The generator word drawn into an inclusive range.
pub open spec fn spec_range(x: u64, lo: u64, hi: u64) -> u64 {
    ((lo as int) + (x as int) % ((hi as int) - (lo as int) + 1)) as u64
}

/// A deterministic random generator owned by one trial.
#[derive(Debug, Clone, PartialEq, Eq, Structural)]
pub struct TrialRng {
    state: u64,
}

impl View for TrialRng {
    type V = u64;

    closed spec fn view(&self) -> u64 {
        self.state
    }
}

impl TrialRng {
    pub fn new(seed: u64) -> (r: Self)
        ensures
            r@ == seed ^ SEED_GAMMA,
    {
        TrialRng { state: seed ^ SEED_GAMMA }
    }

    /// Advances the generator and returns the new word.
    pub fn next_u64(&mut self) -> (r: u64)
        ensures
            final(self)@ == spec_step(old(self)@),
            r == final(self)@,
    {
        let x = self.state;
        let a = x ^ (x << 13);
        let b = a ^ (a >> 7);
        let c = b ^ (b << 17);
        self.state = c;
        c
    }

    /// Draws a value from the inclusive range `lo..=hi`.
    pub fn gen_range_u64(&mut self, lo: u64, hi: u64) -> (r: u64)
        requires
            lo <= hi,
            hi - lo < u64::MAX,
        ensures
            final(self)@ == spec_step(old(self)@),
            r == spec_range(final(self)@, lo, hi),
            lo <= r <= hi,
    {
        let x = self.next_u64();
        let width = hi - lo + 1;
        proof {
            assert(x % width < width) by (nonlinear_arith)
                requires
                    width > 0,
            ;
        }
        lo + x % width
    }

    /// Draws a head count from the inclusive range `lo..=hi`.
    pub fn gen_range_usize(&mut self, lo: usize, hi: usize) -> (r: usize)
        requires
            lo <= hi,
            hi - lo < u64::MAX,
        ensures
            final(self)@ == spec_step(old(self)@),
            r == spec_range(final(self)@, lo as u64, hi as u64),
            lo <= r <= hi,
    {
        let x = self.next_u64();
        let width = (hi - lo) as u64 + 1;
        proof {
            assert(x % width < width) by (nonlinear_arith)
                requires
                    width > 0,
            ;
        }
        lo + (x % width) as usize
    }
}

} // verus!
