//! A seedable linear-congruential generator of fractions in `[0, 1)`.

use vstd::prelude::*;

verus! {

/// State that a fresh generator starts from.
pub const SEED: u32 = 12345;

/// Factor of the recurrence.
pub const MULTIPLIER: u32 = 1103515245;

/// Summand of the recurrence.
pub const INCREMENT: u32 = 12345;

/// One step of the recurrence: `state * MULTIPLIER + INCREMENT`, reduced modulo `2^32`.
pub open spec fn lcg_step(state: u32) -> u32 {
    ((state * MULTIPLIER + INCREMENT) % 0x1_0000_0000) as u32
}

/// The state reached from `seed` after `n` steps.
pub open spec fn lcg_nth(seed: u32, n: nat) -> u32
    decreases n,
{
    if n == 0 {
        seed
    } else {
        lcg_step(lcg_nth(seed, (n - 1) as nat))
    }
}

/// Taking `m` steps and then `n` more is taking `m + n` steps.
pub proof fn lemma_lcg_nth_add(seed: u32, m: nat, n: nat)
    ensures
        lcg_nth(lcg_nth(seed, m), n) == lcg_nth(seed, m + n),
    decreases n,
{
    if n > 0 {
        lemma_lcg_nth_add(seed, m, (n - 1) as nat);
    }
}

/// A generator whose whole state is one 32-bit word.
#[derive(Clone, Copy, Debug, PartialEq, Eq)]
pub struct PseudoRandomGenerator {
    state: u32,
}

impl PseudoRandomGenerator {
    /// The word that the next draw starts from.
    pub closed spec fn state(&self) -> u32 {
        self.state
    }

    /// A generator at the fixed seed.
    pub fn new() -> (g: PseudoRandomGenerator)
        ensures
            g.state() == SEED,
    {
        PseudoRandomGenerator { state: SEED }
    }

    /// A generator at a seed of the caller's choice.
    pub fn with_seed(seed: u32) -> (g: PseudoRandomGenerator)
        ensures
            g.state() == seed,
    {
        PseudoRandomGenerator { state: seed }
    }

    /// Advances the state by one step and returns it. The word `r` that comes back
    /// stands for the fraction `r / 2^32`, which lies in `[0, 1)`.
    pub fn next(&mut self) -> (r: u32)
        ensures
            final(self).state() == lcg_step(old(self).state()),
            r == final(self).state(),
    {
        let product: u32 = self.state.wrapping_mul(MULTIPLIER);
        let next: u32 = product.wrapping_add(INCREMENT);
        assert(next == lcg_step(self.state)) by {
            let s: int = self.state as int;
            let p: int = (s * 1103515245) % 0x1_0000_0000;
            assert(product == p);
            assert((p + 12345) % 0x1_0000_0000 == (s * 1103515245 + 12345) % 0x1_0000_0000) by {
                vstd::arithmetic::div_mod::lemma_add_mod_noop(s * 1103515245, 12345, 0x1_0000_0000);
                vstd::arithmetic::div_mod::lemma_add_mod_noop(p, 12345, 0x1_0000_0000);
                vstd::arithmetic::div_mod::lemma_mod_twice(s * 1103515245, 0x1_0000_0000);
            }
        }
        self.state = next;
        next
    }
}

} // verus!
