//! The pseudo-random source of hit and evasion rolls.
use vstd::prelude::*;

verus! {

/// The generator's next state (xorshift64).
pub open spec fn rng_next(s: u64) -> u64 {
    let a = s ^ (s << 13u64);
    let b = a ^ (a >> 7u64);
    b ^ (b << 17u64)
}

/// The roll that a state gives: a number in `[0, 100000)`, compared against an accuracy in the
/// same units (a roll at or below the accuracy hits).
pub open spec fn rng_roll(s: u64) -> int {
    (s % 100000) as int
}

/// A deterministic generator of hit rolls.
#[derive(Debug, Clone, Copy)]
pub struct AccuracyRng {
    pub state: u64,
}

impl AccuracyRng {
    /// The seed a battle starts from.
    pub open spec fn default_seed() -> u64 {
        0xA5A5_1F2D_D3C4_B7E9
    }

    pub fn new(seed: u64) -> (r: Self)
        ensures
            r.state == seed,
    {
        AccuracyRng { state: seed }
    }

    pub fn reset(&mut self, seed: u64)
        ensures
            final(self).state == seed,
    {
        self.state = seed;
    }

    /// Advances the generator and gives the next roll.
    pub fn next_roll(&mut self) -> (r: u32)
        ensures
            final(self).state == rng_next(old(self).state),
            r == rng_roll(rng_next(old(self).state)),
            r < 100000,
    {
        let s = self.state;
        let a = s ^ (s << 13u64);
        let b = a ^ (a >> 7u64);
        let c = b ^ (b << 17u64);
        self.state = c;
        (c % 100000) as u32
    }
}

impl Default for AccuracyRng {
    fn default() -> (r: Self)
        ensures
            r.state == Self::default_seed(),
    {
        AccuracyRng { state: 0xA5A5_1F2D_D3C4_B7E9 }
    }
}

} // verus!
