//! Linear congruential generator (LCG), aka the snake food source.

use vstd::prelude::*;

verus! {

#[derive(Debug)]
pub struct Random {
    seed: u32,
}

impl View for Random {
    type V = u32;

    /// A generator is its current seed.
    closed spec fn view(&self) -> u32 {
        self.seed
    }
}

/// One turn of the LCG: multiply by 1664525, add 1013904223, wrap to 32
/// bits, then reduce modulo `u32::MAX`.
pub open spec fn spec_lcg_next(s: u32) -> u32 {
    ((((1664525 * s) % 0x1_0000_0000) + 1013904223) % 0x1_0000_0000 % 0xffff_ffff) as u32
}

/// Relies on std::time::SystemTime::now, duration_since and subsec_nanos:
/// the subsecond part of the wall clock since the Unix epoch, which is
/// strictly below one billion. Aborts if the system clock reads earlier
/// than the epoch.
#[verifier::external_body]
fn subsec_nanos_now() -> (r: u32)
    ensures
        r < 1_000_000_000,
{
    std::time::SystemTime::now()
        .duration_since(std::time::UNIX_EPOCH)
        .expect("Your clock is broken, or something.")
        .subsec_nanos()
}

impl Random {
    pub fn new(seed: u32) -> (r: Self)
        ensures
            r@ == seed,
    {
        Random { seed }
    }

    /// A generator seeded from the wall clock's nanoseconds: the drawn
    /// subsecond value, divided by ten, with its low bits stirred by an
    /// exclusive-or with 9. Which value the clock gives depends on the
    /// moment of the call; the seed's shape and bound hold of every
    /// outcome.
    pub fn time_seed() -> (r: Random)
        ensures
            exists|n: u32| n < 1_000_000_000 && r@ == #[trigger] ((n / 10) ^ 9),
            r@ < 100000016,
    {
        let n = subsec_nanos_now();
        let seed = (n / 10) ^ 9;
        proof {
            assert(seed < 100000016) by (bit_vector)
                requires
                    seed == (n / 10) ^ 9,
                    n < 1_000_000_000,
            ;
            assert(n < 1_000_000_000 && seed == (n / 10) ^ 9);
        }
        Random::new(seed)
    }

    /// The LCG algorithm: advances the seed and returns it.
    pub fn next(&mut self) -> (r: u32)
        ensures
            final(self)@ == spec_lcg_next(old(self)@),
            r == final(self)@,
    {
        let a: u32 = 1664525;
        let c: u32 = 1013904223;
        let m: u32 = u32::MAX;

        self.seed = a.wrapping_mul(self.seed).wrapping_add(c) % m;
        self.seed
    }

    /// Some modulo wizardry to get an output from the LCG within the
    /// min/max range, both ends included.
    pub fn get(&mut self, min: u32, max: u32) -> (r: u32)
        requires
            min <= max,
            max - min < u32::MAX,
        ensures
            final(self)@ == spec_lcg_next(old(self)@),
            r == min + (spec_lcg_next(old(self)@) as int) % (max - min + 1),
            min <= r <= max,
    {
        min + (self.next() % (max - min + 1))
    }
}

} // verus!
