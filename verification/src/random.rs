//! The legacy pseudo-random generator used to rebuild the obfuscation pad.
//!
//! The generator is a 32-bit linear-congruential scheme whose state wraps
//! modulo 2^32 by design; each draw returns the upper bits of the new state
//! masked to 15 bits. Reproducing it bit for bit is a correctness
//! requirement: any deviation corrupts every key derived from it.

use vstd::prelude::*;

verus! {

/// The next generator state: `state * 214013 + 2531011`, wrapping modulo 2^32.
pub open spec fn srand_next(state: u32) -> u32 {
    ((state * 214013 + 2531011) % 0x1_0000_0000) as u32
}

/// The value a draw from `state` returns: the upper half of the new state,
/// masked to 15 bits.
pub open spec fn srand_out(state: u32) -> u32 {
    (srand_next(state) >> 16) & 0x7FFF
}

/// The sequence of values that `n` successive draws from `state` return.
pub open spec fn srand_seq(state: u32, n: nat) -> Seq<u32>
    decreases n,
{
    if n == 0 {
        Seq::empty()
    } else {
        seq![srand_out(state)] + srand_seq(srand_next(state), (n - 1) as nat)
    }
}

/// The legacy generator. The whole state is one 32-bit integer.
pub struct SRand {
    pub seed: u32,
}

impl SRand {
    pub fn new(seed: u32) -> (r: SRand)
        ensures
            r.seed == seed,
    {
        SRand { seed }
    }

    /// Advance the state and return the next pseudo-random value. Both the
    /// new state and the result are functions of the prior state alone, so
    /// a fixed seed always yields the same sequence of draws.
    pub fn rand(&mut self) -> (r: u32)
        ensures
            final(self).seed == srand_next(old(self).seed),
            r == srand_out(old(self).seed),
    {
        let wide: u64 = (self.seed as u64) * 214013 + 2531011;
        let next: u32 = (wide % 0x1_0000_0000) as u32;
        self.seed = next;
        (next >> 16) & 0x7FFF
    }
}

/// Drawing `n` values from a fixed seed yields exactly the model sequence
/// `srand_seq(seed, n)`, so any two runs from the same seed agree.
pub fn draw_sequence(seed: u32, n: usize) -> (r: Vec<u32>)
    ensures
        r@ == srand_seq(seed, n as nat),
{
    let mut gen = SRand::new(seed);
    let mut out: Vec<u32> = Vec::new();
    let mut i: usize = 0;
    proof {
        assert(srand_seq(seed, n as nat) =~= out@ + srand_seq(gen.seed, n as nat));
    }
    while i < n
        invariant
            i <= n,
            out@.len() == i,
            srand_seq(seed, n as nat) == out@ + srand_seq(gen.seed, (n - i) as nat),
        decreases n - i,
    {
        let ghost pre = gen.seed;
        let ghost rem = (n - i) as nat;
        let v = gen.rand();
        out.push(v);
        i = i + 1;
        proof {
            assert(srand_seq(pre, rem) == seq![srand_out(pre)] + srand_seq(
                gen.seed,
                (rem - 1) as nat,
            ));
            assert(out@ + srand_seq(gen.seed, (rem - 1) as nat) =~= srand_seq(seed, n as nat));
        }
    }
    out
}

} // verus!
