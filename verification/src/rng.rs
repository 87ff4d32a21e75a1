use vstd::prelude::*;

verus! {

/// One step of the 32-bit xorshift generator (shifts 13, 17, 5).
pub open spec fn xorshift(x: u32) -> u32 {
    let a = x ^ (x << 13u32);
    let b = a ^ (a >> 17u32);
    b ^ (b << 5u32)
}

/// A tiny deterministic random source: the state of a 32-bit xorshift
/// generator.
pub struct Rng {
    pub state: u32,
}

impl Rng {
    /// A generator that starts from `seed`.
    pub fn new(seed: u32) -> (r: Rng)
        ensures
            r.state == seed,
    {
        Rng { state: seed }
    }

    /// Advances the state by one xorshift step and returns its top 24 bits,
    /// the numerator of a uniform fraction of `1 << 24`.
    pub fn next_bits(&mut self) -> (r: u32)
        ensures
            final(self).state == xorshift(old(self).state),
            r == final(self).state >> 8u32,
            r < 0x100_0000,
            old(self).state != 0 ==> final(self).state != 0,
    {
        let mut x = self.state;
        x = x ^ (x << 13u32);
        x = x ^ (x >> 17u32);
        x = x ^ (x << 5u32);
        proof {
            if old(self).state != 0 {
                lemma_xorshift_nonzero(old(self).state);
            }
        }
        self.state = x;
        let r = x >> 8u32;
        assert(x >> 8u32 < 0x100_0000u32) by (bit_vector);
        r
    }
}

/// A generator started from a non-zero seed never falls into the zero state,
/// from which xorshift could not leave.
pub proof fn lemma_xorshift_nonzero(x: u32)
    requires
        x != 0,
    ensures
        xorshift(x) != 0,
{
    assert(x != 0u32 ==> (((x ^ (x << 13u32)) ^ ((x ^ (x << 13u32)) >> 17u32)) ^ (((x ^ (x << 13u32)) ^ ((x ^ (x << 13u32)) >> 17u32)) << 5u32)) != 0u32) by (bit_vector);
}

/// Distinct states step to distinct states: the xorshift step is a
/// bijection of the 32-bit states, so no two seeds merge into one stream.
pub proof fn lemma_xorshift_injective(x: u32, y: u32)
    requires
        xorshift(x) == xorshift(y),
    ensures
        x == y,
{
    let a = x ^ (x << 13u32);
    let c = y ^ (y << 13u32);
    let b = a ^ (a >> 17u32);
    let d = c ^ (c >> 17u32);
    assert((b ^ (b << 5u32)) == (d ^ (d << 5u32)) ==> b == d) by (bit_vector);
    assert((a ^ (a >> 17u32)) == (c ^ (c >> 17u32)) ==> a == c) by (bit_vector);
    assert((x ^ (x << 13u32)) == (y ^ (y << 13u32)) ==> x == y) by (bit_vector);
}

} // verus!
