//! Pseudo-random byte generation.
//!
//! The generator is a 32-bit xorshift whose seed is mixed from hardware
//! readings.  Gathering the seed is the hardware's business; the
//! library owns the stream the seed determines, and fills a buffer with
//! it byte for byte.

use vstd::prelude::*;

verus! {

/// One xorshift round.
pub open spec fn xorshift_step(s: u32) -> u32 {
    let a = s ^ (s << 13);
    let b = a ^ (a >> 17);
    b ^ (b << 5)
}

/// The state after `n` xorshift rounds from `s`.
pub open spec fn xorshift_iter(s: u32, n: nat) -> u32
    decreases n,
{
    if n == 0 {
        s
    } else {
        xorshift_step(xorshift_iter(s, (n - 1) as nat))
    }
}

/// Byte `k` of `x`, little-endian.
pub open spec fn le_byte(x: u32, k: int) -> u8 {
    if k == 0 {
        (x & 0xFF) as u8
    } else if k == 1 {
        ((x >> 8) & 0xFF) as u8
    } else if k == 2 {
        ((x >> 16) & 0xFF) as u8
    } else {
        ((x >> 24) & 0xFF) as u8
    }
}

/// The default source of random bytes: a seeded xorshift stream.
#[derive(Debug, Clone, Copy, PartialEq, Eq, Structural)]
pub struct DefaultRandomSource {}

impl DefaultRandomSource {
    pub fn new() -> (r: DefaultRandomSource)
        ensures
            r == (DefaultRandomSource {  }),
    {
        DefaultRandomSource {  }
    }

    /// Overwrites the whole buffer with the xorshift stream of `seed`:
    /// the state advances once per four-byte chunk, and each chunk takes
    /// the state's bytes little-endian.
    pub fn fill_bytes(&mut self, seed: u32, bytes: &mut Vec<u8>)
        ensures
            final(bytes)@.len() == old(bytes)@.len(),
            forall|j: int|
                0 <= j < old(bytes)@.len() ==> final(bytes)@[j] == le_byte(
                    xorshift_iter(seed, (j / 4 + 1) as nat),
                    j % 4,
                ),
    {
        let len = bytes.len();
        let mut state = seed;
        let mut j: usize = 0;
        while j < len
            invariant
                j <= len,
                len == bytes@.len(),
                state == xorshift_iter(seed, ((j + 3) / 4) as nat),
                forall|t: int|
                    0 <= t < j ==> bytes@[t] == le_byte(
                        xorshift_iter(seed, (t / 4 + 1) as nat),
                        t % 4,
                    ),
            decreases len - j,
        {
            if j % 4 == 0 {
                state = Self::step(state);
            }
            assert(state == xorshift_iter(seed, (j / 4 + 1) as nat));
            let k = j % 4;
            let b: u8 = if k == 0 {
                (state & 0xFF) as u8
            } else if k == 1 {
                ((state >> 8) & 0xFF) as u8
            } else if k == 2 {
                ((state >> 16) & 0xFF) as u8
            } else {
                ((state >> 24) & 0xFF) as u8
            };
            proof {
                lemma_masked_byte_fits(state);
            }
            bytes.set(j, b);
            j += 1;
        }
    }

    /// One xorshift round, exactly as [`xorshift_step`] describes.
    fn step(s: u32) -> (r: u32)
        ensures
            r == xorshift_step(s),
    {
        let mut x = s;
        x = x ^ (x << 13);
        x = x ^ (x >> 17);
        x ^ (x << 5)
    }
}

/// Mixes the hardware readings into the stream's seed: the tick count,
/// the timer byte and the target buffer's linear address, folded
/// together bitwise.
pub fn mix_seed(ticks: u32, pit: u8, segment: u16, offset: u16) -> (s: u32)
    ensures
        s == ticks ^ (pit as u32) ^ (((segment as u32) << 4) | (offset as u32)),
{
    let address: u32 = ((segment as u32) << 4) | (offset as u32);
    ticks ^ (pit as u32) ^ address
}

/// Every byte masked out of a word fits in eight bits.
proof fn lemma_masked_byte_fits(x: u32)
    ensures
        x & 0xFF < 256,
        (x >> 8) & 0xFF < 256,
        (x >> 16) & 0xFF < 256,
        (x >> 24) & 0xFF < 256,
{
    assert(x & 0xFF < 256) by (bit_vector);
    assert((x >> 8) & 0xFF < 256) by (bit_vector);
    assert((x >> 16) & 0xFF < 256) by (bit_vector);
    assert((x >> 24) & 0xFF < 256) by (bit_vector);
}

} // verus!
