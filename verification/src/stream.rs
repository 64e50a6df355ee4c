//! Reproducible keystream generation.
//!
//! A run's byte stream is determined by a 32-byte seed: position `i` of the
//! stream holds the seed itself for `i < 32` and the ChaCha keystream byte for
//! `i >= 32`, so a device filled with the stream describes its own seed in its
//! first 32 bytes.

use vstd::prelude::*;
use rand_chacha::rand_core::{RngCore, SeedableRng};

verus! {

/// The byte that the ChaCha keystream seeded with `seed` yields at position
/// `i`. The keystream is a fixed function of the seed and the position alone,
/// so this name is well defined; nothing further is assumed of its values.
pub uninterp spec fn keystream_byte(seed: Seq<u8>, i: int) -> u8;

/// Byte `i` of the on-device stream for `seed`: the seed itself over the
/// first 32 positions, the keystream everywhere after.
pub open spec fn stream_byte(seed: Seq<u8>, i: int) -> u8 {
    if 0 <= i < 32 {
        seed[i]
    } else {
        keystream_byte(seed, i)
    }
}

/// The `n` stream bytes beginning at position `start`.
pub open spec fn stream_segment(seed: Seq<u8>, start: int, n: int) -> Seq<u8> {
    Seq::new(n as nat, |i: int| stream_byte(seed, start + i))
}

/// The first `n` bytes of the stream: exactly what a fill writes to a device
/// that accepts `n` bytes.
pub open spec fn stream_prefix(seed: Seq<u8>, n: int) -> Seq<u8> {
    stream_segment(seed, 0, n)
}

/// Declares `rand_chacha::ChaCha8Rng`, the ChaCha keystream generator, as
/// an opaque outside type so that it can be held and passed by verified
/// code; everything assumed about it is stated on the functions below.
#[verifier::external_type_specification]
#[verifier::external_body]
pub struct ExChaCha8Rng(rand_chacha::ChaCha8Rng);

/// Relies on `rand_chacha::ChaCha8Rng::from_seed`: seeding places the
/// keystream cursor at position zero (block counter and stream id both start
/// at zero), so the bytes it will yield are `keystream_byte(seed@, 0..)`.
#[verifier::external_body]
fn chacha_from_seed(seed: &Vec<u8>) -> rand_chacha::ChaCha8Rng
    requires
        seed@.len() == 32,
{
    let mut s = [0u8; 32];
    s.copy_from_slice(seed.as_slice());
    rand_chacha::ChaCha8Rng::from_seed(s)
}

/// Copies a byte vector element by element.
pub(crate) fn copy_bytes(src: &Vec<u8>) -> (r: Vec<u8>)
    ensures
        r@ == src@,
{
    let mut r: Vec<u8> = Vec::new();
    let mut i: usize = 0;
    while i < src.len()
        invariant
            i <= src@.len(),
            r@ == src@.subrange(0, i as int),
        decreases src@.len() - i,
    {
        r.push(src[i]);
        proof {
            assert(r@ =~= src@.subrange(0, i + 1));
        }
        i += 1;
    }
    proof {
        assert(r@ =~= src@);
    }
    r
}

/// A cursor over the keystream of one seed. `pos()` is the number of
/// keystream bytes produced so far; every byte handed out is pinned to
/// [`keystream_byte`] at the position it was produced for.
pub struct StreamGen {
    seed: Vec<u8>,
    rng: rand_chacha::ChaCha8Rng,
    pos: Ghost<int>,
}

impl StreamGen {
    /// The seed this generator was built from.
    pub closed spec fn seed_view(self) -> Seq<u8> {
        self.seed@
    }

    /// How many keystream bytes have been produced so far.
    pub closed spec fn pos(self) -> int {
        self.pos@
    }

    /// Starts the keystream of `seed` from position zero.
    pub(crate) fn new(seed: &Vec<u8>) -> (r: StreamGen)
        requires
            seed@.len() == 32,
        ensures
            r.seed_view() == seed@,
            r.pos() == 0,
    {
        let rng = chacha_from_seed(seed);
        let s = copy_bytes(seed);
        StreamGen { seed: s, rng, pos: Ghost(0) }
    }

    /// Relies on `rand_chacha::ChaCha8Rng::fill_bytes`: the bytes filled in
    /// are a function of the seed and of how many bytes were produced before
    /// this call alone, with no skew across calls of different sizes. The
    /// generator consumes its keystream in whole 32-bit words and discards
    /// the tail of a partially used word, so only fills of a multiple of four
    /// bytes advance it by exactly the bytes handed out; every fill here is
    /// required to be word-aligned.
    #[verifier::external_body]
    pub(crate) fn fill(&mut self, buf: &mut Vec<u8>)
        requires
            old(buf)@.len() % 4 == 0,
        ensures
            final(self).seed_view() == old(self).seed_view(),
            final(self).pos() == old(self).pos() + old(buf)@.len(),
            final(buf)@.len() == old(buf)@.len(),
            forall|i: int|
                0 <= i < old(buf)@.len() ==> final(buf)@[i] == keystream_byte(
                    old(self).seed_view(),
                    old(self).pos() + i,
                ),
    {
        self.rng.fill_bytes(buf.as_mut_slice());
    }
}

/// A stream segment splits at any interior point: producing `a + b` bytes in
/// one call yields the same bytes as producing `a` and then `b` in turn.
pub proof fn lemma_segment_concat(seed: Seq<u8>, start: int, a: int, b: int)
    requires
        0 <= a,
        0 <= b,
    ensures
        stream_segment(seed, start, a + b) == stream_segment(seed, start, a) + stream_segment(
            seed,
            start + a,
            b,
        ),
{
    assert(stream_segment(seed, start, a + b) =~= stream_segment(seed, start, a) + stream_segment(
        seed,
        start + a,
        b,
    ));
}

} // verus!
