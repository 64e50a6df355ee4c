//! Stream-level laws: what holds of every run, stated over the mathematical
//! model and proved once.

use vstd::prelude::*;
use crate::stream::{stream_byte, stream_segment, stream_prefix, lemma_segment_concat};

verus! {

/// The sum of a sequence of transfer sizes.
pub open spec fn sum_of(sizes: Seq<int>) -> int
    decreases sizes.len(),
{
    if sizes.len() == 0 {
        0
    } else {
        sizes[0] + sum_of(sizes.drop_first())
    }
}

/// The bytes produced by taking stream segments of the given sizes in turn,
/// starting at `start`: the output of a run whose transfers came back in
/// those portions.
pub open spec fn split_segments(seed: Seq<u8>, start: int, sizes: Seq<int>) -> Seq<u8>
    decreases sizes.len(),
{
    if sizes.len() == 0 {
        Seq::empty()
    } else {
        stream_segment(seed, start, sizes[0]) + split_segments(
            seed,
            start + sizes[0],
            sizes.drop_first(),
        )
    }
}

pub proof fn lemma_sum_nonneg(sizes: Seq<int>)
    requires
        forall|i: int| 0 <= i < sizes.len() ==> sizes[i] >= 0,
    ensures
        sum_of(sizes) >= 0,
    decreases sizes.len(),
{
    if sizes.len() > 0 {
        lemma_sum_nonneg(sizes.drop_first());
    }
}

/// Short-transfer robustness: however a run's transfers are split into
/// nonnegative portions, the bytes moved are exactly the ones a single
/// whole transfer of their sum would move.
pub proof fn lemma_split_invariance(seed: Seq<u8>, start: int, sizes: Seq<int>)
    requires
        forall|i: int| 0 <= i < sizes.len() ==> sizes[i] >= 0,
    ensures
        split_segments(seed, start, sizes) == stream_segment(seed, start, sum_of(sizes)),
    decreases sizes.len(),
{
    if sizes.len() == 0 {
        assert(split_segments(seed, start, sizes) =~= stream_segment(seed, start, 0));
    } else {
        let rest = sizes.drop_first();
        assert(forall|i: int| 0 <= i < rest.len() ==> rest[i] >= 0);
        lemma_split_invariance(seed, start + sizes[0], rest);
        lemma_sum_nonneg(rest);
        lemma_segment_concat(seed, start, sizes[0], sum_of(rest));
    }
}

/// Whether the device contents `dev` are, byte for byte, the stream of
/// `seed`: what a clean verify run confirms over the range it has read.
pub open spec fn device_matches(seed: Seq<u8>, dev: Seq<u8>) -> bool {
    forall|i: int| 0 <= i < dev.len() ==> dev[i] == stream_byte(seed, i)
}

/// The seed a device describes: its first 32 bytes.
pub open spec fn device_seed(dev: Seq<u8>) -> Seq<u8> {
    dev.subrange(0, 32)
}

/// Seed self-description and round trip: a device holding the first `n`
/// stream bytes of some seed carries that very seed in its own first 32
/// bytes, and verifying it against the stream of that reconstructed seed
/// matches at every offset.
pub proof fn lemma_round_trip(seed: Seq<u8>, n: int)
    requires
        seed.len() == 32,
        n >= 32,
    ensures
        device_seed(stream_prefix(seed, n)) == seed,
        device_matches(device_seed(stream_prefix(seed, n)), stream_prefix(seed, n)),
{
    assert(device_seed(stream_prefix(seed, n)) =~= seed);
}

} // verus!
