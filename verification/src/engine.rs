//! The fill and verify engines.
//!
//! Both engines are driven from outside: the caller performs the device I/O
//! and reports to the engine how many bytes moved (fill) or which bytes came
//! back (verify). The engine owns the chunk buffers, keeps the keystream
//! aligned with the device offset, and accounts for every byte accepted, so
//! its results do not depend on how the device splits the transfers.

use vstd::prelude::*;
use crate::stream::{keystream_byte, stream_byte, StreamGen, copy_bytes};

verus! {

/// The transfer chunk size of device-backed runs: large enough to keep a
/// device streaming, and a multiple of every common block size.
pub const CHUNK_LEN: usize = 8 * 1024 * 1024;

/// Builds the first chunk of the stream: a freshly generated chunk whose
/// leading 32 bytes are replaced by the seed itself, making the stream
/// self-describing.
fn first_chunk(gen: &mut StreamGen, seed: &Vec<u8>, chunk_len: usize) -> (r: Vec<u8>)
    requires
        old(gen).seed_view() == seed@,
        old(gen).pos() == 0,
        seed@.len() == 32,
        32 <= chunk_len,
        chunk_len % 4 == 0,
    ensures
        final(gen).seed_view() == seed@,
        final(gen).pos() == chunk_len,
        r@.len() == chunk_len,
        forall|i: int| 0 <= i < chunk_len ==> r@[i] == stream_byte(seed@, i),
{
    let mut buf: Vec<u8> = Vec::new();
    while buf.len() < chunk_len
        invariant
            buf@.len() <= chunk_len,
        decreases chunk_len - buf.len(),
    {
        buf.push(0);
    }
    gen.fill(&mut buf);
    let mut i: usize = 0;
    while i < 32
        invariant
            i <= 32,
            seed@.len() == 32,
            buf@.len() == chunk_len,
            32 <= chunk_len,
            forall|j: int| 0 <= j < i ==> buf@[j] == seed@[j],
            forall|j: int| i <= j < chunk_len ==> buf@[j] == keystream_byte(seed@, j),
        decreases 32 - i,
    {
        buf.set(i, seed[i]);
        i += 1;
    }
    assert(forall|j: int| 0 <= j < chunk_len ==> buf@[j] == stream_byte(seed@, j));
    buf
}

/// The fill engine. The caller writes `chunk()[chunk_offset()..]` to the
/// device and reports each accepted count through [`Filler::advance`]; the
/// engine guarantees that the byte presented for device offset `o` is always
/// `stream_byte(seed, o)` and that `total_bytes()` is the exact sum of the
/// accepted counts.
pub struct Filler {
    pub seed: Vec<u8>,
    pub gen: StreamGen,
    pub buf: Vec<u8>,
    pub done: usize,
    pub total: u64,
}

impl Filler {
    /// The device offset at which the current chunk begins.
    pub open spec fn chunk_start(self) -> int {
        self.total as int - self.done as int
    }

    /// The engine's invariant: the chunk buffer holds exactly the stream
    /// bytes for the device range it stands at, and the generator cursor sits
    /// at the chunk's end.
    pub open spec fn wf(self) -> bool {
        &&& self.seed@.len() == 32
        &&& self.gen.seed_view() == self.seed@
        &&& 32 <= self.buf@.len()
        &&& self.buf@.len() % 4 == 0
        &&& self.done <= self.buf@.len()
        &&& self.done as int <= self.total as int
        &&& self.gen.pos() == self.chunk_start() + self.buf@.len()
        &&& forall|i: int|
            0 <= i < self.buf@.len() ==> self.buf@[i] == stream_byte(
                self.seed@,
                self.chunk_start() + i,
            )
    }

    /// Starts a fill of the stream of `seed`, with chunks of `chunk_len`
    /// bytes. The first chunk begins with the seed itself.
    pub fn new(seed: &Vec<u8>, chunk_len: usize) -> (r: Filler)
        requires
            seed@.len() == 32,
            32 <= chunk_len,
            chunk_len % 4 == 0,
        ensures
            r.wf(),
            r.seed@ == seed@,
            r.total == 0,
            r.done == 0,
            r.buf@.len() == chunk_len,
    {
        let mut gen = StreamGen::new(seed);
        let buf = first_chunk(&mut gen, seed, chunk_len);
        Filler { seed: copy_bytes(seed), gen, buf, done: 0, total: 0 }
    }

    /// Starts a fill under a fresh seed drawn from the operating system's
    /// secure random source, as a run against a real device begins.
    pub fn new_random(chunk_len: usize) -> (r: Filler)
        requires
            32 <= chunk_len,
            chunk_len % 4 == 0,
        ensures
            r.wf(),
            r.seed@.len() == 32,
            r.total == 0,
            r.done == 0,
            r.buf@.len() == chunk_len,
    {
        let seed = crate::seed::random_seed();
        Filler::new(&seed, chunk_len)
    }

    /// The current chunk. Its byte `i` is stream byte `chunk_start() + i`.
    pub fn chunk(&self) -> (r: &Vec<u8>)
        ensures
            r@ == self.buf@,
    {
        &self.buf
    }

    /// How many bytes of the current chunk the device has already accepted;
    /// the next write starts here.
    pub fn chunk_offset(&self) -> (r: usize)
        ensures
            r == self.done,
    {
        self.done
    }

    /// The exact total of bytes accepted so far.
    pub fn total_bytes(&self) -> (r: u64)
        ensures
            r == self.total,
    {
        self.total
    }

    /// Records that the device accepted `n` more bytes of the current chunk.
    /// When the chunk is exhausted the next one is generated in place.
    pub fn advance(&mut self, n: usize)
        requires
            old(self).wf(),
            n <= old(self).buf@.len() - old(self).done,
            old(self).total + n <= u64::MAX,
        ensures
            final(self).wf(),
            final(self).seed@ == old(self).seed@,
            final(self).buf@.len() == old(self).buf@.len(),
            final(self).done < final(self).buf@.len(),
            final(self).total == old(self).total + n,
    {
        let len = self.buf.len();
        self.done = self.done + n;
        self.total = self.total + n as u64;
        if self.done == len {
            let ghost old_start = self.chunk_start();
            self.gen.fill(&mut self.buf);
            self.done = 0;
            proof {
                assert(self.chunk_start() == old_start + self.buf@.len());
                assert(self.chunk_start() >= 32);
                assert forall|i: int| 0 <= i < self.buf@.len() implies self.buf@[i] == stream_byte(
                    self.seed@,
                    self.chunk_start() + i,
                ) by {
                    assert(self.buf@[i] == keystream_byte(self.seed@, old_start + self.buf@.len() + i));
                }
            }
        }
    }
}

/// The outcome of handing one batch of device bytes to the verify engine.
#[derive(Clone, Copy, Debug, PartialEq, Eq, Structural)]
pub enum VerifyStep {
    /// Every byte of the batch matched the expected stream; the engine
    /// advanced past them.
    Advanced,
    /// The batch diverged from the expected stream. `offset` is the absolute
    /// device offset of the first differing byte, `expected` the stream byte
    /// that belongs there, `found` the byte the device returned.
    Mismatch { offset: u64, expected: u8, found: u8 },
}

/// The verify engine. The caller reads the device in order and hands each
/// batch of freshly read bytes to [`Verifier::check`]; the engine compares
/// them against the regenerated stream, locates the first divergence, and
/// counts exactly the bytes confirmed before any divergence.
pub struct Verifier {
    pub seed: Vec<u8>,
    pub gen: StreamGen,
    pub expect: Vec<u8>,
    pub done: usize,
    pub total: u64,
}

impl Verifier {
    /// The device offset at which the current expected chunk begins.
    pub open spec fn chunk_start(self) -> int {
        self.total as int - self.done as int
    }

    /// The engine's invariant: the expected chunk holds exactly the stream
    /// bytes for the device range it stands at, and the generator cursor sits
    /// at the chunk's end.
    pub open spec fn wf(self) -> bool {
        &&& self.seed@.len() == 32
        &&& self.gen.seed_view() == self.seed@
        &&& 32 <= self.expect@.len()
        &&& self.expect@.len() % 4 == 0
        &&& self.done <= self.expect@.len()
        &&& self.done as int <= self.total as int
        &&& self.gen.pos() == self.chunk_start() + self.expect@.len()
        &&& forall|i: int|
            0 <= i < self.expect@.len() ==> self.expect@[i] == stream_byte(
                self.seed@,
                self.chunk_start() + i,
            )
    }

    /// Starts a verify against the stream of `seed`, with chunks of
    /// `chunk_len` bytes. Expectation begins at device offset zero, so the
    /// embedded seed itself is re-checked first.
    pub fn new(seed: &Vec<u8>, chunk_len: usize) -> (r: Verifier)
        requires
            seed@.len() == 32,
            32 <= chunk_len,
            chunk_len % 4 == 0,
        ensures
            r.wf(),
            r.seed@ == seed@,
            r.total == 0,
            r.done == 0,
            r.expect@.len() == chunk_len,
    {
        let mut gen = StreamGen::new(seed);
        let expect = first_chunk(&mut gen, seed, chunk_len);
        Verifier { seed: copy_bytes(seed), gen, expect, done: 0, total: 0 }
    }

    /// How many bytes of the current chunk are already verified; the next
    /// batch continues here, and at most `chunk()` length minus this many
    /// bytes may be handed in at once.
    pub fn chunk_offset(&self) -> (r: usize)
        ensures
            r == self.done,
    {
        self.done
    }

    /// The length of the expected chunk buffer.
    pub fn chunk_len(&self) -> (r: usize)
        ensures
            r == self.expect@.len(),
    {
        self.expect.len()
    }

    /// The exact total of bytes verified so far.
    pub fn total_bytes(&self) -> (r: u64)
        ensures
            r == self.total,
    {
        self.total
    }

    /// Compares `data`, the bytes just read from device offset
    /// `total_bytes()`, against the expected stream. On a clean match the
    /// engine advances; on divergence it reports the first differing offset
    /// with both byte values and leaves the verified total at the bytes
    /// confirmed by earlier batches, per the counting convention that only
    /// fully checked batches are counted.
    pub fn check(&mut self, data: &[u8]) -> (r: VerifyStep)
        requires
            old(self).wf(),
            data@.len() <= old(self).expect@.len() - old(self).done,
            old(self).total + data@.len() <= u64::MAX,
        ensures
            final(self).wf(),
            final(self).seed@ == old(self).seed@,
            final(self).expect@.len() == old(self).expect@.len(),
            match r {
                VerifyStep::Advanced => {
                    &&& forall|i: int|
                        0 <= i < data@.len() ==> data@[i] == stream_byte(
                            old(self).seed@,
                            old(self).total + i,
                        )
                    &&& final(self).total == old(self).total + data@.len()
                    &&& final(self).done < final(self).expect@.len()
                },
                VerifyStep::Mismatch { offset, expected, found } => {
                    &&& old(self).total <= offset < old(self).total + data@.len()
                    &&& forall|j: int|
                        0 <= j < offset - old(self).total ==> data@[j] == stream_byte(
                            old(self).seed@,
                            old(self).total + j,
                        )
                    &&& data@[offset - old(self).total] != stream_byte(old(self).seed@, offset as int)
                    &&& expected == stream_byte(old(self).seed@, offset as int)
                    &&& found == data@[offset - old(self).total]
                    &&& final(self).total == old(self).total
                },
            },
    {
        let n = data.len();
        let elen = self.expect.len();
        let mut i: usize = 0;
        while i < n
            invariant
                self == old(self),
                self.wf(),
                i <= n,
                n == data@.len(),
                elen == self.expect@.len(),
                n <= self.expect@.len() - self.done,
                self.total + n <= u64::MAX,
                forall|j: int| 0 <= j < i ==> data@[j] == self.expect@[self.done + j],
            decreases n - i,
        {
            if data[i] != self.expect[self.done + i] {
                let offset = self.total + i as u64;
                let expected = self.expect[self.done + i];
                let found = data[i];
                proof {
                    assert(self.expect@[self.done + i] == stream_byte(
                        self.seed@,
                        self.chunk_start() + self.done + i,
                    ));
                    assert forall|j: int|
                        0 <= j < offset - old(self).total implies data@[j] == stream_byte(
                        old(self).seed@,
                        old(self).total + j,
                    ) by {
                        assert(data@[j] == self.expect@[self.done + j]);
                    }
                }
                return VerifyStep::Mismatch { offset, expected, found };
            }
            i += 1;
        }
        proof {
            assert forall|j: int| 0 <= j < data@.len() implies data@[j] == stream_byte(
                old(self).seed@,
                old(self).total + j,
            ) by {
                assert(data@[j] == self.expect@[self.done + j]);
            }
        }
        self.done = self.done + n;
        self.total = self.total + n as u64;
        if self.done == elen {
            let ghost old_start = self.chunk_start();
            self.gen.fill(&mut self.expect);
            self.done = 0;
            proof {
                assert(self.chunk_start() == old_start + self.expect@.len());
                assert(self.chunk_start() >= 32);
                assert forall|i2: int|
                    0 <= i2 < self.expect@.len() implies self.expect@[i2] == stream_byte(
                    self.seed@,
                    self.chunk_start() + i2,
                ) by {
                    assert(self.expect@[i2] == keystream_byte(
                        self.seed@,
                        old_start + self.expect@.len() + i2,
                    ));
                }
            }
        }
        VerifyStep::Advanced
    }
}

} // verus!
