//! Seed management.
//!
//! A fill draws a fresh 32-byte seed from the operating system's secure
//! generator. A verify reconstructs the seed from the first 32 bytes
//! physically present on the device, accumulated across reads that may come
//! back short.

use vstd::prelude::*;

verus! {

/// Relies on `rand::random`: 32 bytes drawn from the thread-local
/// cryptographically secure generator. Nothing is assumed of their values.
#[verifier::external_body]
pub(crate) fn random_seed() -> (r: Vec<u8>)
    ensures
        r@.len() == 32,
{
    rand::random::<[u8; 32]>().to_vec()
}

/// What the seed collector asks its driver to do next.
#[derive(Clone, Copy, Debug, PartialEq, Eq, Structural)]
pub enum SeedStatus {
    /// Fewer than 32 bytes have come back so far; read again.
    NeedMore,
    /// At least 32 bytes are in hand; the seed can be taken.
    Ready,
    /// The device returned no bytes before 32 were accumulated: it is empty
    /// or unreadable, and no seed can be derived.
    Unreadable,
}

/// Accumulates the leading bytes of a device until the 32-byte seed embedded
/// there is complete, tolerating reads of any size.
pub struct SeedCollector {
    pub got: Vec<u8>,
}

impl SeedCollector {
    /// Starts with nothing collected.
    pub fn new() -> (r: SeedCollector)
        ensures
            r.got@.len() == 0,
    {
        SeedCollector { got: Vec::new() }
    }

    /// Takes in the bytes of one read from the front of the device. An empty
    /// read before the seed is complete is fatal: the device holds no seed.
    pub fn on_read(&mut self, data: &[u8]) -> (r: SeedStatus)
        ensures
            final(self).got@ == old(self).got@ + data@,
            r == (if old(self).got@.len() + data@.len() >= 32 {
                SeedStatus::Ready
            } else if data@.len() == 0 {
                SeedStatus::Unreadable
            } else {
                SeedStatus::NeedMore
            }),
    {
        let mut i: usize = 0;
        while i < data.len()
            invariant
                i <= data@.len(),
                self.got@ == old(self).got@ + data@.subrange(0, i as int),
            decreases data@.len() - i,
        {
            self.got.push(data[i]);
            proof {
                assert(old(self).got@ + data@.subrange(0, i as int) + seq![data@[i as int]]
                    =~= old(self).got@ + data@.subrange(0, i + 1));
            }
            i += 1;
        }
        proof {
            assert(data@.subrange(0, data@.len() as int) =~= data@);
        }
        if self.got.len() >= 32 {
            SeedStatus::Ready
        } else if data.len() == 0 {
            SeedStatus::Unreadable
        } else {
            SeedStatus::NeedMore
        }
    }

    /// The reconstructed seed: the first 32 bytes the device returned.
    pub fn seed(&self) -> (r: Vec<u8>)
        requires
            self.got@.len() >= 32,
        ensures
            r@ == self.got@.subrange(0, 32),
    {
        let mut r: Vec<u8> = Vec::new();
        let mut i: usize = 0;
        while i < 32
            invariant
                i <= 32,
                self.got@.len() >= 32,
                r@ == self.got@.subrange(0, i as int),
            decreases 32 - i,
        {
            r.push(self.got[i]);
            proof {
                assert(self.got@.subrange(0, i as int).push(self.got@[i as int])
                    =~= self.got@.subrange(0, i + 1));
            }
            i += 1;
        }
        r
    }
}

} // verus!
