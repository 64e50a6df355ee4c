//! Whole runs against an in-memory device.
//!
//! These drivers compose the seed manager, the stream generator and the two
//! engines over a device held as a byte vector: what a fill deposits on a
//! device of a given capacity, and what a verify of given device contents
//! reports. Device-backed runs in the surrounding program follow the same
//! steps, with the reads and writes performed on a file handle instead.

use vstd::prelude::*;
use crate::engine::{Filler, Verifier, VerifyStep};
use crate::seed::SeedCollector;
use crate::stream::{stream_byte, stream_prefix};
use crate::laws::{device_matches, device_seed};

verus! {

/// How a run against a device ends.
#[derive(Clone, Copy, Debug, PartialEq, Eq, Structural)]
pub enum RunOutcome {
    /// The run reached the end of the device cleanly; `total` bytes were
    /// transferred and, for a verify, confirmed.
    Complete { total: u64 },
    /// A verify found the device diverging from its stream: first at
    /// `offset`, where the stream holds `expected` but the device `found`.
    Mismatch { offset: u64, expected: u8, found: u8 },
    /// A verify could not accumulate the 32 seed bytes: the device is
    /// shorter than a seed.
    Unreadable,
}

/// Exactly when `r` is a correct report for a verify of device contents
/// `dev`: a too-short device is unreadable; a clean pass covers the whole
/// device and confirms it matches the stream of its own first 32 bytes; a
/// mismatch names the first diverging offset together with the stream byte
/// expected there and the byte found.
pub open spec fn verify_report_ok(dev: Seq<u8>, r: RunOutcome) -> bool {
    if dev.len() < 32 {
        r == RunOutcome::Unreadable
    } else {
        match r {
            RunOutcome::Complete { total } => {
                &&& total == dev.len()
                &&& device_matches(device_seed(dev), dev)
            },
            RunOutcome::Mismatch { offset, expected, found } => {
                &&& 32 <= offset < dev.len()
                &&& forall|j: int| 0 <= j < offset ==> dev[j] == stream_byte(device_seed(dev), j)
                &&& dev[offset as int] != stream_byte(device_seed(dev), offset as int)
                &&& expected == stream_byte(device_seed(dev), offset as int)
                &&& found == dev[offset as int]
            },
            RunOutcome::Unreadable => false,
        }
    }
}

/// Non-interference of observers: the report of a verify is a function of
/// the device contents alone — any two correct reports for the same contents
/// are equal — so progress sampling, scheduling, or anything else outside
/// the data can change neither the outcome nor the totals it carries.
pub proof fn lemma_verify_report_unique(dev: Seq<u8>, r1: RunOutcome, r2: RunOutcome)
    requires
        verify_report_ok(dev, r1),
        verify_report_ok(dev, r2),
    ensures
        r1 == r2,
{
    if dev.len() >= 32 {
        match r1 {
            RunOutcome::Complete { total: t1 } => {
                match r2 {
                    RunOutcome::Complete { total: t2 } => {
                        assert(t1 == t2);
                    },
                    RunOutcome::Mismatch { offset: o2, .. } => {
                        assert(dev[o2 as int] == stream_byte(device_seed(dev), o2 as int));
                    },
                    RunOutcome::Unreadable => {},
                }
            },
            RunOutcome::Mismatch { offset: o1, expected: e1, found: f1 } => {
                match r2 {
                    RunOutcome::Complete { .. } => {
                        assert(dev[o1 as int] == stream_byte(device_seed(dev), o1 as int));
                    },
                    RunOutcome::Mismatch { offset: o2, expected: e2, found: f2 } => {
                        if o1 < o2 {
                            assert(dev[o1 as int] == stream_byte(device_seed(dev), o1 as int));
                        }
                        if o2 < o1 {
                            assert(dev[o2 as int] == stream_byte(device_seed(dev), o2 as int));
                        }
                        assert(o1 == o2 && e1 == e2 && f1 == f2);
                    },
                    RunOutcome::Unreadable => {},
                }
            },
            RunOutcome::Unreadable => {},
        }
    }
}

/// Round trip: for a device a fill has just covered with the first `n`
/// bytes of a stream, the only correct verify report is a clean pass over
/// all `n` of them — never a mismatch, and with the verified count equal to
/// the written count.
pub proof fn lemma_round_trip_report(seed: Seq<u8>, n: int, r: RunOutcome)
    requires
        seed.len() == 32,
        32 <= n <= u64::MAX,
        verify_report_ok(stream_prefix(seed, n), r),
    ensures
        r == (RunOutcome::Complete { total: n as u64 }),
{
    let dev = stream_prefix(seed, n);
    crate::laws::lemma_round_trip(seed, n);
    match r {
        RunOutcome::Complete { total } => {
            assert(total == n);
        },
        RunOutcome::Mismatch { offset, .. } => {
            assert(dev[offset as int] == stream_byte(seed, offset as int));
            assert(device_seed(dev) == seed);
        },
        RunOutcome::Unreadable => {
            assert(dev.len() >= 32);
        },
    }
}

/// Fills an in-memory device of `capacity` bytes: returns exactly the first
/// `capacity` bytes of the stream of `seed`, the image a device-backed fill
/// leaves behind when the device reports out of space after `capacity`
/// accepted bytes.
pub fn fill_to_vec(seed: &Vec<u8>, chunk_len: usize, capacity: usize) -> (r: Vec<u8>)
    requires
        seed@.len() == 32,
        32 <= chunk_len,
        chunk_len % 4 == 0,
    ensures
        r@ == stream_prefix(seed@, capacity as int),
{
    let mut f = Filler::new(seed, chunk_len);
    let mut dev: Vec<u8> = Vec::new();
    while dev.len() < capacity
        invariant
            f.wf(),
            f.seed@ == seed@,
            f.buf@.len() == chunk_len,
            f.done < chunk_len,
            dev@.len() <= capacity,
            f.total == dev@.len(),
            forall|j: int| 0 <= j < dev@.len() ==> dev@[j] == stream_byte(seed@, j),
        decreases capacity - dev.len(),
    {
        let room = chunk_len - f.chunk_offset();
        let left = capacity - dev.len();
        let n = if room < left {
            room
        } else {
            left
        };
        let mut j: usize = 0;
        while j < n
            invariant
                f.wf(),
                f.buf@.len() == chunk_len,
                j <= n,
                n <= chunk_len - f.done,
                dev@.len() == f.total + j,
                dev@.len() + (n - j) <= capacity,
                f.seed@ == seed@,
                forall|k: int| 0 <= k < dev@.len() ==> dev@[k] == stream_byte(seed@, k),
            decreases n - j,
        {
            let b = f.chunk()[f.chunk_offset() + j];
            proof {
                assert(f.buf@[f.done + j] == stream_byte(seed@, f.chunk_start() + f.done + j));
            }
            dev.push(b);
            j += 1;
        }
        f.advance(n);
    }
    proof {
        assert(dev@ =~= stream_prefix(seed@, capacity as int));
    }
    dev
}

/// Verifies in-memory device contents against the stream they describe:
/// reconstructs the seed from the first 32 bytes, regenerates the stream,
/// and reports either a clean pass over the whole device, or the first
/// diverging offset with both byte values, or that the device is too short
/// to carry a seed.
pub fn verify_vec(dev: &Vec<u8>, chunk_len: usize) -> (r: RunOutcome)
    requires
        32 <= chunk_len,
        chunk_len % 4 == 0,
    ensures
        verify_report_ok(dev@, r),
{
    if dev.len() < 32 {
        return RunOutcome::Unreadable;
    }
    let mut c = SeedCollector::new();
    let _status = c.on_read(dev.as_slice());
    proof {
        assert(c.got@ =~= dev@);
    }
    let seed = c.seed();
    proof {
        assert(seed@ == device_seed(dev@));
    }
    let mut v = Verifier::new(&seed, chunk_len);
    let mut consumed: usize = 0;
    while consumed < dev.len()
        invariant
            v.wf(),
            v.seed@ == device_seed(dev@),
            v.expect@.len() == chunk_len,
            v.done < chunk_len,
            dev@.len() >= 32,
            consumed <= dev@.len(),
            v.total == consumed,
            forall|j: int| 0 <= j < consumed ==> dev@[j] == stream_byte(device_seed(dev@), j),
        decreases dev@.len() - consumed,
    {
        let room = chunk_len - v.chunk_offset();
        let left = dev.len() - consumed;
        let n = if room < left {
            room
        } else {
            left
        };
        let batch = &dev.as_slice()[consumed..consumed + n];
        match v.check(batch) {
            VerifyStep::Advanced => {
                proof {
                    let seedv = device_seed(dev@);
                    assert forall|j: int|
                        consumed <= j < consumed + n implies dev@[j] == stream_byte(seedv, j) by {
                        assert(batch@[j - consumed] == dev@[j]);
                        assert(batch@[j - consumed] == stream_byte(seedv, consumed + (j - consumed)));
                    }
                }
                consumed = consumed + n;
            },
            VerifyStep::Mismatch { offset, expected, found } => {
                proof {
                    let seedv = device_seed(dev@);
                    let k = offset - consumed;
                    assert(batch@[k] == dev@[consumed + k]);
                    assert forall|j: int| 0 <= j < offset implies dev@[j] == stream_byte(
                        seedv,
                        j,
                    ) by {
                        if j >= consumed {
                            assert(batch@[j - consumed] == dev@[j]);
                            assert(batch@[j - consumed] == stream_byte(seedv, consumed + (j - consumed)));
                        }
                    }
                    assert(offset >= 32) by {
                        if offset < 32 {
                            assert(stream_byte(seedv, offset as int) == seedv[offset as int]);
                            assert(seedv[offset as int] == dev@[offset as int]);
                        }
                    }
                }
                return RunOutcome::Mismatch { offset, expected, found };
            },
        }
    }
    RunOutcome::Complete { total: v.total_bytes() }
}

} // verus!
