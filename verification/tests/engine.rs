use hddrand::engine::{Filler, Verifier, VerifyStep, CHUNK_LEN};
use hddrand::runs::{fill_to_vec, verify_vec, RunOutcome};
use hddrand::seed::{SeedCollector, SeedStatus};

fn test_seed() -> Vec<u8> {
    let mut s = Vec::new();
    for i in 0..32u8 {
        s.push(i.wrapping_mul(37).wrapping_add(11));
    }
    s
}

#[test]
fn chunk_len_is_device_friendly() {
    assert_eq!(CHUNK_LEN, 8 * 1024 * 1024);
    assert_eq!(CHUNK_LEN % 4096, 0);
}

#[test]
fn determinism_two_independent_fills() {
    let seed = test_seed();
    let a = fill_to_vec(&seed, 64, 1000);
    let b = fill_to_vec(&seed, 64, 1000);
    assert_eq!(a, b);
}

#[test]
fn determinism_across_generation_sizes() {
    // One fill generates the stream in a single 1000-byte call, the other in
    // 64-byte pieces: the bytes laid down are identical.
    let seed = test_seed();
    let whole = fill_to_vec(&seed, 1000, 1000);
    let pieces = fill_to_vec(&seed, 64, 1000);
    assert_eq!(pieces, whole);
}

#[test]
fn generator_really_generates() {
    // If the generator handed its buffer back unchanged, the keystream part
    // of the device would stay zero; a ChaCha keystream is never all zero
    // over 64 bytes.
    let seed = test_seed();
    let dev = fill_to_vec(&seed, 64, 96);
    assert!(dev[32..96].iter().any(|&b| b != 0));
}

#[test]
fn fill_embeds_seed_in_first_32_bytes() {
    let seed = test_seed();
    let dev = fill_to_vec(&seed, 64, 200);
    assert_eq!(dev.len(), 200);
    assert_eq!(&dev[0..32], seed.as_slice());
}

#[test]
fn round_trip_fill_then_verify() {
    let seed = test_seed();
    // 200 is not a multiple of the 64-byte chunk: the last chunk ends short.
    let dev = fill_to_vec(&seed, 64, 200);
    match verify_vec(&dev, 64) {
        RunOutcome::Complete { total } => assert_eq!(total, 200),
        other => panic!("expected a clean pass, got {:?}", other),
    }
}

#[test]
fn round_trip_with_different_chunk_sizes() {
    // The stream does not depend on the chunking: fill with one chunk size,
    // verify with another.
    let seed = test_seed();
    let dev = fill_to_vec(&seed, 96, 500);
    match verify_vec(&dev, 40) {
        RunOutcome::Complete { total } => assert_eq!(total, 500),
        other => panic!("expected a clean pass, got {:?}", other),
    }
}

#[test]
fn mismatch_is_localized_exactly() {
    let seed = test_seed();
    let mut dev = fill_to_vec(&seed, 64, 300);
    let expected_byte = dev[277];
    dev[277] ^= 0x5a;
    match verify_vec(&dev, 64) {
        RunOutcome::Mismatch { offset, expected, found } => {
            assert_eq!(offset, 277);
            assert_eq!(expected, expected_byte);
            assert_eq!(found, expected_byte ^ 0x5a);
        }
        other => panic!("expected a mismatch, got {:?}", other),
    }
}

#[test]
fn mismatch_counts_only_fully_checked_batches() {
    let seed = test_seed();
    let mut dev = fill_to_vec(&seed, 64, 150);
    dev[77] ^= 1;
    let mut v = Verifier::new(&seed, 64);
    let mut consumed = 0usize;
    let mut outcome = None;
    while consumed < dev.len() {
        let room = 64 - v.chunk_offset();
        let n = room.min(10).min(dev.len() - consumed);
        match v.check(&dev[consumed..consumed + n]) {
            VerifyStep::Advanced => consumed += n,
            VerifyStep::Mismatch { offset, expected, found } => {
                outcome = Some((offset, expected, found));
                break;
            }
        }
    }
    let (offset, _expected, found) = outcome.expect("corruption must be detected");
    assert_eq!(offset, 77);
    assert_eq!(found, dev[77]);
    // Batches run 10 bytes at a time but are clipped at the 64-byte chunk
    // boundary, so they cover [0,10) .. [50,60), [60,64), [64,74), [74,84).
    // The one holding the divergence is [74,84): only the 74 bytes of
    // earlier, fully matched batches are counted.
    assert_eq!(v.total_bytes(), 74);
}

#[test]
fn exhaustion_accounting_is_exact() {
    // A device that accepts exactly 100 bytes, in short writes, before
    // reporting out of space: the fill total is 100, not more, not less.
    let seed = test_seed();
    let mut f = Filler::new(&seed, 64);
    let mut accepted = 0u64;
    for n in [30usize, 30, 4, 20, 16] {
        assert!(n <= 64 - f.chunk_offset());
        f.advance(n);
        accepted += n as u64;
    }
    assert_eq!(accepted, 100);
    assert_eq!(f.total_bytes(), 100);
}

#[test]
fn short_transfers_change_nothing() {
    let seed = test_seed();
    // Whole-chunk writes.
    let whole = fill_to_vec(&seed, 64, 256);
    // The same device written through odd-sized partial writes.
    let mut f = Filler::new(&seed, 64);
    let mut dev: Vec<u8> = Vec::new();
    let mut sizes = [7usize, 1, 13, 3, 29, 2].iter().cycle();
    while dev.len() < 256 {
        let room = 64 - f.chunk_offset();
        let n = (*sizes.next().unwrap()).min(room).min(256 - dev.len());
        let off = f.chunk_offset();
        dev.extend_from_slice(&f.chunk()[off..off + n]);
        f.advance(n);
    }
    assert_eq!(dev, whole);

    // And a verify fed the same odd portions still passes cleanly.
    let mut v = Verifier::new(&seed, 64);
    let mut consumed = 0usize;
    while consumed < dev.len() {
        let room = 64 - v.chunk_offset();
        let n = (*sizes.next().unwrap()).min(room).min(dev.len() - consumed);
        match v.check(&dev[consumed..consumed + n]) {
            VerifyStep::Advanced => consumed += n,
            VerifyStep::Mismatch { .. } => panic!("no divergence exists"),
        }
    }
    assert_eq!(v.total_bytes(), 256);
}

#[test]
fn seed_collector_rebuilds_seed_from_short_reads() {
    let seed = test_seed();
    let dev = fill_to_vec(&seed, 64, 100);
    let mut c = SeedCollector::new();
    assert_eq!(c.on_read(&dev[0..7]), SeedStatus::NeedMore);
    assert_eq!(c.on_read(&dev[7..20]), SeedStatus::NeedMore);
    assert_eq!(c.on_read(&dev[20..40]), SeedStatus::Ready);
    assert_eq!(c.seed(), seed);
}

#[test]
fn seed_collector_reports_empty_device() {
    let mut c = SeedCollector::new();
    assert_eq!(c.on_read(&[1, 2, 3]), SeedStatus::NeedMore);
    let empty: [u8; 0] = [];
    assert_eq!(c.on_read(&empty), SeedStatus::Unreadable);
}

#[test]
fn verify_rejects_device_shorter_than_seed() {
    let dev = vec![9u8; 31];
    assert_eq!(verify_vec(&dev, 64), RunOutcome::Unreadable);
}

#[test]
fn random_fill_is_self_describing() {
    // A fill under a freshly drawn random seed still embeds its seed: the
    // bytes it writes verify cleanly with no seed passed along.
    let mut f = Filler::new_random(64);
    let mut dev: Vec<u8> = Vec::new();
    while dev.len() < 100 {
        let off = f.chunk_offset();
        let n = (64 - off).min(100 - dev.len());
        dev.extend_from_slice(&f.chunk()[off..off + n]);
        f.advance(n);
    }
    assert_eq!(f.total_bytes(), 100);
    match verify_vec(&dev, 64) {
        RunOutcome::Complete { total } => assert_eq!(total, 100),
        other => panic!("expected a clean pass, got {:?}", other),
    }
}

#[test]
fn counter_sampling_does_not_interfere() {
    // The same verify run, once undisturbed and once with the running totals
    // sampled after every step as a progress reporter would: identical
    // outcome and identical totals.
    let seed = test_seed();
    let mut dev = fill_to_vec(&seed, 64, 200);
    dev[130] ^= 0xff;

    let run = |sample: bool| {
        let mut v = Verifier::new(&seed, 64);
        let mut consumed = 0usize;
        let mut samples = Vec::new();
        loop {
            if consumed >= dev.len() {
                return (None, v.total_bytes(), samples);
            }
            let room = 64 - v.chunk_offset();
            let n = room.min(9).min(dev.len() - consumed);
            match v.check(&dev[consumed..consumed + n]) {
                VerifyStep::Advanced => consumed += n,
                VerifyStep::Mismatch { offset, expected, found } => {
                    return (Some((offset, expected, found)), v.total_bytes(), samples);
                }
            }
            if sample {
                samples.push(v.total_bytes());
            }
        }
    };

    let (out_quiet, total_quiet, _) = run(false);
    let (out_sampled, total_sampled, samples) = run(true);
    assert_eq!(out_quiet, out_sampled);
    assert_eq!(total_quiet, total_sampled);
    assert!(!samples.is_empty());
}
