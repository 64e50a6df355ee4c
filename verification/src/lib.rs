//! A deterministic stream fill/verify engine for sanitizing and checking
//! raw block devices.
//!
//! A fill covers a device, from offset zero until it is full, with a
//! reproducible pseudorandom byte stream whose 32-byte seed is embedded as
//! the stream's own first 32 bytes. A verify reconstructs the seed from
//! those bytes and checks that the device still holds exactly that stream,
//! locating the first diverging byte if not. The engines here own the seed
//! handling, chunked stream generation, comparison and byte accounting;
//! the surrounding program supplies the device reads and writes and a
//! progress display.

pub mod stream;
pub mod engine;
pub mod seed;
pub mod laws;
pub mod runs;
