//! The two cryptographic primitives that derivation rests on: SHA-256 from
//! `sha2` and the ChaCha20 generator from `rand_chacha`.
//!
//! Nothing in this file is proved. Each function makes one call into its crate,
//! and its contract says over the names below which bytes went in and which
//! came out. What the digest or the key stream of given bytes is, no contract
//! says.

use rand_chacha::ChaCha20Rng;
use rand_core::{RngCore, SeedableRng};
use sha2::{Digest, Sha256};
use vstd::prelude::*;

verus! {

/// The SHA-256 digest of `data`.
pub uninterp spec fn sha256_digest(data: Seq<u8>) -> Seq<u8>;

/// The bytes that a ChaCha20 generator with this key and stream identifier
/// gives out next when it stands `word_pos` 32-bit words into its stream and
/// is asked for `len` bytes.
pub uninterp spec fn chacha20_keystream(key: Seq<u8>, stream: u64, word_pos: u128, len: nat) -> Seq<
    u8,
>;

/// The key that a generator was made with (`get_seed`).
pub uninterp spec fn generator_key(generator: ChaCha20Rng) -> Seq<u8>;

/// The stream identifier of a generator (`get_stream`).
pub uninterp spec fn generator_stream(generator: ChaCha20Rng) -> u64;

/// How far a generator is into its stream, in 32-bit words (`get_word_pos`).
pub uninterp spec fn generator_word_pos(generator: ChaCha20Rng) -> u128;

/// `rand_chacha::ChaCha20Rng`. The library carries it from keying to drawing.
/// Its key, stream identifier and position are what `rand_chacha` itself
/// takes for the whole state of a generator: its `==` compares these three.
#[verifier::external_type_specification]
#[verifier::external_body]
pub struct ExChaCha20Rng(ChaCha20Rng);

/// Calls `sha2::Sha256::digest`, which hashes `data` in one step.
///
/// Trusted: the 32 bytes returned are the SHA-256 digest of `data`, a function
/// of `data` alone.
#[verifier::external_body]
pub(crate) fn sha256(data: &[u8]) -> (digest: [u8; 32])
    ensures
        digest@ == sha256_digest(data@),
{
    Sha256::digest(data).into()
}

/// Calls `ChaCha20Rng::from_seed` (`rand_core::SeedableRng`).
///
/// Trusted: the generator holds `key`, and its stream identifier and position
/// are zero, as `rand_chacha` documents of a new generator.
#[verifier::external_body]
pub(crate) fn keyed_generator(key: [u8; 32]) -> (generator: ChaCha20Rng)
    ensures
        generator_key(generator) == key@,
        generator_stream(generator) == 0,
        generator_word_pos(generator) == 0,
{
    ChaCha20Rng::from_seed(key)
}

/// Calls `fill_bytes` (`rand_core::RngCore`) of `ChaCha20Rng` on the whole of `dest`.
///
/// Trusted: the bytes written are the next bytes of the generator's stream,
/// which its key, stream identifier and position before the call determine.
/// Nothing is claimed of the generator after the call.
#[verifier::external_body]
pub(crate) fn fill_bytes<const N: usize>(generator: &mut ChaCha20Rng, dest: &mut [u8; N])
    ensures
        final(dest)@ == chacha20_keystream(
            generator_key(*old(generator)),
            generator_stream(*old(generator)),
            generator_word_pos(*old(generator)),
            N as nat,
        ),
{
    generator.fill_bytes(dest);
}

} // verus!
