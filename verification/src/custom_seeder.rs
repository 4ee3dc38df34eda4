//! The seeder that derives its seed from a context string.

use crate::primitives::{chacha20_keystream, fill_bytes, keyed_generator, sha256, sha256_digest};
use crate::seed::{le_value, Seed, Seeder};
use vstd::prelude::*;
use vstd::utf8::encode_utf8;

verus! {

/// The context of a seeder that was given none.
pub const DEFAULT_CONTEXT: &'static str = "some-default-string-that-is-long";

/// A seeder whose seed is a function of a context string.
#[derive(Debug)]
pub struct CustomSeeder {
    context: Option<String>,
}

/// The context that derivation works on: the one given, or the default.
pub open spec fn resolved_context(context: Option<Seq<char>>) -> Seq<char> {
    match context {
        Some(given) => given,
        None => DEFAULT_CONTEXT@,
    }
}

/// The seed of a context: the first sixteen bytes, read least significant byte
/// first, of the ChaCha20 generator keyed with the SHA-256 digest of the
/// context's UTF-8 bytes.
pub open spec fn derived_seed(context: Option<Seq<char>>) -> Seed {
    let key = sha256_digest(encode_utf8(resolved_context(context)));
    Seed(le_value(chacha20_keystream(key, 0, 0, 16)) as u128)
}

impl View for CustomSeeder {
    type V = Option<Seq<char>>;

    closed spec fn view(&self) -> Option<Seq<char>> {
        match self.context {
            Some(given) => Some(given@),
            None => None,
        }
    }
}

impl Clone for CustomSeeder {
    /// A seeder of its own with the same context.
    fn clone(&self) -> (copy: Self)
        ensures
            copy@ == self@,
    {
        match &self.context {
            Some(given) => CustomSeeder { context: Some(given.clone()) },
            None => CustomSeeder { context: None },
        }
    }
}

impl CustomSeeder {
    /// A seeder with the given context, or with none.
    pub fn new(context: Option<String>) -> (seeder: Self)
        ensures
            seeder@ == (match context {
                Some(given) => Some(given@),
                None => None,
            }),
    {
        CustomSeeder { context }
    }

    /// Replaces the context, whatever it was.
    pub fn set_seed(&mut self, seed: String)
        ensures
            final(self)@ == Some(seed@),
    {
        self.context = Some(seed);
    }
}

impl Seeder for CustomSeeder {
    /// The seed of this seeder's context. The seeder is left as it was.
    fn seed(&mut self) -> (seed: Seed)
        ensures
            seed == derived_seed(old(self)@),
            final(self)@ == old(self)@,
    {
        let key = match &self.context {
            Some(given) => sha256(given.as_str().as_bytes()),
            None => sha256(DEFAULT_CONTEXT.as_bytes()),
        };
        let mut generator = keyed_generator(key);
        let mut seed_bytes = [0u8; 16];
        fill_bytes(&mut generator, &mut seed_bytes);
        Seed::from_le_bytes(&seed_bytes)
    }

    /// Always: derivation needs nothing of the host.
    fn is_available() -> (available: bool)
        ensures
            available,
    {
        true
    }
}

/// Determinism. The seed of a seeder is a function of its context and of
/// nothing else: two seeders that hold the same context give the same seed, in
/// one process or in two, whatever either of them held before.
pub proof fn lemma_same_context_same_seed(first: CustomSeeder, second: CustomSeeder)
    requires
        first@ == second@,
    ensures
        derived_seed(first@) == derived_seed(second@),
{
}

/// A seeder that was never given a context gives the seed of a seeder that
/// was given the default context.
pub proof fn lemma_unset_context_is_default(unset: CustomSeeder, configured: CustomSeeder)
    requires
        unset@ is None,
        configured@ == Some(DEFAULT_CONTEXT@),
    ensures
        derived_seed(unset@) == derived_seed(configured@),
{
}

/// Sets the context of the process-wide seeder, from which the deterministic
/// context seeders that are handed out afterwards are copied. What it held
/// before is gone.
pub fn set_custom_seeder(registry: &mut CustomSeeder, seed: String)
    ensures
        final(registry)@ == Some(seed@),
{
    registry.set_seed(seed)
}

} // verus!
