//! The seed itself, what every source of seeds offers, and the reading of a
//! seed from little-endian bytes.

use vstd::prelude::*;

verus! {

/// A 128-bit value that initialises a generator. Nothing inside it means
/// anything to this library.
#[derive(Debug, Clone, Copy, PartialEq, Eq, Structural)]
pub struct Seed(pub u128);

/// What every source of seeds offers.
pub trait Seeder {
    /// A seed. A source may draw on the hardware or the operating system for
    /// it, and may take its time.
    fn seed(&mut self) -> Seed;

    /// Whether sources of this type can be used on this host now. It is asked
    /// of the type, needs no source to have been made, and draws no entropy.
    fn is_available() -> bool where Self: Sized;
}

/// The number that `bytes` spell with the least significant byte first.
pub open spec fn le_value(bytes: Seq<u8>) -> nat
    decreases bytes.len(),
{
    if bytes.len() == 0 {
        0
    } else {
        bytes[0] as nat + 256 * le_value(bytes.drop_first())
    }
}

/// 256 to the power of `digits`.
pub open spec fn radix_power(digits: nat) -> nat
    decreases digits,
{
    if digits == 0 {
        1
    } else {
        256 * radix_power((digits - 1) as nat)
    }
}

/// A number of `n` little-endian bytes is below `256^n`.
pub proof fn lemma_le_value_bound(bytes: Seq<u8>)
    ensures
        le_value(bytes) < radix_power(bytes.len()),
    decreases bytes.len(),
{
    if bytes.len() > 0 {
        lemma_le_value_bound(bytes.drop_first());
    }
}

/// More digits give a power that is no smaller.
pub proof fn lemma_radix_power_monotonic(few: nat, many: nat)
    requires
        few <= many,
    ensures
        radix_power(few) <= radix_power(many),
    decreases many,
{
    if few < many {
        lemma_radix_power_monotonic(few, (many - 1) as nat);
    }
}

/// Up to sixteen bytes spell a number that fits a seed.
pub proof fn lemma_le_value_fits(bytes: Seq<u8>)
    requires
        bytes.len() <= 16,
    ensures
        le_value(bytes) <= u128::MAX,
{
    lemma_le_value_bound(bytes);
    lemma_radix_power_monotonic(bytes.len(), 16);
    assert(radix_power(16) == 0x1_0000_0000_0000_0000_0000_0000_0000_0000) by {
        reveal_with_fuel(radix_power, 17);
    }
}

impl Seed {
    /// The seed that sixteen bytes spell, least significant byte first.
    pub fn from_le_bytes(bytes: &[u8; 16]) -> (seed: Seed)
        ensures
            seed.0 == le_value(bytes@),
    {
        let mut value: u128 = 0;
        let mut i: usize = 16;
        while i > 0
            invariant
                i <= 16,
                value == le_value(bytes@.subrange(i as int, 16)),
            decreases i,
        {
            let ghost read = bytes@.subrange(i as int, 16);
            i -= 1;
            proof {
                let longer = bytes@.subrange(i as int, 16);
                assert(longer.drop_first() =~= read);
                lemma_le_value_fits(longer);
            }
            value = value * 256 + bytes[i] as u128;
        }
        assert(bytes@.subrange(0, 16) =~= bytes@);
        Seed(value)
    }
}

} // verus!
