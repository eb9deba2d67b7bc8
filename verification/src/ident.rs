//! Minting identifiers for new orders.

use vstd::prelude::*;

verus! {

/// The bits that mark a 128-bit identifier as randomly generated: the
/// version field reads four and the variant field reads binary one-zero.
pub open spec fn is_random_id(id: u128) -> bool {
    id & 0x0000_0000_0000_f000_c000_0000_0000_0000 == 0x0000_0000_0000_4000_8000_0000_0000_0000
}

/// A randomly generated identifier is never the nil identifier.
pub proof fn lemma_random_id_not_nil(id: u128)
    requires
        is_random_id(id),
    ensures
        id != 0,
{
    assert(0u128 & 0x0000_0000_0000_f000_c000_0000_0000_0000 == 0) by (bit_vector);
}

/// Calls `uuid::Uuid::new_v4` and returns the identifier as the number its
/// bytes spell in big-endian order (`Uuid::as_u128`).
///
/// Trusted: the result carries the version and variant bits of a random
/// identifier, which `new_v4` sets by masking. Nothing is claimed about the
/// remaining 122 bits, which come from the operating system's random source;
/// `new_v4` panics if that source cannot be read.
#[verifier::external_body]
fn random_uuid() -> (id: u128)
    ensures
        is_random_id(id),
{
    uuid::Uuid::new_v4().as_u128()
}

/// Mints an identifier for a new order. Whatever the random source gave, the
/// identifier is marked as random and is not nil.
pub fn mint() -> (id: u128)
    ensures
        is_random_id(id),
        id != 0,
{
    let id = random_uuid();
    proof {
        lemma_random_id_not_nil(id);
    }
    id
}

} // verus!
