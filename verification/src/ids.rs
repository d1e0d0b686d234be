//! Fresh random identifiers.

use vstd::prelude::*;

verus! {

/// Whether `id` carries the version-4 (random) and RFC 4122 variant bits of a
/// UUID read as a big-endian 128-bit value: version nibble 4, variant bits `10`.
pub open spec fn is_v4_uuid(id: u128) -> bool {
    id & 0xF000C000000000000000u128 == 0x40008000000000000000u128
}

/// Draws a fresh random (version 4) UUID through `uuid::Uuid::new_v4` and
/// hands back its 128-bit value. Claimed: the version and variant bits that
/// `new_v4` always sets. The other bits rest on chance and are not stated.
#[verifier::external_body]
pub(crate) fn fresh_id() -> (r: u128)
    ensures
        is_v4_uuid(r),
{
    uuid::Uuid::new_v4().as_u128()
}

} // verus!
