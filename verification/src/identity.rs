//! Where fresh identifiers come from.

use uuid::Uuid;
use vstd::prelude::*;

verus! {

/// The bits of an identifier that hold the UUID version and variant.
pub const VERSION_AND_VARIANT_BITS: u128 = 0x0000_0000_0000_f000_c000_0000_0000_0000;

/// What those bits hold in a random (version 4) UUID of the standard
/// variant.
pub const RANDOM_VERSION_AND_VARIANT: u128 = 0x0000_0000_0000_4000_8000_0000_0000_0000;

/// Whether `id` has the layout of a random (version 4) UUID.
pub open spec fn is_random_uuid(id: u128) -> bool {
    id & VERSION_AND_VARIANT_BITS == RANDOM_VERSION_AND_VARIANT
}

/// Draws an identifier with `uuid::Uuid::new_v4` and hands it out as the
/// number `uuid::Uuid::as_u128` packs it into. Which identifier comes
/// back is left to chance; every one of them carries the version and
/// variant bits of a random UUID.
#[verifier::external_body]
pub(crate) fn fresh_id() -> (id: u128)
    ensures
        is_random_uuid(id),
{
    Uuid::new_v4().as_u128()
}

} // verus!
