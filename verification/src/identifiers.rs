//! Identifiers: 128-bit values, drawn at random when a record is created.

use vstd::prelude::*;

verus! {

/// The bits of an identifier that hold its version and its variant.
pub const MARK_BITS: u128 = 0x0000_0000_0000_f000_c000_0000_0000_0000;

/// What those bits hold in a randomly drawn identifier: version 4, and the
/// variant of RFC 9562.
pub const RANDOM_MARK: u128 = 0x0000_0000_0000_4000_8000_0000_0000_0000;

/// `id` carries the version and variant of a randomly drawn identifier.
pub open spec fn is_random_identifier(id: u128) -> bool {
    (id & MARK_BITS) == RANDOM_MARK
}

/// Draws an identifier with `uuid::Uuid::new_v4` and hands it out as the
/// 128-bit number that `Uuid::as_u128` gives for it.
///
/// Trusted, not proved: that the number carries version 4 and the RFC 9562
/// variant, which `new_v4` sets in every identifier it returns. Which number
/// comes back is left open: it is random, and two calls may well differ.
/// `new_v4` aborts when the operating system cannot supply random bytes.
#[verifier::external_body]
pub(crate) fn fresh_identifier() -> (id: u128)
    ensures
        is_random_identifier(id),
{
    uuid::Uuid::new_v4().as_u128()
}

} // verus!
