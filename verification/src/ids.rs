//! Record identifiers: UUIDs held as their 128-bit big-endian value.
use vstd::prelude::*;

verus! {

/// A UUID, as the `u128` that `uuid::Uuid::as_u128` gives.
pub type Id = u128;

/// The version number that a UUID carries in bits 76 to 79 of its `u128` value.
pub open spec fn uuid_version(id: Id) -> u128 {
    (id >> 76u128) & 0xfu128
}

/// `uuid::Uuid::new_v4()`, a random UUID, as its `u128` value.
///
/// Claimed: the value carries version 4 (`new_v4` masks the version bits and ORs
/// in `0x4000_8000_0000_0000_0000`). Which value comes back is left open: it is random.
#[verifier::external_body]
pub(crate) fn new_v4_id() -> (r: Id)
    ensures
        uuid_version(r) == 4,
{
    uuid::Uuid::new_v4().as_u128()
}

/// `uuid::Uuid::now_v7()`, a UUID made from the current time and random bits, as
/// its `u128` value.
///
/// Claimed: the value carries version 7 (`new_v7` builds it through
/// `encode_unix_timestamp_millis`, which ORs `0x7 << 12` into the version field). Which value comes
/// back is left open: it depends on the clock and on chance.
#[verifier::external_body]
pub(crate) fn now_v7_id() -> (r: Id)
    ensures
        uuid_version(r) == 7,
{
    uuid::Uuid::now_v7().as_u128()
}

/// `uuid::Uuid::new_v4().to_string()`: a random UUID in its hyphenated form.
///
/// Claimed: 36 characters (`Display` for `Uuid` writes the hyphenated form). Which
/// UUID is left open: it is random.
#[verifier::external_body]
pub(crate) fn random_uuid_string() -> (r: String)
    ensures
        r@.len() == 36,
{
    uuid::Uuid::new_v4().to_string()
}

} // verus!
