//! Trusted bindings to bp7 and to the system clock: each item names the
//! outside function it relies on, and each result that depends on its
//! arguments alone gets a name below.

use vstd::prelude::*;
use bp7::crc::{CrcBlock, CrcValue};
use bp7::primary::PrimaryBlock;
use bp7::{Bundle, CanonicalData, EndpointID, BUNDLE_AGE_BLOCK, PAYLOAD_BLOCK};
use std::time::{SystemTime, UNIX_EPOCH};

verus! {

#[verifier::external_type_specification]
#[verifier::external_body]
pub struct ExBundle(Bundle);

#[verifier::external_type_specification]
#[verifier::external_body]
pub struct ExEndpointID(EndpointID);

#[verifier::external_type_specification]
#[verifier::external_body]
pub struct ExPrimaryBlock(PrimaryBlock);

#[verifier::external_type_specification]
#[verifier::external_body]
pub struct ExBp7Error(bp7::error::Error);

/// The public `primary` field of a bundle: its primary block.
pub uninterp spec fn primary_of(b: Bundle) -> PrimaryBlock;

/// The identity text that `Bundle::id` builds from a primary block.
pub uninterp spec fn id_of(p: PrimaryBlock) -> Seq<char>;

/// The length of the encoding that `Bundle::to_cbor` produces.
pub uninterp spec fn encoded_len_of(b: Bundle) -> nat;

/// The destination held in a primary block.
pub uninterp spec fn destination_in(p: PrimaryBlock) -> EndpointID;

/// Whether an endpoint equals `EndpointID::none()`.
pub uninterp spec fn is_none_eid(e: EndpointID) -> bool;

/// The age held by the first valid Bundle Age block, if there is one and it
/// carries age data.
pub uninterp spec fn age_in(b: Bundle) -> Option<u64>;

/// For the primary block and then each canonical block, whether its CRC
/// value is of a type bp7 knows (not `CrcValue::Unknown`).
pub uninterp spec fn crc_known_of(b: Bundle) -> Seq<bool>;

/// The bundle that `TryFrom<ByteBuffer>` decodes from `bytes`, if any.
pub uninterp spec fn decoded(bytes: Seq<u8>) -> Option<Bundle>;

/// The data of the first valid payload block, if it carries data.
pub uninterp spec fn payload_of(b: Bundle) -> Option<Seq<u8>>;

/// Whether bp7 can compute and write every CRC of `b`, so that encoding it
/// cannot fail on an unknown CRC type.
pub open spec fn encodable(b: Bundle) -> bool {
    forall|i: int| 0 <= i < crc_known_of(b).len() ==> #[trigger] crc_known_of(b)[i]
}

/// Relies on bp7's derived `Clone` for `Bundle`: a field by field copy.
pub assume_specification[ <Bundle as Clone>::clone ](b: &Bundle) -> (r: Bundle)
    ensures
        r == *b,
;

/// Relies on bp7's derived `Clone` for `EndpointID`: a field by field copy.
pub assume_specification[ <EndpointID as Clone>::clone ](e: &EndpointID) -> (r: EndpointID)
    ensures
        r == *e,
;

/// Relies on `bp7::Bundle`'s `TryFrom<ByteBuffer>`: decodes CBOR bytes into
/// a bundle, or reports why they are not one.
#[verifier::external_body]
pub(crate) fn decode_bundle(bytes: Vec<u8>) -> (r: Result<Bundle, bp7::error::Error>)
    ensures
        match r {
            Ok(b) => decoded(bytes@) == Some(b),
            Err(_) => decoded(bytes@) is None,
        },
{
    Bundle::try_from(bytes)
}

/// Relies on `bp7::Bundle::extension_block_by_type` and
/// `CanonicalBlock::payload_data`: the bytes of the payload block, if the
/// bundle has one that carries data.
#[verifier::external_body]
pub(crate) fn payload_bytes(b: &Bundle) -> (r: Option<Vec<u8>>)
    ensures
        match r {
            Some(v) => payload_of(*b) == Some(v@),
            None => payload_of(*b) is None,
        },
{
    b.extension_block_by_type(PAYLOAD_BLOCK).and_then(|blk| blk.payload_data()).cloned()
}

/// Relies on `bp7::Bundle::id`: the text identity built from the primary
/// block's source, creation time, sequence number and fragment offset.
#[verifier::external_body]
pub(crate) fn bundle_id(b: &Bundle) -> (r: String)
    ensures
        r@ == id_of(primary_of(*b)),
{
    b.id()
}

/// Relies on `bp7::crc::CrcBlock::crc_value`: for the primary block and
/// then each canonical block, whether its CRC value is a known variant.
#[verifier::external_body]
pub(crate) fn crc_known(b: &Bundle) -> (r: Vec<bool>)
    ensures
        r@ == crc_known_of(*b),
{
    std::iter::once(b.primary.crc_value())
        .chain(b.canonicals.iter().map(|c| c.crc_value()))
        .map(|v| match v {
            CrcValue::CrcNo => true,
            CrcValue::Crc16Empty => true,
            CrcValue::Crc32Empty => true,
            CrcValue::Crc16(_) => true,
            CrcValue::Crc32(_) => true,
            CrcValue::Unknown(_) => false,
        })
        .collect()
}

/// Relies on `bp7::Bundle::to_cbor`, applied to a copy: the length of the
/// bundle's encoding. It panics on a CRC type it cannot compute, which
/// `encodable` leaves out.
#[verifier::external_body]
pub(crate) fn encoded_len(b: &Bundle) -> (r: usize)
    requires
        encodable(*b),
    ensures
        r as nat == encoded_len_of(*b),
{
    b.clone().to_cbor().len()
}

/// Relies on the public `primary.destination` field of `bp7::Bundle`.
#[verifier::external_body]
pub(crate) fn destination_of(b: &Bundle) -> (r: EndpointID)
    ensures
        r == destination_in(primary_of(*b)),
{
    b.primary.destination.clone()
}

/// Relies on `bp7::EndpointID::none` and its derived `==`: whether `e` is
/// the null endpoint.
#[verifier::external_body]
pub(crate) fn is_null_endpoint(e: &EndpointID) -> (r: bool)
    ensures
        r == is_none_eid(*e),
{
    *e == EndpointID::none()
}

/// Relies on `bp7::Bundle::extension_block_by_type` and
/// `CanonicalBlock::data`: the age held by the bundle's age block, if any.
#[verifier::external_body]
pub(crate) fn stored_bundle_age(b: &Bundle) -> (r: Option<u64>)
    ensures
        r == age_in(*b),
{
    match b.extension_block_by_type(BUNDLE_AGE_BLOCK).map(|blk| blk.data()) {
        Some(CanonicalData::BundleAge(age)) => Some(*age),
        _ => None,
    }
}

/// Relies on `bp7::Bundle::extension_block_by_type_mut` and
/// `CanonicalBlock::set_data`: writes `age` into the same age block that
/// `stored_bundle_age` reads, and touches neither the primary block, nor
/// any CRC, nor the payload block.
#[verifier::external_body]
pub(crate) fn write_bundle_age(b: &mut Bundle, age: u64)
    requires
        age_in(*old(b)) is Some,
    ensures
        age_in(*final(b)) == Some(age),
        primary_of(*final(b)) == primary_of(*old(b)),
        crc_known_of(*final(b)) == crc_known_of(*old(b)),
        payload_of(*final(b)) == payload_of(*old(b)),
{
    if let Some(blk) = b.extension_block_by_type_mut(BUNDLE_AGE_BLOCK) {
        blk.set_data(CanonicalData::BundleAge(age));
    }
}

/// Relies on `std::time::SystemTime::now` and `duration_since`:
/// milliseconds since the Unix epoch, or `None` for a clock set before it.
#[verifier::external_body]
pub(crate) fn now_millis() -> (r: Option<u64>) {
    SystemTime::now().duration_since(UNIX_EPOCH).ok().map(|d| d.as_millis() as u64)
}

} // verus!
