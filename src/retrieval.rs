use vstd::prelude::*;
use crate::bindings::{decode_bundle, decoded, payload_bytes, payload_of};

verus! {

/// Bodies of at most this many bytes cannot hold an encoded bundle and mean
/// that nothing was available.
pub const MIN_BUNDLE_BODY: usize = 50;

/// Why a retrieved body yielded no payload.
#[derive(Debug, Clone, Copy, PartialEq, Eq, Structural)]
pub enum FetchError {
    /// The bytes are not an encoded bundle.
    Decode,
    /// The bundle decoded but has no payload block carrying data.
    MissingPayload,
}

/// Whether a response body of `len` bytes can hold a bundle.
pub fn holds_bundle(len: usize) -> (r: bool)
    ensures
        r == (len > MIN_BUNDLE_BODY),
{
    len > MIN_BUNDLE_BODY
}

/// The payload carried by a retrieved response body: `Ok(None)` for a body
/// too short to be a bundle, otherwise the payload of the decoded bundle or
/// the reason why there is none.
pub fn payload_from_body(body: Vec<u8>) -> (r: Result<Option<Vec<u8>>, FetchError>)
    ensures
        body@.len() <= MIN_BUNDLE_BODY ==> r == Ok::<Option<Vec<u8>>, FetchError>(None),
        body@.len() > MIN_BUNDLE_BODY ==> match decoded(body@) {
            None => r == Err::<Option<Vec<u8>>, FetchError>(FetchError::Decode),
            Some(b) => match payload_of(b) {
                Some(p) => r matches Ok(Some(v)) && v@ == p,
                None => r == Err::<Option<Vec<u8>>, FetchError>(FetchError::MissingPayload),
            },
        },
{
    if !holds_bundle(body.len()) {
        return Ok(None);
    }
    match decode_bundle(body) {
        Ok(bundle) => match payload_bytes(&bundle) {
            Some(data) => Ok(Some(data)),
            None => Err(FetchError::MissingPayload),
        },
        Err(_) => Err(FetchError::Decode),
    }
}

} // verus!
