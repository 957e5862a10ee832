//! Blobs that arrive as base64 text.

use vstd::prelude::*;
use base64::Engine;
use vstd::std_specs::convert::FromSpec;
use crate::error::IntoTypedError;

verus! {

/// The bytes that `text` stands for as base64 in the standard alphabet with
/// padding, if it is valid.
pub uninterp spec fn base64_decoded(text: Seq<char>) -> Option<Seq<u8>>;

/// Calls `base64::Engine::decode` of `base64::engine::general_purpose::STANDARD`:
/// the bytes that the text stands for, or the reason why it is not valid
/// base64.
#[verifier::external_body]
fn base64_decode(blob: &str) -> (decoded: Result<Vec<u8>, base64::DecodeError>)
    ensures
        match decoded {
            Ok(bytes) => base64_decoded(blob@) == Some(bytes@),
            Err(_) => base64_decoded(blob@) is None,
        },
{
    base64::engine::general_purpose::STANDARD.decode(blob)
}

/// Turns what the decoder returned into a blob or into the library's error.
pub fn blob_from<T: From<Vec<u8>>>(decoded: Result<Vec<u8>, base64::DecodeError>) -> (blob: Result<
    T,
    IntoTypedError,
>)
    ensures
        match decoded {
            Ok(bytes) => blob matches Ok(value) && (T::obeys_from_spec() ==> value == T::from_spec(
                bytes,
            )),
            Err(error) => blob matches Err(IntoTypedError::BlobDecodeError(reason)) && reason
                == error,
        },
{
    match decoded {
        Ok(bytes) => Ok(T::from(bytes)),
        Err(error) => Err(IntoTypedError::BlobDecodeError(error)),
    }
}

/// Decodes base64 text into its bytes. It fails if and only if the text is
/// not valid base64.
pub fn decode_bytes(blob: &str) -> (decoded: Result<Vec<u8>, IntoTypedError>)
    ensures
        match base64_decoded(blob@) {
            Some(bytes) => decoded matches Ok(found) && found@ == bytes,
            None => decoded matches Err(IntoTypedError::BlobDecodeError(_)),
        },
{
    match base64_decode(blob) {
        Ok(bytes) => Ok(bytes),
        Err(error) => Err(IntoTypedError::BlobDecodeError(error)),
    }
}

/// Decodes base64 text into a type that is made of bytes. It fails if and
/// only if the text is not valid base64.
pub fn decode_blob<T: From<Vec<u8>>>(blob: &str) -> (decoded: Result<T, IntoTypedError>)
    ensures
        decoded is Ok <==> base64_decoded(blob@) is Some,
        decoded matches Err(error) ==> error is BlobDecodeError,
        decoded matches Ok(value) ==> (T::obeys_from_spec() ==> exists|bytes: Vec<u8>|
            bytes@ == base64_decoded(blob@)->0 && value == #[trigger] T::from_spec(bytes)),
{
    blob_from(base64_decode(blob))
}

} // verus!
