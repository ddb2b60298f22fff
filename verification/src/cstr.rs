//! Text that C hands over as bytes: a path or a domain name is only used
//! when its bytes are valid UTF-8.

use core::str::Utf8Error;
use vstd::prelude::*;
use vstd::string::{StringExecFns, StringSliceAdditionalSpecFns};
use vstd::utf8::{decode_utf8, encode_utf8_decode_utf8, valid_utf8};

verus! {

/// Declares std's `core::str::Utf8Error`, the error of reading bytes as
/// UTF-8. It is opaque here; its index is carried beside it in
/// `Utf8Failure`.
#[verifier::external_type_specification]
#[verifier::external_body]
pub struct ExUtf8Error(core::str::Utf8Error);

/// Bytes that are not valid UTF-8: where the valid part ends, and std's
/// error, which C is told as a message.
pub struct Utf8Failure {
    pub valid_up_to: usize,
    pub error: Utf8Error,
}

/// `valid_up_to` is the greatest index up to which `bytes` are valid UTF-8.
pub open spec fn valid_up_to_is(bytes: Seq<u8>, valid_up_to: int) -> bool {
    &&& 0 <= valid_up_to <= bytes.len()
    &&& valid_utf8(bytes.take(valid_up_to))
    &&& forall|j: int| valid_up_to < j <= bytes.len() ==> !valid_utf8(#[trigger] bytes.take(j))
}

/// Calls `std::str::from_utf8`, which succeeds exactly when `bytes` are
/// valid UTF-8 and then returns the text whose bytes are `bytes`. On
/// failure it gives the error with its `valid_up_to()`, which std documents
/// as the greatest index such that the bytes before it are valid UTF-8.
/// What `error_len()` of the error holds is not stated.
#[verifier::external_body]
fn str_from_utf8(bytes: &[u8]) -> (res: Result<&str, Utf8Failure>)
    ensures
        res is Ok <==> valid_utf8(bytes@),
        res matches Ok(s) ==> s.spec_bytes() == bytes@,
        res matches Err(f) ==> valid_up_to_is(bytes@, f.valid_up_to as int),
{
    match std::str::from_utf8(bytes) {
        Ok(s) => Ok(s),
        Err(error) => Err(Utf8Failure { valid_up_to: error.valid_up_to(), error }),
    }
}

/// Reads the bytes of a C string as text: the decoded text when they are
/// valid UTF-8; otherwise the failure, which says where the valid part
/// ends (before the last byte).
pub(crate) fn c_str_text(bytes: &[u8]) -> (res: Result<String, Utf8Failure>)
    ensures
        res is Ok <==> valid_utf8(bytes@),
        res matches Ok(text) ==> text@ == decode_utf8(bytes@),
        res matches Err(f) ==> valid_up_to_is(bytes@, f.valid_up_to as int) && f.valid_up_to
            < bytes@.len(),
{
    match str_from_utf8(bytes) {
        Ok(s) => {
            proof {
                encode_utf8_decode_utf8(s@);
            }
            Ok(String::from_str(s))
        },
        Err(f) => {
            assert(bytes@.take(bytes@.len() as int) =~= bytes@);
            Err(f)
        },
    }
}

/// Where the valid part of some bytes ends is one index: the failure of
/// decoding them is pinned down to it.
pub proof fn law_valid_up_to_is_unique(bytes: Seq<u8>, a: int, b: int)
    requires
        valid_up_to_is(bytes, a),
        valid_up_to_is(bytes, b),
    ensures
        a == b,
{
    if a < b {
        assert(!valid_utf8(bytes.take(b)));
    } else if b < a {
        assert(!valid_utf8(bytes.take(a)));
    }
}

} // verus!
