//! The reply of a file read to C.
//!
//! C receives the contents as a NUL-terminated string, so contents that
//! hold a NUL byte cannot be handed over: the reply is then an error.

use vstd::prelude::*;
use vstd::utf8::{decode_utf8, valid_utf8};

use crate::cstr::{c_str_text, valid_up_to_is, Utf8Failure};

verus! {

/// What C is told of a file read.
pub enum FileReply {
    /// The contents, free of NUL bytes.
    Contents(Vec<u8>),
    /// The contents hold a NUL byte, first at `position`.
    NulByte { position: usize, data: Vec<u8> },
    /// The read failed with this message.
    Failed(String),
}

/// `bytes` holds no NUL byte before `end`.
pub open spec fn nul_free(bytes: Seq<u8>, end: int) -> bool {
    forall|i: int| 0 <= i < end ==> #[trigger] bytes[i] != 0
}

/// The position of the first NUL byte of `bytes`, if there is one.
pub fn first_nul(bytes: &[u8]) -> (res: Option<usize>)
    ensures
        match res {
            Some(p) => p < bytes@.len() && bytes@[p as int] == 0 && nul_free(bytes@, p as int),
            None => nul_free(bytes@, bytes@.len() as int),
        },
{
    let mut i: usize = 0;
    while i < bytes.len()
        invariant
            i <= bytes@.len(),
            nul_free(bytes@, i as int),
        decreases bytes@.len() - i,
    {
        if bytes[i] == 0 {
            return Some(i);
        }
        i = i + 1;
    }
    None
}

/// The path to read, given by C as the bytes `path`: the decoded path when
/// the bytes are valid UTF-8; otherwise the decoding failure, which says
/// where the valid part ends and which C is told instead of reading
/// anything.
pub fn read_file_path(path: &[u8]) -> (res: Result<String, Utf8Failure>)
    ensures
        res is Ok <==> valid_utf8(path@),
        res matches Ok(p) ==> p@ == decode_utf8(path@),
        res matches Err(f) ==> valid_up_to_is(path@, f.valid_up_to as int) && f.valid_up_to
            < path@.len(),
{
    c_str_text(path)
}

/// The reply to C for the outcome of reading a file.
pub fn read_file_reply(read: Result<Vec<u8>, String>) -> (reply: FileReply)
    ensures
        match read {
            Err(e) => reply == FileReply::Failed(e),
            Ok(data) => if nul_free(data@, data@.len() as int) {
                reply == FileReply::Contents(data)
            } else {
                reply matches FileReply::NulByte { position, data: d } && d == data && position
                    < data@.len() && data@[position as int] == 0 && nul_free(
                    data@,
                    position as int,
                )
            },
        },
{
    match read {
        Err(e) => FileReply::Failed(e),
        Ok(data) => match first_nul(data.as_slice()) {
            None => FileReply::Contents(data),
            Some(position) => FileReply::NulByte { position, data },
        },
    }
}

} // verus!
