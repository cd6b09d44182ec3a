//! Turning a captured output stream into text.

use crate::error::{Error, ErrorView};
use vstd::prelude::*;
use vstd::utf8::{decode_utf8, valid_utf8};

verus! {

/// The line with which the standard library says why `bytes` is not UTF-8.
pub uninterp spec fn utf8_error_text(bytes: Seq<u8>) -> Seq<char>;

/// What a captured stream decodes to: its text where the bytes are UTF-8,
/// and the decode failure where they are not. Nothing is cut off or
/// replaced.
pub open spec fn decoded(bytes: Seq<u8>) -> Result<Seq<char>, ErrorView> {
    if valid_utf8(bytes) {
        Ok(decode_utf8(bytes))
    } else {
        Err(ErrorView::OutputNotUtf8 { source: utf8_error_text(bytes) })
    }
}

/// A decoding result with its texts as character sequences.
pub open spec fn text_view(r: Result<String, Error>) -> Result<Seq<char>, ErrorView> {
    match r {
        Ok(text) => Ok(text@),
        Err(e) => Err(e@),
    }
}

/// Calls `String::from_utf8` and, where it fails, renders its error with
/// `to_string`. Trusted: the call succeeds exactly on well-formed UTF-8 and
/// then yields the characters that the bytes encode; otherwise it yields
/// the line that the standard library prints for the failure, which depends
/// on the bytes alone.
#[verifier::external_body]
fn string_from_utf8(bytes: Vec<u8>) -> (r: Result<String, String>)
    ensures
        r is Ok <==> valid_utf8(bytes@),
        r matches Ok(text) ==> text@ == decode_utf8(bytes@),
        r matches Err(line) ==> line@ == utf8_error_text(bytes@),
{
    match String::from_utf8(bytes) {
        Ok(text) => Ok(text),
        Err(e) => Err(e.to_string()),
    }
}

/// Decodes a captured output stream as UTF-8 text. Bytes that are not
/// UTF-8 give `Error::OutputNotUtf8`; they are never truncated or patched.
pub fn vec_to_str(v: Vec<u8>) -> (r: Result<String, Error>)
    ensures
        text_view(r) == decoded(v@),
{
    match string_from_utf8(v) {
        Ok(text) => Ok(text),
        Err(line) => Err(Error::OutputNotUtf8 { source: line }),
    }
}

} // verus!
