//! Turning captured bytes into text.

use vstd::prelude::*;
use vstd::utf8::{decode_utf8, valid_utf8};

verus! {

/// The text that lossy decoding gives for `bytes`: every malformed sequence
/// replaced by U+FFFD. On well-formed input it is the decoded text itself,
/// which is all that is stated of it here.
pub uninterp spec fn lossy_text(bytes: Seq<u8>) -> Seq<char>;

/// The text reported for a captured error stream: the decoded text where the
/// bytes are UTF-8, the lossy decoding where they are not.
pub open spec fn captured_text(bytes: Seq<u8>) -> Seq<char> {
    if valid_utf8(bytes) {
        decode_utf8(bytes)
    } else {
        lossy_text(bytes)
    }
}

/// The description that strict decoding gives of why `bytes` are malformed.
pub uninterp spec fn utf8_error_text(bytes: Seq<u8>) -> Seq<char>;

/// Calls `String::from_utf8_lossy`. Trusted: the result is a function of the
/// bytes alone, and for well-formed UTF-8 it is the decoded text unchanged.
#[verifier::external_body]
pub(crate) fn decode_lossy(bytes: &Vec<u8>) -> (text: String)
    ensures
        text@ == lossy_text(bytes@),
        valid_utf8(bytes@) ==> text@ == decode_utf8(bytes@),
{
    String::from_utf8_lossy(bytes).into_owned()
}

/// Calls `String::from_utf8`. Trusted: it succeeds exactly on well-formed
/// UTF-8 and then yields the decoded text; otherwise the error's own
/// description comes back, a function of the bytes alone.
#[verifier::external_body]
pub(crate) fn decode_strict(bytes: Vec<u8>) -> (decoded: Result<String, String>)
    ensures
        decoded is Ok <==> valid_utf8(bytes@),
        decoded matches Ok(text) ==> text@ == decode_utf8(bytes@),
        decoded matches Err(why) ==> why@ == utf8_error_text(bytes@),
{
    match String::from_utf8(bytes) {
        Ok(text) => Ok(text),
        Err(e) => Err(format!("{}", e)),
    }
}

} // verus!
