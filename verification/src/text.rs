//! Text decoding for captured subprocess output.  Decoding failure is a
//! hard error, distinct from I/O failure and from any domain condition.

use vstd::prelude::*;
use crate::errors::Error;

verus! {

/// What `String::from_utf8` returns for a given byte sequence: `Some` of
/// the decoded characters exactly when the bytes are valid UTF-8, and
/// `None` otherwise.  The result depends on the bytes alone.
pub uninterp spec fn utf8_decode(bytes: Seq<u8>) -> Option<Seq<char>>;

/// Relies on `String::from_utf8`: returns the string decoded from the
/// bytes exactly when they are valid UTF-8.
#[verifier::external_body]
fn from_utf8(bytes: Vec<u8>) -> (r: Option<String>)
    ensures
        r is Some <==> utf8_decode(bytes@) is Some,
        r is Some ==> r->0@ == utf8_decode(bytes@)->0,
{
    String::from_utf8(bytes).ok()
}

/// Captured subprocess output decoded as text: the decoded string when the
/// bytes are valid UTF-8, and `Utf8Error` otherwise.
pub fn decode_text(bytes: Vec<u8>) -> (r: Result<String, Error>)
    ensures
        r is Ok <==> utf8_decode(bytes@) is Some,
        r is Ok ==> r->Ok_0@ == utf8_decode(bytes@)->0,
        r is Err ==> r->Err_0 is Utf8Error,
{
    match from_utf8(bytes) {
        Some(text) => Ok(text),
        None => Err(Error::Utf8Error),
    }
}

} // verus!
