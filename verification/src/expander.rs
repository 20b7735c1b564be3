//! The program expander's decision: given the captured output of one
//! macro-expansion invocation of the compiler, either the expanded source
//! text or the matching error.

use vstd::prelude::*;
use crate::errors::Error;
use crate::text::decode_text;
use crate::text::utf8_decode;

verus! {

/// The outcome of one expansion invocation, decided from the process exit
/// code and the fully captured output streams.
///
/// On exit code zero, standard output decoded as text is the expanded
/// source; on any other exit, standard error decoded as text becomes a
/// `ReadProgramCodeFailed` payload, so the failing program's own compiler
/// diagnostics are preserved verbatim.  In either case an invalid text
/// encoding is a `Utf8Error`, distinct from a compile failure.
pub fn expansion_outcome(exit_code: Option<i32>, stdout: Vec<u8>, stderr: Vec<u8>) -> (r: Result<
    String,
    Error,
>)
    ensures
        r is Ok <==> exit_code == Some(0i32) && utf8_decode(stdout@) is Some,
        r is Ok ==> r->Ok_0@ == utf8_decode(stdout@)->0,
        exit_code == Some(0i32) && utf8_decode(stdout@) is None ==> r->Err_0 is Utf8Error,
        exit_code != Some(0i32) && utf8_decode(stderr@) is Some ==> (r->Err_0 matches
            Error::ReadProgramCodeFailed(diag) && diag@ == utf8_decode(stderr@)->0),
        exit_code != Some(0i32) && utf8_decode(stderr@) is None ==> r->Err_0 is Utf8Error,
{
    let success = match exit_code {
        Some(code) => code == 0,
        None => false,
    };
    if success {
        decode_text(stdout)
    } else {
        match decode_text(stderr) {
            Ok(diagnostics) => Err(Error::ReadProgramCodeFailed(diagnostics)),
            Err(e) => Err(e),
        }
    }
}

} // verus!
