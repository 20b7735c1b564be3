//! The error taxonomy of the orchestrator: I/O failures carried as text,
//! text-decoding failures, and the named domain conditions.

use vstd::prelude::*;

verus! {

/// Every failure the orchestrator can surface.  I/O errors are propagated
/// verbatim as their debug text; decoding failures are distinct from I/O;
/// the domain conditions each name one observable outcome, and
/// `ReadProgramCodeFailed` carries the failing program's own compiler
/// diagnostics verbatim.  Extraction failures are opaque pass-throughs.
#[derive(Debug, PartialEq, Eq)]
pub enum Error {
    IoError(String),
    Utf8Error,
    LocalnetIsNotRunning,
    LocalnetIsStillRunning,
    BuildProgramsFailed,
    ReadProgramCodeFailed(String),
    IdlError(String),
}

} // verus!
