//! The `Commander` holds the explicit root directory every operation is
//! relative to, and derives the fixed paths the orchestrator uses: the
//! network node's config file and the generated client library's target
//! file.  It also decides the outcome of a programs build from the build
//! tool's exit code.

use vstd::prelude::*;
use crate::errors::Error;

verus! {

/// The relative path, below the root, of the generated client library file.
pub open spec fn client_lib_rel_path() -> Seq<char> {
    "program_client/src/lib.rs"@
}

/// A root directory joined with a relative path: a separator is inserted
/// only where the root is non-empty and does not already end in one.
pub open spec fn joined_path(root: Seq<char>, rel: Seq<char>) -> Seq<char> {
    if root.len() == 0 {
        rel
    } else if root.last() == '/' {
        root + rel
    } else {
        root + seq!['/'] + rel
    }
}

/// The orchestrator's configuration: an explicit root directory, threaded
/// through every operation instead of relying on the process-global current
/// directory.
pub struct Commander {
    root: String,
}

impl View for Commander {
    type V = Seq<char>;

    /// A commander is, for specification purposes, its root directory.
    closed spec fn view(&self) -> Seq<char> {
        self.root@
    }
}

impl Commander {
    /// A commander with the conventional default root, two directories up.
    pub fn new() -> (c: Self)
        ensures
            c@ == "../../"@,
    {
        Self { root: String::from_str("../../") }
    }

    /// A commander rooted at an explicitly given directory.
    pub fn with_root(root: String) -> (c: Self)
        ensures
            c@ == root@,
    {
        Self { root }
    }

    /// The root directory every derived path is relative to.
    pub fn root(&self) -> (r: &String)
        ensures
            r@ == self@,
    {
        &self.root
    }

    /// The network node's config file path: the root with `config.yml`
    /// appended directly, with no separator inserted.
    pub fn config_path(&self) -> (r: String)
        ensures
            r@ == self@ + "config.yml"@,
    {
        self.root.clone().concat("config.yml")
    }

    /// The fixed target path of the generated client library, below the
    /// root.
    pub fn client_lib_rs_path(&self) -> (r: String)
        ensures
            r@ == joined_path(self@, client_lib_rel_path()),
    {
        let n = self.root.as_str().unicode_len();
        if n == 0 {
            String::from_str("program_client/src/lib.rs")
        } else if self.root.as_str().get_char(n - 1) == '/' {
            self.root.clone().concat("program_client/src/lib.rs")
        } else {
            proof {
                reveal_strlit("/");
            }
            assert(("/")@ =~= seq!['/']);
            self.root.clone().concat("/").concat("program_client/src/lib.rs")
        }
    }
}

/// The outcome of a programs build, decided from the build tool's exit
/// code: success exactly on exit code zero, and `BuildProgramsFailed`
/// otherwise (the tool's own diagnostics go to the inherited standard
/// streams, so the condition carries no payload).
pub fn build_outcome(exit_code: Option<i32>) -> (r: Result<(), Error>)
    ensures
        r is Ok <==> exit_code == Some(0i32),
        r is Err ==> r->Err_0 is BuildProgramsFailed,
{
    match exit_code {
        Some(code) => {
            if code == 0 {
                Ok(())
            } else {
                Err(Error::BuildProgramsFailed)
            }
        },
        None => Err(Error::BuildProgramsFailed),
    }
}

} // verus!
