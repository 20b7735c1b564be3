//! The interface-description assembler: one expansion-and-extraction chain
//! runs per discovered program, and their results are joined with
//! first-error-wins aggregation — either every per-program description, in
//! discovery order, or the first failure, never a partial description.

use vstd::prelude::*;
use crate::errors::Error;

verus! {

/// One program's interface description, as the assembler sees it.
#[derive(Debug, PartialEq, Eq)]
pub struct IdlProgram {
    pub name: String,
    pub description: String,
}

/// The aggregate interface description: one entry per discovered program,
/// in discovery order.
#[derive(Debug, PartialEq, Eq)]
pub struct Idl {
    pub programs: Vec<IdlProgram>,
}

/// First-error-wins aggregation over a sequence of per-chain results: the
/// values of every result when all are successes, and otherwise the
/// earliest error.
pub open spec fn join_spec<T>(results: Seq<Result<T, Error>>) -> Result<Seq<T>, Error>
    decreases results.len(),
{
    if results.len() == 0 {
        Ok(Seq::empty())
    } else {
        match results[0] {
            Err(e) => Err(e),
            Ok(v) => match join_spec(results.skip(1)) {
                Ok(rest) => Ok(seq![v] + rest),
                Err(e) => Err(e),
            },
        }
    }
}

/// Joins the completed results of the per-program chains: every value, in
/// order, when all succeeded, and otherwise the earliest error alone.
pub fn try_join<T>(results: Vec<Result<T, Error>>) -> (r: Result<Vec<T>, Error>)
    ensures
        join_spec(results@) is Ok ==> r is Ok && r->Ok_0@ == join_spec(results@)->Ok_0,
        join_spec(results@) is Err ==> r is Err && r->Err_0 == join_spec(results@)->Err_0,
    decreases results@.len(),
{
    let ghost original = results@;
    let mut results = results;
    if results.len() == 0 {
        let collected: Vec<T> = Vec::new();
        assert(collected@ =~= join_spec(original)->Ok_0);
        Ok(collected)
    } else {
        let first = results.remove(0);
        proof {
            assert(results@ =~= original.skip(1));
        }
        match first {
            Err(e) => Err(e),
            Ok(v) => match try_join(results) {
                Ok(mut rest) => {
                    rest.insert(0, v);
                    proof {
                        assert(rest@ =~= join_spec(original)->Ok_0);
                    }
                    Ok(rest)
                },
                Err(e) => Err(e),
            },
        }
    }
}

/// The assembled interface description: one `IdlProgram` per chain, in
/// order, when every chain succeeded, and otherwise the earliest error.
pub fn assemble(results: Vec<Result<IdlProgram, Error>>) -> (r: Result<Idl, Error>)
    ensures
        join_spec(results@) is Ok ==> r is Ok && r->Ok_0.programs@ == join_spec(results@)->Ok_0,
        join_spec(results@) is Err ==> r is Err && r->Err_0 == join_spec(results@)->Err_0,
{
    match try_join(results) {
        Ok(programs) => Ok(Idl { programs }),
        Err(e) => Err(e),
    }
}

/// When every chain succeeds, the join is a success holding exactly one
/// entry per chain — no duplicates, no omissions, in the original order.
pub proof fn lemma_join_all_ok<T>(results: Seq<Result<T, Error>>)
    requires
        forall|i: int| 0 <= i < results.len() ==> results[i] is Ok,
    ensures
        join_spec(results) is Ok,
        join_spec(results)->Ok_0.len() == results.len(),
        forall|i: int| 0 <= i < results.len() ==> join_spec(results)->Ok_0[i] == results[i]->Ok_0,
    decreases results.len(),
{
    if results.len() > 0 {
        lemma_join_all_ok(results.skip(1));
    }
}

/// When exactly one chain fails, the join reports that chain's error and
/// never a successful aggregate description.
pub proof fn lemma_join_single_failure<T>(results: Seq<Result<T, Error>>, i: int)
    requires
        0 <= i < results.len(),
        results[i] is Err,
        forall|j: int| 0 <= j < results.len() && j != i ==> results[j] is Ok,
    ensures
        join_spec(results) is Err,
        join_spec(results)->Err_0 == results[i]->Err_0,
    decreases results.len(),
{
    if i > 0 {
        lemma_join_single_failure(results.skip(1), i - 1);
    }
}

} // verus!
