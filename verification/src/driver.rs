//! The batch driver's outcome policy: a batch fails iff at least one rule
//! failed.

use vstd::prelude::*;

use crate::error::Error;

verus! {

/// Folds the per-rule outcomes of one batch (`true` = the rule ran to
/// completion) into the batch result: `Ok` iff every rule succeeded, else
/// the aggregate error.
pub fn batch_outcome(results: &Vec<bool>) -> (r: Result<(), Error>)
    ensures
        r is Ok <==> (forall|i: int| 0 <= i < results@.len() ==> results@[i]),
        r matches Err(e) ==> e == Error::RuleExecutionFailed,
{
    let mut i: usize = 0;
    while i < results.len()
        invariant
            0 <= i <= results@.len(),
            forall|j: int| 0 <= j < i ==> results@[j],
        decreases results@.len() - i,
    {
        if !results[i] {
            return Err(Error::RuleExecutionFailed);
        }
        i = i + 1;
    }
    Ok(())
}

} // verus!
