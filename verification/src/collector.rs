use vstd::prelude::*;

verus! {

/// How many of the outcomes are successes.
pub open spec fn successes<T, E>(results: Seq<Result<T, E>>) -> nat
    decreases results.len(),
{
    if results.len() == 0 {
        0
    } else {
        successes(results.drop_last()) + if results.last() is Ok {
            1nat
        } else {
            0nat
        }
    }
}

/// The number of database writes that went through.
pub fn count_successes<T, E>(results: &Vec<Result<T, E>>) -> (n: usize)
    ensures
        n == successes(results@),
{
    let mut n: usize = 0;
    for i in 0..results.len()
        invariant
            n == successes(results@.take(i as int)),
            n <= i,
    {
        assert(results@.take(i + 1).drop_last() =~= results@.take(i as int));
        if results[i].is_ok() {
            n = n + 1;
        }
    }
    assert(results@.take(results.len() as int) =~= results@);
    n
}

/// No more writes can have gone through than were attempted.
pub proof fn lemma_successes_bounded<T, E>(results: Seq<Result<T, E>>)
    ensures
        successes(results) <= results.len(),
    decreases results.len(),
{
    if results.len() > 0 {
        lemma_successes_bounded(results.drop_last());
    }
}

} // verus!
