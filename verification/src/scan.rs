//! "First violated rule" semantics over indexed checks.
use vstd::prelude::*;

verus! {

/// Sequencing of two rule outcomes: the first error wins.
pub open spec fn then_check<E>(first: Result<(), E>, second: Result<(), E>) -> Result<(), E> {
    if first is Err {
        first
    } else {
        second
    }
}

/// Outcome of running `check` on the indices `from, from + 1, …, to - 1` in
/// order and stopping at the first error.
pub open spec fn first_failure<E>(from: int, to: int, check: spec_fn(int) -> Result<(), E>) -> Result<(), E>
    decreases to - from,
{
    if from >= to {
        Ok(())
    } else if check(from) is Err {
        check(from)
    } else {
        first_failure(from + 1, to, check)
    }
}

/// When every index in `[from, to)` passes, the scan passes.
pub proof fn lemma_first_failure_all_ok<E>(from: int, to: int, check: spec_fn(int) -> Result<(), E>)
    requires
        forall|j: int| from <= j < to ==> #[trigger] check(j) is Ok,
    ensures
        first_failure(from, to, check) == Ok::<(), E>(()),
    decreases to - from,
{
    if from < to {
        lemma_first_failure_all_ok(from + 1, to, check);
    }
}

/// When `k` is the first failing index of `[from, to)`, the scan reports its
/// error.
pub proof fn lemma_first_failure_at<E>(
    from: int,
    to: int,
    k: int,
    check: spec_fn(int) -> Result<(), E>,
)
    requires
        from <= k < to,
        forall|j: int| from <= j < k ==> #[trigger] check(j) is Ok,
        check(k) is Err,
    ensures
        first_failure(from, to, check) == check(k),
    decreases k - from,
{
    if from < k {
        lemma_first_failure_at(from + 1, to, k, check);
    }
}

/// The scan fails exactly when some index fails.
pub proof fn lemma_first_failure_ok_iff<E>(from: int, to: int, check: spec_fn(int) -> Result<(), E>)
    ensures
        first_failure(from, to, check) is Ok <==> forall|j: int| from <= j < to ==> #[trigger] check(j) is Ok,
    decreases to - from,
{
    if from < to {
        lemma_first_failure_ok_iff(from + 1, to, check);
    }
}

} // verus!
