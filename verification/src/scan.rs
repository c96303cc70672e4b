//! First-failure scans over sequences.
//!
//! The engine repeatedly walks a sequence and stops at the first element that
//! fails a check: the first advertised hostname outside the allowed set, the
//! first requested destination no rule matches, the first claimed gateway that
//! rejects. `first_failing` is that scan, and the two lemmas connect it to the
//! element-wise checks a loop maintains.

use vstd::prelude::*;

verus! {

/// The first element of `xs`, in order, on which `ok` does not hold.
pub open spec fn first_failing<A>(ok: spec_fn(A) -> bool, xs: Seq<A>) -> Option<A>
    decreases xs.len(),
{
    if xs.len() == 0 {
        None
    } else if !ok(xs[0]) {
        Some(xs[0])
    } else {
        first_failing(ok, xs.skip(1))
    }
}

/// The scan finds nothing exactly when every element passes the check.
pub proof fn lemma_first_failing_none<A>(ok: spec_fn(A) -> bool, xs: Seq<A>)
    ensures
        (first_failing(ok, xs) is None) <==> (forall|i: int| 0 <= i < xs.len() ==> ok(#[trigger] xs[i])),
    decreases xs.len(),
{
    if xs.len() > 0 {
        lemma_first_failing_none(ok, xs.skip(1));
        assert(forall|i: int| 0 <= i < xs.skip(1).len() ==> #[trigger] xs.skip(1)[i] == xs[i + 1]);
        if ok(xs[0]) && (forall|i: int| 0 <= i < xs.skip(1).len() ==> ok(#[trigger] xs.skip(1)[i])) {
            assert forall|i: int| 0 <= i < xs.len() implies ok(#[trigger] xs[i]) by {
                if i > 0 {
                    assert(xs.skip(1)[i - 1] == xs[i]);
                }
            }
        }
    }
}

/// Whatever the scan finds does fail the check.
pub proof fn lemma_first_failing_fails<A>(ok: spec_fn(A) -> bool, xs: Seq<A>)
    ensures
        match first_failing(ok, xs) {
            Some(e) => !ok(e),
            None => true,
        },
    decreases xs.len(),
{
    if xs.len() > 0 && ok(xs[0]) {
        lemma_first_failing_fails(ok, xs.skip(1));
    }
}

/// When every element before position `i` passes and `xs[i]` fails, the scan
/// stops at `xs[i]`.
pub proof fn lemma_first_failing_at<A>(ok: spec_fn(A) -> bool, xs: Seq<A>, i: int)
    requires
        0 <= i < xs.len(),
        forall|k: int| 0 <= k < i ==> ok(#[trigger] xs[k]),
        !ok(xs[i]),
    ensures
        first_failing(ok, xs) == Some(xs[i]),
    decreases i,
{
    if i > 0 {
        assert(forall|k: int| 0 <= k < xs.skip(1).len() ==> #[trigger] xs.skip(1)[k] == xs[k + 1]);
        lemma_first_failing_at(ok, xs.skip(1), i - 1);
    }
}

} // verus!
