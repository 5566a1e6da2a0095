//! The decisions of a concurrent batch run. The surrounding application
//! executes the tasks (under its concurrency cap, in whatever order they
//! finish) and reports completion counts and per-task results; this module
//! decides which progress events to emit and how the batch's outcome is
//! judged: the batch succeeds only if every task did, and otherwise
//! reports the first observed failure.

use vstd::prelude::*;
use crate::model::DownloadProgress;
use crate::model::FetchError;
use crate::progress::counted_label;
use crate::progress::emit_gate;
use crate::progress::stage_pct;

verus! {

/// The event, if any, due after the `done`-th completion of a batch of
/// `total` tasks running in the stage sub-range `base .. base+span`.
pub fn batch_progress(
    prefix: &str,
    done: u32,
    total: u32,
    base: u32,
    span: u32,
    emit_every: u32,
) -> (r: Option<DownloadProgress>)
    requires
        0 < total,
        done <= total,
        base + span <= 100,
        0 < emit_every,
    ensures
        r is Some == emit_gate(done as int, total as int, emit_every as int),
        r matches Some(e) ==> {
            &&& e.stage@ == counted_label(prefix@, done as nat, total as nat)
            &&& e.current == done
            &&& e.total == total
            &&& e.percentage == stage_pct(base as int, span as int, done as int, total as int)
            &&& base <= e.percentage <= base + span
            &&& (done == total ==> e.percentage == base + span)
        },
{
    if crate::progress::should_emit(done, total, emit_every) {
        Some(crate::progress::progress_event(prefix, done, total, base, span))
    } else {
        None
    }
}

/// The event opening a batch: zero completions, at the stage's base
/// percentage.
pub fn batch_start_event(prefix: &str, total: u32, base: u32) -> (r: DownloadProgress)
    ensures
        r.stage@ == counted_label(prefix@, 0, total as nat),
        r.current == 0,
        r.total == total,
        r.percentage == base,
{
    DownloadProgress {
        stage: crate::progress::stage_label(prefix, 0, total),
        current: 0,
        total,
        percentage: base,
    }
}

/// The position of the first failed task in a result list, or the list's
/// length if every task succeeded.
pub open spec fn first_err_index(s: Seq<Result<String, FetchError>>) -> int
    decreases s.len(),
{
    if s.len() == 0 {
        0
    } else if s[0] is Err {
        0
    } else {
        1 + first_err_index(s.subrange(1, s.len() as int))
    }
}

proof fn lemma_first_err_index_at(s: Seq<Result<String, FetchError>>, k: int)
    requires
        0 <= k <= s.len(),
        forall|j: int| 0 <= j < k ==> s[j] is Ok,
        k < s.len() ==> s[k] is Err,
    ensures
        first_err_index(s) == if k < s.len() {
            k
        } else {
            s.len() as int
        },
    decreases s.len(),
{
    if s.len() == 0 {
    } else if k == 0 {
    } else {
        let s1 = s.subrange(1, s.len() as int);
        assert(forall|j: int| 0 <= j < k - 1 ==> s1[j] == s[j + 1]);
        if k - 1 < s1.len() {
            assert(s1[k - 1] == s[k]);
        }
        lemma_first_err_index_at(s1, k - 1);
    }
}

/// Judge a completed batch: all-or-nothing. If every task succeeded, the
/// destinations are returned in task order; otherwise the first observed
/// failure is the batch's failure, though later tasks may well have
/// succeeded and their destinations remain on disk.
pub fn first_error(results: &mut Vec<Result<String, FetchError>>) -> (r: Result<
    Vec<String>,
    FetchError,
>)
    ensures
        first_err_index(old(results)@) == old(results)@.len() ==> (r matches Ok(paths)
            && paths@.len() == old(results)@.len() && forall|i: int|
            0 <= i < old(results)@.len() ==> (old(results)@[i] matches Ok(p)
                && #[trigger] paths@[i] == p)),
        first_err_index(old(results)@) < old(results)@.len() ==> (r matches Err(e) && old(
            results,
        )@[first_err_index(old(results)@)] matches Err(e0) && e == e0),
{
    let ghost all = old(results)@;
    let mut paths: Vec<String> = Vec::new();
    let ghost mut k: int = 0;
    loop
        invariant
            all == old(results)@,
            0 <= k <= all.len(),
            results@ =~= all.subrange(k, all.len() as int),
            paths@.len() == k,
            forall|j: int| 0 <= j < k ==> (#[trigger] all[j]) is Ok,
            forall|j: int| 0 <= j < k ==> #[trigger] paths@[j] == all[j]->Ok_0,
        decreases results@.len(),
    {
        if results.len() == 0 {
            proof {
                assert(k == all.len());
                lemma_first_err_index_at(all, k);
                assert(first_err_index(all) == all.len());
            }
            return Ok(paths);
        }
        let item = results.remove(0);
        proof {
            assert(k < all.len());
            assert(item == all[k]);
            assert(results@ =~= all.subrange(k + 1, all.len() as int));
        }
        match item {
            Ok(p) => {
                paths.push(p);
                proof {
                    k = k + 1;
                }
            },
            Err(e) => {
                proof {
                    assert(all[k] is Err);
                    lemma_first_err_index_at(all, k);
                    assert(first_err_index(all) == k);
                }
                return Err(e);
            },
        }
    }
}

/// Failure propagation: a batch with any failed task does not judge the
/// batch a success, and surfaces the first observed failure verbatim.
pub proof fn lemma_batch_failure_propagates(s: Seq<Result<String, FetchError>>, i: int)
    requires
        0 <= i < s.len(),
        s[i] is Err,
    ensures
        0 <= first_err_index(s) < s.len(),
        s[first_err_index(s)] is Err,
        forall|j: int| 0 <= j < first_err_index(s) ==> s[j] is Ok,
    decreases s.len(),
{
    if s.len() == 0 {
    } else if s[0] is Err {
    } else {
        let s1 = s.subrange(1, s.len() as int);
        assert(i >= 1);
        assert(s1[i - 1] == s[i]);
        lemma_batch_failure_propagates(s1, i - 1);
        let f1 = first_err_index(s1);
        assert(first_err_index(s) == 1 + f1);
        assert(0 <= f1 < s1.len());
        assert(s1[f1] == s.subrange(1, s.len() as int)[f1]);
        assert(s.subrange(1, s.len() as int)[f1] == s[1 + f1]);
        assert(forall|j: int| 1 <= j < 1 + f1 ==> s[j] == s1[j - 1]);
    }
}

} // verus!
