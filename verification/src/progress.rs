//! The unified progress scale. Each stage owns a sub-range `base ..
//! base+span` of 0-100; a completion count `done` out of `total` maps to
//! `base + done*span/total`. Events are gated so that large stages do not
//! flood the sink: one event every `emit_every` completions, and always one
//! for the last.

use vstd::prelude::*;
use vstd::arithmetic::div_mod::lemma_div_is_ordered;
use vstd::arithmetic::div_mod::lemma_div_multiples_vanish;
use vstd::arithmetic::mul::lemma_mul_inequality;
use vstd::arithmetic::div_mod::lemma_div_pos_is_pos;
use crate::model::DownloadProgress;
use crate::strutil::dec_str;
use vstd::string::StringExecFns;

verus! {

/// Where `done` of `total` completions stand on the unified scale, within
/// the stage's sub-range.
pub open spec fn stage_pct(base: int, span: int, done: int, total: int) -> int
    recommends
        0 < total,
{
    base + (done * span) / total
}

/// A stage's percentage stays within its sub-range.
pub proof fn lemma_stage_pct_bounds(base: int, span: int, done: int, total: int)
    requires
        0 <= base,
        0 <= span,
        0 <= done <= total,
        0 < total,
    ensures
        base <= stage_pct(base, span, done, total) <= base + span,
{
    lemma_mul_inequality(done, total, span);
    lemma_div_is_ordered(done * span, total * span, total);
    lemma_div_multiples_vanish(span, total);
    assert(total * span == span * total) by (nonlinear_arith);
    lemma_div_pos_is_pos(done * span, total);
    assert(done * span >= 0) by (nonlinear_arith)
        requires
            done >= 0,
            span >= 0,
    ;
}

/// Progress is monotone: more completions never lower the percentage.
pub proof fn lemma_stage_pct_monotonic(base: int, span: int, d1: int, d2: int, total: int)
    requires
        0 <= span,
        0 <= d1 <= d2,
        0 < total,
    ensures
        stage_pct(base, span, d1, total) <= stage_pct(base, span, d2, total),
{
    lemma_mul_inequality(d1, d2, span);
    lemma_div_is_ordered(d1 * span, d2 * span, total);
}

/// The final completion of a stage lands exactly on the stage's upper
/// bound.
pub proof fn lemma_stage_pct_final(base: int, span: int, total: int)
    requires
        0 < total,
    ensures
        stage_pct(base, span, total, total) == base + span,
{
    lemma_div_multiples_vanish(span, total);
    assert(total * span == span * total) by (nonlinear_arith);
}

/// Map a completion count into a stage's percentage sub-range.
pub fn stage_percentage(base: u32, span: u32, done: u32, total: u32) -> (r: u32)
    requires
        0 < total,
        done <= total,
        base + span <= 100,
    ensures
        r == stage_pct(base as int, span as int, done as int, total as int),
        base <= r <= base + span,
        done == total ==> r == base + span,
{
    proof {
        lemma_stage_pct_bounds(base as int, span as int, done as int, total as int);
        if done == total {
            lemma_stage_pct_final(base as int, span as int, total as int);
        }
        assert((done as int) * (span as int) <= 0xffff_ffff * 0xffff_ffff)
            by (nonlinear_arith)
            requires
                0 <= done as int <= 0xffff_ffff,
                0 <= span as int <= 0xffff_ffff,
        ;
    }
    let frac = (done as u64 * span as u64) / (total as u64);
    base + (frac as u32)
}

/// Is an event due after the `done`-th completion? One every `emit_every`
/// completions, and always one for the final completion.
pub open spec fn emit_gate(done: int, total: int, emit_every: int) -> bool
    recommends
        0 < emit_every,
{
    done % emit_every == 0 || done == total
}

/// Decide whether the `done`-th completion emits an event.
pub fn should_emit(done: u32, total: u32, emit_every: u32) -> (r: bool)
    requires
        0 < emit_every,
    ensures
        r == emit_gate(done as int, total as int, emit_every as int),
{
    done % emit_every == 0 || done == total
}

/// The label of a counted stage event: `<prefix> (<done>/<total>)`.
pub open spec fn counted_label(prefix: Seq<char>, done: nat, total: nat) -> Seq<char> {
    prefix + " ("@ + dec_str(done) + "/"@ + dec_str(total) + ")"@
}

/// Build the label of a counted stage event.
pub fn stage_label(prefix: &str, done: u32, total: u32) -> (r: String)
    ensures
        r@ == counted_label(prefix@, done as nat, total as nat),
{
    let mut s = prefix.to_owned();
    s.append(" (");
    let d = crate::strutil::u32_to_string(done);
    s.append(d.as_str());
    s.append("/");
    let t = crate::strutil::u32_to_string(total);
    s.append(t.as_str());
    s.append(")");
    proof {
        assert(s@ =~= counted_label(prefix@, done as nat, total as nat));
    }
    s
}

/// Build the event for the `done`-th completion of a stage.
pub fn progress_event(prefix: &str, done: u32, total: u32, base: u32, span: u32) -> (r:
    DownloadProgress)
    requires
        0 < total,
        done <= total,
        base + span <= 100,
    ensures
        r.stage@ == counted_label(prefix@, done as nat, total as nat),
        r.current == done,
        r.total == total,
        r.percentage == stage_pct(base as int, span as int, done as int, total as int),
        base <= r.percentage <= base + span,
        done == total ==> r.percentage == base + span,
{
    DownloadProgress {
        stage: stage_label(prefix, done, total),
        current: done,
        total,
        percentage: stage_percentage(base, span, done, total),
    }
}

/// Build an uncounted event at a fixed point of the unified scale, as the
/// orchestrator emits between stages.
pub fn plain_event(stage: &str, current: u32, percentage: u32) -> (r: DownloadProgress)
    ensures
        r.stage@ == stage@,
        r.current == current,
        r.total == 100,
        r.percentage == percentage,
{
    DownloadProgress { stage: stage.to_owned(), current, total: 100, percentage }
}

} // verus!
