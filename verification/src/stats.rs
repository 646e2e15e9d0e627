//! Aggregation of a frame history into summary statistics: counts of sent,
//! successful and lost attempts, and the minimum, maximum and average elapsed
//! time among the successful ones.

use vstd::arithmetic::div_mod::lemma_div_is_ordered;
use vstd::arithmetic::div_mod::lemma_div_multiples_vanish;
use vstd::prelude::*;

use crate::frame::TcpFrame;

verus! {

/// The summary of a frame history.
///
/// Times are whole nanoseconds. When no frame was sent, every field is zero:
/// no undefined value ever surfaces.
#[derive(Debug, Clone, Copy, PartialEq, Eq, Structural)]
pub struct PingResult {
    /// Smallest elapsed time among successful frames; 0 when there is none.
    pub minimum: u64,
    /// Largest elapsed time among successful frames; 0 when there is none.
    pub maximum: u64,
    /// How many frames were sent.
    pub total: usize,
    /// Sum of elapsed times over successful frames divided by `total`;
    /// 0 when `total` is 0.
    pub average: u64,
    /// How many sent frames missed their success condition.
    pub loss: usize,
    /// How many sent frames reached their success condition.
    pub success: usize,
}

impl Default for PingResult {
    fn default() -> (r: Self)
        ensures
            r == spec_summary(Seq::<TcpFrame>::empty()),
    {
        PingResult { minimum: 0, maximum: 0, total: 0, average: 0, loss: 0, success: 0 }
    }
}

/// Whether a frame counts as sent: its payload went out in full.
pub open spec fn frame_sent(f: TcpFrame) -> bool {
    f.send_success
}

/// Whether a frame counts as successful: it was sent and reached its
/// success condition.
pub open spec fn frame_ok(f: TcpFrame) -> bool {
    f.send_success && f.success
}

/// How many frames of the history were sent.
pub open spec fn sent_count(s: Seq<TcpFrame>) -> int
    decreases s.len(),
{
    if s.len() == 0 {
        0
    } else {
        sent_count(s.drop_last()) + if frame_sent(s.last()) {
            1int
        } else {
            0int
        }
    }
}

/// How many frames of the history were successful.
pub open spec fn ok_count(s: Seq<TcpFrame>) -> int
    decreases s.len(),
{
    if s.len() == 0 {
        0
    } else {
        ok_count(s.drop_last()) + if frame_ok(s.last()) {
            1int
        } else {
            0int
        }
    }
}

/// Sum of the elapsed times of the successful frames.
pub open spec fn ok_sum(s: Seq<TcpFrame>) -> int
    decreases s.len(),
{
    if s.len() == 0 {
        0
    } else {
        ok_sum(s.drop_last()) + if frame_ok(s.last()) {
            s.last().elapsed as int
        } else {
            0int
        }
    }
}

/// Smallest elapsed time among the successful frames; 0 when there is none.
pub open spec fn ok_min(s: Seq<TcpFrame>) -> int
    decreases s.len(),
{
    if s.len() == 0 {
        0
    } else {
        let rest = ok_min(s.drop_last());
        if !frame_ok(s.last()) {
            rest
        } else if ok_count(s.drop_last()) == 0 {
            s.last().elapsed as int
        } else if s.last().elapsed < rest {
            s.last().elapsed as int
        } else {
            rest
        }
    }
}

/// Largest elapsed time among the successful frames; 0 when there is none.
pub open spec fn ok_max(s: Seq<TcpFrame>) -> int
    decreases s.len(),
{
    if s.len() == 0 {
        0
    } else {
        let rest = ok_max(s.drop_last());
        if frame_ok(s.last()) && s.last().elapsed > rest {
            s.last().elapsed as int
        } else {
            rest
        }
    }
}

/// The average the summary reports: the successful frames' elapsed times
/// summed, divided by the count of sent frames; 0 when nothing was sent.
pub open spec fn spec_average(s: Seq<TcpFrame>) -> int {
    if sent_count(s) == 0 {
        0
    } else {
        ok_sum(s) / sent_count(s)
    }
}

/// The summary of a frame history. Aggregation reads nothing but the frames,
/// so summarizing the same unmodified history any number of times yields
/// identical results.
pub open spec fn spec_summary(s: Seq<TcpFrame>) -> PingResult {
    PingResult {
        minimum: ok_min(s) as u64,
        maximum: ok_max(s) as u64,
        total: sent_count(s) as usize,
        average: spec_average(s) as u64,
        loss: (sent_count(s) - ok_count(s)) as usize,
        success: ok_count(s) as usize,
    }
}

/// Basic bounds on the counters: a successful frame is a sent frame, so the
/// success count never exceeds the sent count, which never exceeds the
/// history's length.
pub proof fn lemma_count_bounds(s: Seq<TcpFrame>)
    ensures
        0 <= ok_count(s) <= sent_count(s) <= s.len(),
    decreases s.len(),
{
    if s.len() > 0 {
        lemma_count_bounds(s.drop_last());
    }
}

/// Range of the extremes: each is 0 or the elapsed time of some frame, hence
/// representable; and with no successful frame, extremes and sum are all 0.
pub proof fn lemma_extreme_bounds(s: Seq<TcpFrame>)
    ensures
        0 <= ok_min(s) <= u64::MAX,
        0 <= ok_max(s) <= u64::MAX,
        ok_count(s) == 0 ==> ok_min(s) == 0 && ok_max(s) == 0 && ok_sum(s) == 0,
    decreases s.len(),
{
    if s.len() > 0 {
        lemma_extreme_bounds(s.drop_last());
        lemma_count_bounds(s.drop_last());
    }
}

/// The sum of the successful frames' elapsed times is at most the success
/// count times the largest representable elapsed time.
pub proof fn lemma_sum_bound(s: Seq<TcpFrame>)
    ensures
        0 <= ok_sum(s) <= ok_count(s) * (u64::MAX as int),
    decreases s.len(),
{
    if s.len() > 0 {
        lemma_sum_bound(s.drop_last());
        lemma_count_bounds(s.drop_last());
        assert(ok_count(s.drop_last()) * (u64::MAX as int) + (u64::MAX as int) == (ok_count(
            s.drop_last(),
        ) + 1) * (u64::MAX as int)) by (nonlinear_arith);
    }
}

/// The reported average fits in an elapsed-time field: it never exceeds the
/// largest representable elapsed time.
pub proof fn lemma_average_bound(s: Seq<TcpFrame>)
    ensures
        0 <= spec_average(s) <= u64::MAX,
{
    lemma_count_bounds(s);
    lemma_sum_bound(s);
    if sent_count(s) != 0 {
        let m = u64::MAX as int;
        let t = sent_count(s);
        assert(ok_count(s) * m <= t * m) by (nonlinear_arith)
            requires
                ok_count(s) <= t,
                m >= 0,
        ;
        lemma_div_is_ordered(ok_sum(s), t * m, t);
        lemma_div_multiples_vanish(m, t);
        assert(spec_average(s) >= 0) by {
            assert(ok_sum(s) / t >= 0) by (nonlinear_arith)
                requires
                    ok_sum(s) >= 0,
                    t > 0,
            ;
        }
    }
}

/// Every successful frame's elapsed time lies between the aggregated minimum
/// and maximum; in particular, for two successful frames A and B with
/// `A.elapsed < B.elapsed`, the minimum is at most A's time and the maximum
/// at least B's.
pub proof fn lemma_extremes_enclose(s: Seq<TcpFrame>, i: int)
    requires
        0 <= i < s.len(),
        frame_ok(s[i]),
    ensures
        ok_count(s) > 0,
        ok_min(s) <= s[i].elapsed,
        ok_max(s) >= s[i].elapsed,
        spec_summary(s).minimum <= s[i].elapsed,
        spec_summary(s).maximum >= s[i].elapsed,
    decreases s.len(),
{
    lemma_count_bounds(s.drop_last());
    lemma_extreme_bounds(s);
    if i == s.len() - 1 {
        lemma_extreme_bounds(s.drop_last());
    } else {
        lemma_extremes_enclose(s.drop_last(), i);
    }
}

/// Conservation of attempts: in every summary, `loss + success == total`.
pub proof fn lemma_loss_accounting(s: Seq<TcpFrame>)
    requires
        s.len() <= usize::MAX,
    ensures
        spec_summary(s).loss + spec_summary(s).success == spec_summary(s).total,
{
    lemma_count_bounds(s);
}

/// Empty summaries are all-zero: when nothing was sent, the average, minimum
/// and maximum are all 0, never an undefined value.
pub proof fn lemma_empty_summary(s: Seq<TcpFrame>)
    requires
        s.len() <= usize::MAX,
        sent_count(s) == 0,
    ensures
        spec_summary(s).average == 0,
        spec_summary(s).minimum == 0,
        spec_summary(s).maximum == 0,
{
    lemma_count_bounds(s);
    lemma_extreme_bounds(s);
}

/// Aggregation is idempotent: it reads nothing but the frames, so two
/// summaries of the same unmodified frame history are identical.
pub proof fn lemma_summary_idempotent(first: Seq<TcpFrame>, second: Seq<TcpFrame>)
    requires
        first == second,
    ensures
        spec_summary(first) == spec_summary(second),
{
}

/// Summarizes a frame history: counts sent and successful frames, loss as
/// their difference, and the extremes and average of the successful frames'
/// elapsed times, all exactly as [`spec_summary`] states.
pub fn summarize(frames: &Vec<TcpFrame>) -> (r: PingResult)
    ensures
        r == spec_summary(frames@),
{
    let ghost all = frames@;
    let mut total: usize = 0;
    let mut success: usize = 0;
    let mut sum: u128 = 0;
    let mut minimum: u64 = 0;
    let mut maximum: u64 = 0;
    let mut i: usize = 0;
    while i < frames.len()
        invariant
            i <= all.len(),
            all == frames@,
            total == sent_count(all.subrange(0, i as int)),
            success == ok_count(all.subrange(0, i as int)),
            sum == ok_sum(all.subrange(0, i as int)),
            minimum == ok_min(all.subrange(0, i as int)),
            maximum == ok_max(all.subrange(0, i as int)),
        decreases all.len() - i,
    {
        let ghost prefix = all.subrange(0, i as int);
        proof {
            assert(all.subrange(0, i + 1).drop_last() =~= prefix);
            assert(all.subrange(0, i + 1).last() == all[i as int]);
            lemma_count_bounds(prefix);
            lemma_sum_bound(prefix);
            lemma_extreme_bounds(prefix);
        }
        let f = &frames[i];
        if f.send_success {
            total = total + 1;
            if f.success {
                proof {
                    assert(ok_count(prefix) * (u64::MAX as int) <= (all.len() as int) * (
                    u64::MAX as int)) by (nonlinear_arith)
                        requires
                            0 <= ok_count(prefix) <= all.len(),
                    ;
                    assert((all.len() as int) * (u64::MAX as int) + (u64::MAX as int) < u128::MAX)
                        by (nonlinear_arith)
                        requires
                            all.len() <= usize::MAX,
                    ;
                }
                success = success + 1;
                sum = sum + f.elapsed as u128;
                if success == 1 {
                    minimum = f.elapsed;
                    maximum = f.elapsed;
                } else {
                    if f.elapsed < minimum {
                        minimum = f.elapsed;
                    }
                    if f.elapsed > maximum {
                        maximum = f.elapsed;
                    }
                }
            }
        }
        i = i + 1;
    }
    proof {
        assert(all.subrange(0, all.len() as int) =~= all);
        lemma_count_bounds(all);
        lemma_sum_bound(all);
        lemma_average_bound(all);
    }
    let average: u64 = if total == 0 {
        0
    } else {
        proof {
            let m = u64::MAX as int;
            let t = sent_count(all);
            assert(ok_count(all) * m <= t * m) by (nonlinear_arith)
                requires
                    ok_count(all) <= t,
                    m >= 0,
            ;
            lemma_div_is_ordered(ok_sum(all), t * m, t);
            lemma_div_multiples_vanish(m, t);
        }
        (sum / (total as u128)) as u64
    };
    PingResult { minimum, maximum, total, average, loss: total - success, success }
}

} // verus!
