//! One probe attempt and its outcome: when it started, how long it took, and
//! whether the payload went out and the attempt reached its success condition.

use vstd::prelude::*;

verus! {

/// The record of one probe attempt.
///
/// Times are whole nanoseconds on the monotonic clock the caller owns.
/// `elapsed` is meaningful only once the attempt reaches its terminal
/// condition; a frame whose `success` is false never enters the latency
/// aggregates.
#[derive(Debug)]
pub struct TcpFrame {
    /// Position of this frame in the session's history, counted from 1.
    pub id: usize,
    /// When the attempt began, in nanoseconds.
    pub start: u64,
    /// How long the attempt took, in nanoseconds; set once, at its end.
    pub elapsed: u64,
    /// Whether the attempt reached its success condition.
    pub success: bool,
    /// Whether the outbound payload was fully written and flushed.
    pub send_success: bool,
}

impl Default for TcpFrame {
    fn default() -> (r: Self)
        ensures
            r.id == 0,
            r.start == 0,
            r.elapsed == 0,
            !r.success,
            !r.send_success,
    {
        TcpFrame { id: 0, start: 0, elapsed: 0, success: false, send_success: false }
    }
}

impl TcpFrame {
    /// Fixes the frame's elapsed time: the nanoseconds from its start to
    /// `now`. Called once, when the attempt reaches its terminal condition.
    pub fn calculate_delay(&mut self, now: u64)
        requires
            now >= old(self).start,
        ensures
            final(self).elapsed == now - old(self).start,
            final(self).id == old(self).id,
            final(self).start == old(self).start,
            final(self).success == old(self).success,
            final(self).send_success == old(self).send_success,
    {
        self.elapsed = now - self.start;
    }
}

/// How two frames compare: by their elapsed time alone, as whole numbers.
pub open spec fn spec_frame_cmp(a: TcpFrame, b: TcpFrame) -> core::cmp::Ordering {
    if a.elapsed < b.elapsed {
        core::cmp::Ordering::Less
    } else if a.elapsed > b.elapsed {
        core::cmp::Ordering::Greater
    } else {
        core::cmp::Ordering::Equal
    }
}

impl PartialEq for TcpFrame {
    /// Two frames are equal when their elapsed times are: ordering ignores
    /// every other field, and equal times tie (broken by insertion order
    /// where a stable choice is needed).
    fn eq(&self, other: &Self) -> (r: bool) {
        self.elapsed == other.elapsed
    }
}

impl vstd::std_specs::cmp::PartialEqSpecImpl for TcpFrame {
    open spec fn obeys_eq_spec() -> bool {
        true
    }

    open spec fn eq_spec(&self, other: &TcpFrame) -> bool {
        self.elapsed == other.elapsed
    }
}

impl PartialOrd for TcpFrame {
    fn partial_cmp(&self, other: &Self) -> (r: Option<core::cmp::Ordering>) {
        if self.elapsed < other.elapsed {
            Some(core::cmp::Ordering::Less)
        } else if self.elapsed > other.elapsed {
            Some(core::cmp::Ordering::Greater)
        } else {
            Some(core::cmp::Ordering::Equal)
        }
    }

    fn lt(&self, other: &Self) -> (r: bool) {
        self.elapsed < other.elapsed
    }

    fn le(&self, other: &Self) -> (r: bool) {
        self.elapsed <= other.elapsed
    }

    fn gt(&self, other: &Self) -> (r: bool) {
        self.elapsed > other.elapsed
    }

    fn ge(&self, other: &Self) -> (r: bool) {
        self.elapsed >= other.elapsed
    }
}

impl vstd::std_specs::cmp::PartialOrdSpecImpl for TcpFrame {
    open spec fn obeys_partial_cmp_spec() -> bool {
        true
    }

    open spec fn partial_cmp_spec(&self, other: &TcpFrame) -> Option<core::cmp::Ordering> {
        Some(spec_frame_cmp(*self, *other))
    }
}

} // verus!
