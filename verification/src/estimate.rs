//! Throughput, time to completion, and how far a transfer has come.

use vstd::prelude::*;

verus! {

/// Milliseconds that must have passed before anything is estimated or
/// sampled.
pub const WARM_UP_MS: u64 = 5000;

/// Milliseconds between two ticks.
pub const TICK_MS: u64 = 1000;

/// The whole seconds in a time given in milliseconds.
pub open spec fn whole_seconds(elapsed_ms: u64) -> u64 {
    elapsed_ms / 1000
}

/// Average throughput in bytes per second: zero while no whole second has
/// elapsed, the truncated quotient afterwards.
pub open spec fn rate(total_bytes: u64, elapsed_secs: u64) -> u64 {
    if elapsed_secs == 0 {
        0
    } else {
        total_bytes / elapsed_secs
    }
}

/// The bytes still to come: none once the target has been reached.
pub open spec fn remaining(target_size: u64, read_bytes: u64) -> u64 {
    if read_bytes >= target_size {
        0
    } else {
        (target_size - read_bytes) as u64
    }
}

/// Seconds until the remaining bytes have come at the given rate, truncated;
/// zero, which stands for unknown, at rate zero.
pub open spec fn eta(remaining_bytes: u64, rate: u64) -> u64 {
    if rate == 0 {
        0
    } else {
        remaining_bytes / rate
    }
}

/// Whether estimates and samples may be taken at this time.
pub open spec fn warmed_up(elapsed_ms: u64) -> bool {
    elapsed_ms >= WARM_UP_MS
}

/// Computes [`rate`]. Never divides by zero.
pub fn transfer_rate(total_bytes: u64, elapsed_secs: u64) -> (r: u64)
    ensures
        r == rate(total_bytes, elapsed_secs),
        elapsed_secs == 0 ==> r == 0,
{
    if elapsed_secs == 0 {
        0
    } else {
        total_bytes / elapsed_secs
    }
}

/// Computes [`remaining`].
pub fn remaining_bytes(target_size: u64, read_bytes: u64) -> (r: u64)
    ensures
        r == remaining(target_size, read_bytes),
        read_bytes >= target_size ==> r == 0,
{
    if read_bytes >= target_size {
        0
    } else {
        target_size - read_bytes
    }
}

/// Computes [`eta`].
pub fn eta_seconds(remaining_bytes: u64, rate: u64) -> (r: u64)
    ensures
        r == eta(remaining_bytes, rate),
        remaining_bytes == 0 ==> r == 0,
{
    if rate == 0 {
        0
    } else {
        remaining_bytes / rate
    }
}

/// Once the target has been reached nothing remains and the estimate is
/// zero, whatever the rate.
pub proof fn lemma_nothing_remains(target_size: u64, read_bytes: u64, rate: u64)
    requires
        read_bytes >= target_size,
    ensures
        remaining(target_size, read_bytes) == 0,
        eta(remaining(target_size, read_bytes), rate) == 0,
{
}

/// Progress as an exact ratio: `done` bytes of `total`.
///
/// The percentage is `done / total * 100`. With a total of zero it has no
/// finite value: it is unbounded once anything was read and undefined
/// before.
#[derive(Debug, Clone, Copy, PartialEq, Eq, Structural)]
pub struct Percent {
    pub done: u64,
    pub total: u64,
}

/// How much an estimate is to be trusted, by the progress made.
#[derive(Debug, Clone, Copy, PartialEq, Eq, Structural)]
pub enum Confidence {
    /// Exactly 100 percent.
    Done,
    /// At least 50 percent.
    Exact,
    /// At least 25 and less than 50 percent.
    Approximate,
    /// Less than 25 percent, or a percentage without a value.
    Uncertain,
}

impl Percent {
    /// The percentage truncated to a whole number, for a total above zero.
    pub open spec fn whole(self) -> nat
        recommends
            self.total > 0,
    {
        (100 * self.done as nat) / (self.total as nat)
    }

    /// The percentage rounded to the nearest whole number, halves upwards,
    /// for a total above zero.
    pub open spec fn rounded(self) -> nat
        recommends
            self.total > 0,
    {
        (200 * self.done as nat + self.total as nat) / (2 * self.total as nat)
    }

    /// The band of the percentage.
    pub open spec fn confidence(self) -> Confidence {
        if self.total == 0 {
            if self.done == 0 {
                Confidence::Uncertain
            } else {
                Confidence::Exact
            }
        } else if self.done == self.total {
            Confidence::Done
        } else if 2 * self.done >= self.total {
            Confidence::Exact
        } else if 4 * self.done >= self.total {
            Confidence::Approximate
        } else {
            Confidence::Uncertain
        }
    }

    /// Computes [`Percent::confidence`].
    pub fn band(&self) -> (c: Confidence)
        ensures
            c == self.confidence(),
    {
        let done: u128 = self.done as u128;
        let total: u128 = self.total as u128;
        if total == 0 {
            if done == 0 {
                Confidence::Uncertain
            } else {
                Confidence::Exact
            }
        } else if done == total {
            Confidence::Done
        } else if 2 * done >= total {
            Confidence::Exact
        } else if 4 * done >= total {
            Confidence::Approximate
        } else {
            Confidence::Uncertain
        }
    }

    /// Computes [`Percent::rounded`], or `None` for a total of zero.
    pub fn round(&self) -> (r: Option<u128>)
        ensures
            self.total == 0 <==> r.is_none(),
            self.total > 0 ==> r == Some(self.rounded() as u128),
    {
        if self.total == 0 {
            None
        } else {
            let done: u128 = self.done as u128;
            let total: u128 = self.total as u128;
            Some((200 * done + total) / (2 * total))
        }
    }
}

/// The bands in terms of the percentage: 100 exactly, at least 50, at least
/// 25, and below.
pub proof fn lemma_confidence_thresholds(p: Percent)
    requires
        p.total > 0,
    ensures
        p.confidence() == Confidence::Done <==> 100 * p.done == 100 * p.total,
        p.confidence() == Confidence::Exact <==> p.done != p.total && 100 * p.done >= 50
            * p.total,
        p.confidence() == Confidence::Approximate <==> 25 * p.total <= 100 * p.done < 50
            * p.total,
        p.confidence() == Confidence::Uncertain <==> 100 * p.done < 25 * p.total,
{
}

/// With one total, more bytes done give no smaller a percentage, and as
/// long as no more is done than the total the percentage is at most 100.
pub proof fn lemma_percent_monotone(earlier: Percent, later: Percent)
    requires
        earlier.total == later.total,
        earlier.total > 0,
        earlier.done <= later.done,
    ensures
        earlier.whole() <= later.whole(),
        earlier.rounded() <= later.rounded(),
        later.done <= later.total ==> later.whole() <= 100 && later.rounded() <= 100,
{
    let t = earlier.total as int;
    let a = earlier.done as int;
    let b = later.done as int;
    assert((100 * a) / t <= (100 * b) / t) by (nonlinear_arith)
        requires
            0 <= a <= b,
            t > 0,
    ;
    assert((200 * a + t) / (2 * t) <= (200 * b + t) / (2 * t)) by (nonlinear_arith)
        requires
            0 <= a <= b,
            t > 0,
    ;
    if b <= t {
        assert((100 * b) / t <= 100) by (nonlinear_arith)
            requires
                0 <= b <= t,
                t > 0,
        ;
        assert((200 * b + t) / (2 * t) <= 100) by (nonlinear_arith)
            requires
                0 <= b <= t,
                t > 0,
        ;
    }
}

} // verus!
