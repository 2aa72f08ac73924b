//! Counters for serial media: how far one is, and out of how many.

use vstd::prelude::*;

verus! {

/// How far a series or a readable work has been followed.
#[derive(Debug, Clone, Copy, PartialEq, Eq, Hash)]
pub struct Progress {
    /// Episodes seen, or chapters read.
    pub current: u32,
    /// How many there are in all, where that is known.
    pub total: Option<u32>,
}

/// An exact fraction `num / den`.
#[derive(Debug, Clone, Copy, PartialEq, Eq, Hash)]
pub struct Ratio {
    pub num: u64,
    pub den: u64,
}

/// The share that is done, in percent, as an exact fraction.
///
/// It is `100 * current / total` where the total is known and positive, zero
/// where the total is zero, and undefined where the total is unknown. Nothing
/// caps it: with `current` beyond `total` it lies above one hundred.
pub open spec fn percent_of(p: Progress) -> Option<Ratio> {
    match p.total {
        Some(t) => if t > 0 {
            Some(Ratio { num: (100 * p.current) as u64, den: t as u64 })
        } else {
            Some(Ratio { num: 0, den: 1 })
        },
        None => None,
    }
}

/// Whether the known, positive total has been reached.
pub open spec fn finished(p: Progress) -> bool {
    match p.total {
        Some(t) => t > 0 && p.current >= t,
        None => false,
    }
}

/// The counters after a forced completion: an unknown total becomes the
/// current count, and the current count then becomes the total.
pub open spec fn completed_progress(p: Progress) -> Progress {
    match p.total {
        Some(t) => Progress { current: t, total: Some(t) },
        None => Progress { current: p.current, total: Some(p.current) },
    }
}

impl Progress {
    /// The share that is done, in percent; `None` where the total is unknown.
    pub fn percent(&self) -> (r: Option<Ratio>)
        ensures
            r == percent_of(*self),
    {
        match self.total {
            Some(t) => {
                if t > 0 {
                    let cur: u64 = self.current as u64;
                    Some(Ratio { num: 100 * cur, den: t as u64 })
                } else {
                    Some(Ratio { num: 0, den: 1 })
                }
            },
            None => None,
        }
    }

    /// Whether the known, positive total has been reached.
    pub fn is_finished(&self) -> (r: bool)
        ensures
            r == finished(*self),
    {
        match self.total {
            Some(t) => t > 0 && self.current >= t,
            None => false,
        }
    }

    /// Brings the counters to the end: an unknown total is set to the current
    /// count, then the current count is set to the total.
    pub fn force_complete(&mut self)
        ensures
            *final(self) == completed_progress(*old(self)),
    {
        match self.total {
            Some(t) => {
                self.current = t;
            },
            None => {
                self.total = Some(self.current);
            },
        }
    }
}

impl Ratio {
    /// Whether the fraction is worth `n / d`.
    pub open spec fn is_fraction(self, n: int, d: int) -> bool {
        self.den > 0 && d > 0 && self.num * d == n * self.den
    }

    /// Whether the fraction is worth more than the whole number `k`.
    pub open spec fn exceeds(self, k: int) -> bool {
        self.num > k * self.den
    }
}

/// For a known, positive total the percentage is exactly `100 * current /
/// total`. It is at most one hundred while `current` is within the total and
/// exceeds one hundred beyond it: nothing caps it.
pub proof fn law_percent_is_exact(p: Progress, t: u32)
    requires
        p.total == Some(t),
        t > 0,
    ensures
        percent_of(p) matches Some(q) && q.is_fraction(100 * p.current, t as int) && (p.current
            <= t ==> !q.exceeds(100)) && (p.current > t ==> q.exceeds(100)),
{
}

/// After a forced completion the counters are finished exactly when the
/// resulting total is positive.
pub proof fn law_completed_progress_is_finished(p: Progress)
    ensures
        finished(completed_progress(p)) <==> completed_progress(p).total != Some(0u32),
        completed_progress(p).total is Some,
        completed_progress(p).total == Some(completed_progress(p).current),
{
}

/// Forcing completion twice gives what forcing it once gives.
pub proof fn law_completed_progress_idempotent(p: Progress)
    ensures
        completed_progress(completed_progress(p)) == completed_progress(p),
{
}

} // verus!
