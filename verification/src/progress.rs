//! Progress accounting for one download session: bytes written against an
//! exact or estimated total, reported as a clamped, never-decreasing fraction.

use vstd::arithmetic::div_mod::{lemma_div_is_ordered, lemma_div_pos_is_pos, lemma_multiply_divide_lt};
use vstd::arithmetic::mul::lemma_mul_inequality;
use vstd::prelude::*;

verus! {

/// Total-size estimate used when the transport gives no length hint: 100 MiB.
/// It is only a guess for the progress display, never a hard limit.
pub const FALLBACK_TOTAL_BYTES: u64 = 100 * 1024 * 1024;

/// Completion fractions are reported in thousandths of the whole.
pub const PROGRESS_SCALE: u64 = 1000;

/// The completion fraction, in thousandths, of `written` bytes out of
/// `total`: `written / total` clamped to the unit interval. A download that
/// overshoots an estimated total saturates at the top instead of exceeding it.
pub open spec fn spec_permille(written: u64, total: u64) -> int {
    if written >= total {
        PROGRESS_SCALE as int
    } else {
        ((written as int) * (PROGRESS_SCALE as int)) / (total as int)
    }
}

/// The total a session measures progress against: the transport's length hint
/// when one is present, else the fallback estimate.
pub open spec fn spec_session_total(length_hint: Option<u64>) -> u64 {
    match length_hint {
        Some(n) => n,
        None => FALLBACK_TOTAL_BYTES,
    }
}

/// Every reported fraction lies in the unit interval, whether the total was
/// exact or an estimate.
pub proof fn lemma_permille_bounds(written: u64, total: u64)
    ensures
        0 <= spec_permille(written, total) <= PROGRESS_SCALE,
{
    if written < total {
        lemma_div_pos_is_pos((written as int) * (PROGRESS_SCALE as int), total as int);
        lemma_multiply_divide_lt(
            (written as int) * (PROGRESS_SCALE as int),
            total as int,
            PROGRESS_SCALE as int,
        );
    }
}

/// Within one session the reported fraction never decreases as bytes are
/// written, whether the total was exact or an estimate.
pub proof fn lemma_permille_monotone(written_before: u64, written_after: u64, total: u64)
    requires
        written_before <= written_after,
    ensures
        spec_permille(written_before, total) <= spec_permille(written_after, total),
{
    if written_after < total {
        lemma_div_is_ordered(
            (written_before as int) * (PROGRESS_SCALE as int),
            (written_after as int) * (PROGRESS_SCALE as int),
            total as int,
        );
    } else {
        lemma_permille_bounds(written_before, total);
    }
}

/// Packs two 16-bit values into one 32-bit message argument, low word first,
/// as the native progress-bar range message expects.
pub fn make_lparam(low: u16, high: u16) -> (r: u32)
    ensures
        r == high * 0x10000 + low,
{
    (high as u32) * 0x10000 + (low as u32)
}

/// Progress of one download session. It is created when the response arrives,
/// fed every write to the destination file, and discarded when the download
/// ends.
pub struct ProgressTracker {
    written: u64,
    total: u64,
    exact: bool,
}

impl ProgressTracker {
    /// Bytes recorded so far.
    pub closed spec fn spec_written(self) -> u64 {
        self.written
    }

    /// The total this session measures against.
    pub closed spec fn spec_total(self) -> u64 {
        self.total
    }

    /// Whether the total came from the transport rather than the fallback
    /// estimate.
    pub closed spec fn spec_exact(self) -> bool {
        self.exact
    }

    /// The fraction the session currently stands at, in thousandths.
    pub open spec fn spec_fraction(self) -> int {
        spec_permille(self.spec_written(), self.spec_total())
    }

    /// Starts a session over a transport length hint; without one the
    /// fallback estimate is used and the total is marked inexact.
    pub fn new(length_hint: Option<u64>) -> (r: ProgressTracker)
        ensures
            r.spec_written() == 0,
            r.spec_total() == spec_session_total(length_hint),
            r.spec_exact() == length_hint is Some,
    {
        match length_hint {
            Some(n) => ProgressTracker { written: 0, total: n, exact: true },
            None => ProgressTracker { written: 0, total: FALLBACK_TOTAL_BYTES, exact: false },
        }
    }

    /// Accounts for `count` more bytes written to the destination. The total
    /// stays as it was and the fraction never goes down.
    pub fn record_write(&mut self, count: u64)
        ensures
            final(self).spec_total() == old(self).spec_total(),
            final(self).spec_exact() == old(self).spec_exact(),
            final(self).spec_written() == if old(self).spec_written() + count <= u64::MAX {
                (old(self).spec_written() + count) as u64
            } else {
                u64::MAX
            },
            old(self).spec_fraction() <= final(self).spec_fraction(),
    {
        if count <= u64::MAX - self.written {
            self.written = self.written + count;
        } else {
            self.written = u64::MAX;
        }
        proof {
            lemma_permille_monotone(old(self).written, self.written, self.total);
        }
    }

    /// Whether the total came from the transport rather than the fallback
    /// estimate: an estimated total makes the reported fraction a guess for
    /// display, never a hard limit.
    pub fn is_exact(&self) -> (r: bool)
        ensures
            r == self.spec_exact(),
    {
        self.exact
    }

    /// The fraction to report to the sink, in thousandths, clamped to the
    /// unit interval.
    pub fn permille(&self) -> (r: u16)
        ensures
            r as int == self.spec_fraction(),
            r as int <= PROGRESS_SCALE,
    {
        if self.written >= self.total {
            1000
        } else {
            proof {
                lemma_mul_inequality(self.written as int, u64::MAX as int, PROGRESS_SCALE as int);
            }
            let wide: u128 = (self.written as u128) * (PROGRESS_SCALE as u128);
            let quotient: u128 = wide / (self.total as u128);
            proof {
                lemma_div_pos_is_pos(wide as int, self.total as int);
                lemma_multiply_divide_lt(wide as int, self.total as int, PROGRESS_SCALE as int);
            }
            quotient as u16
        }
    }
}

} // verus!
