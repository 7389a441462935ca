//! How fast a value rises: samples of it, kept for a limited time.

use std::time::Duration;
use tokio::time::Instant;
use vstd::prelude::*;

verus! {

/// `tokio::time::Instant`, a reading of the clock. What it holds is hidden
/// from the verifier; it is only stored and handed to the functions below.
#[verifier::external_type_specification]
#[verifier::external_body]
pub struct ExInstant(tokio::time::Instant);

/// `Instant::now` reads the clock. Nothing is claimed of the reading: it
/// differs from one call to the next.
#[verifier::external_body]
fn now() -> (instant: Instant) {
    Instant::now()
}

/// `Instant::duration_since` gives the time from `earlier` to `later`, zero
/// where `earlier` is the later one. Nothing is claimed of the duration.
#[verifier::external_body]
fn since(later: &Instant, earlier: &Instant) -> (elapsed: Duration) {
    later.duration_since(*earlier)
}

/// `Duration::as_nanos` gives the length of a duration in nanoseconds.
/// Nothing is claimed of the number.
#[verifier::external_body]
fn length_nanos(duration: &Duration) -> (nanos: u128) {
    duration.as_nanos()
}

/// The first `n` of `samples` without those whose age is beyond `limit`,
/// in their order.
pub open spec fn fresh(
    samples: Seq<(isize, Instant)>,
    ages: Seq<u128>,
    limit: u128,
    n: int,
) -> Seq<(isize, Instant)>
    decreases n,
{
    if n <= 0 {
        Seq::empty()
    } else if ages[n - 1] > limit {
        fresh(samples, ages, limit, n - 1)
    } else {
        fresh(samples, ages, limit, n - 1).push(samples[n - 1])
    }
}

/// Whether `after` is `before` without the samples that were too old, for
/// some ages of the samples and some limit on them.
pub open spec fn sifted(before: Seq<(isize, Instant)>, after: Seq<(isize, Instant)>) -> bool {
    exists|ages: Seq<u128>, limit: u128|
        ages.len() == before.len() && after == #[trigger] fresh(
            before,
            ages,
            limit,
            before.len() as int,
        )
}

/// Whether `after` is `before` with a sample of `value` added, without the
/// samples that were too old.
pub open spec fn sampled(
    before: Seq<(isize, Instant)>,
    value: isize,
    after: Seq<(isize, Instant)>,
) -> bool {
    exists|taken: Instant| #[trigger] sifted(before.push((value, taken)), after)
}

/// Takes out of `samples` those whose age is beyond `limit`. The others
/// stay in their order.
pub fn retain_fresh(samples: &mut Vec<(isize, Instant)>, ages: &Vec<u128>, limit: u128)
    requires
        ages.len() == old(samples).len(),
    ensures
        final(samples)@ == fresh(old(samples)@, ages@, limit, old(samples).len() as int),
{
    let ghost all = samples@;
    let n: usize = samples.len();
    let mut i: usize = 0;
    let mut kept: usize = 0;
    while i < n
        invariant
            i <= n,
            n == all.len(),
            n == ages.len(),
            kept == fresh(all, ages@, limit, i as int).len(),
            kept <= i,
            samples@ == fresh(all, ages@, limit, i as int) + all.subrange(i as int, n as int),
        decreases n - i,
    {
        if ages[i] > limit {
            samples.remove(kept);
        } else {
            kept += 1;
        }
        i += 1;
    }
}

/// The rise from the oldest to the newest of `samples`: nothing where there
/// is no sample or the difference does not fit.
pub open spec fn rate_of(samples: Seq<(isize, Instant)>) -> Option<isize> {
    if samples.len() == 0 {
        None
    } else if isize::MIN <= samples.last().0 - samples.first().0 <= isize::MAX {
        Some((samples.last().0 - samples.first().0) as isize)
    } else {
        None
    }
}

/// The rise from the oldest to the newest of `samples`.
pub fn rate(samples: &Vec<(isize, Instant)>) -> (r: Option<isize>)
    ensures
        r == rate_of(samples@),
{
    if samples.len() == 0 {
        return None;
    }
    let newest: isize = samples[samples.len() - 1].0;
    let oldest: isize = samples[0].0;
    newest.checked_sub(oldest)
}

/// Tracks how fast a value increases, or how fast a state changes: for
/// example how often a command is run over a period of time.
pub struct RateTracker {
    tracking_length: Duration,
    samples: Vec<(isize, Instant)>,
}

impl RateTracker {
    /// The samples that are held, oldest first.
    pub closed spec fn samples(&self) -> Seq<(isize, Instant)> {
        self.samples@
    }

    /// The time for which a sample is kept.
    pub closed spec fn tracking_length(&self) -> Duration {
        self.tracking_length
    }

    /// A tracker without samples.
    pub fn new(tracking_length: Duration) -> (tracker: RateTracker)
        ensures
            tracker.samples().len() == 0,
            tracker.tracking_length() == tracking_length,
    {
        RateTracker { tracking_length, samples: Vec::new() }
    }

    /// Takes out the samples that are older than the tracking length, as
    /// the clock has it now. Which those are is the clock's to say: the
    /// samples that stay are the fresh ones for some ages.
    pub fn remove_expired_samples(&mut self)
        ensures
            final(self).tracking_length() == old(self).tracking_length(),
            sifted(old(self).samples(), final(self).samples()),
    {
        let limit: u128 = length_nanos(&self.tracking_length);
        let mut ages: Vec<u128> = Vec::new();
        let mut i: usize = 0;
        while i < self.samples.len()
            invariant
                i <= self.samples.len(),
                ages.len() == i,
                self.samples == old(self).samples,
                self.tracking_length == old(self).tracking_length,
            decreases self.samples.len() - i,
        {
            let read: Instant = now();
            let age: Duration = since(&read, &self.samples[i].1);
            ages.push(length_nanos(&age));
            i += 1;
        }
        retain_fresh(&mut self.samples, &ages, limit);
    }

    /// Adds a sample of the value, taken now.
    pub fn add_sample(&mut self, value: isize)
        ensures
            final(self).tracking_length() == old(self).tracking_length(),
            sampled(old(self).samples(), value, final(self).samples()),
    {
        let taken: Instant = now();
        self.samples.push((value, taken));
        self.remove_expired_samples();
    }

    /// The rise from the oldest to the newest of the samples that are still
    /// fresh.
    pub fn get_rate(&mut self) -> (r: Option<isize>)
        ensures
            final(self).tracking_length() == old(self).tracking_length(),
            sifted(old(self).samples(), final(self).samples()),
            r == rate_of(final(self).samples()),
    {
        self.remove_expired_samples();
        rate(&self.samples)
    }
}

} // verus!
