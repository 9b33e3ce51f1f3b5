//! Sample timestamps and the conversion of time into samples.
use std::time::Duration;

use vstd::arithmetic::div_mod::{
    lemma_div_is_ordered, lemma_div_multiples_vanish_fancy, lemma_div_pos_is_pos, lemma_fundamental_div_mod,
    lemma_mod_bound,
};
use vstd::prelude::*;

use crate::time::{
    duration_abs_diff, duration_as_secs, duration_lt, duration_nanos, duration_subsec,
    duration_zero, NANOS_PER_SEC,
};
use crate::SampleType;

verus! {

/// The number of whole samples played at `sample_rate` samples per second in
/// `nanos` nanoseconds: the fraction of a sample left over is dropped.
pub open spec fn samples_in_nanos(nanos: int, sample_rate: int) -> int {
    (nanos * sample_rate) / (NANOS_PER_SEC as int)
}

/// The number of whole samples played at `sample_rate` in the duration `d`.
pub open spec fn duration_samples(d: Duration, sample_rate: u32) -> int {
    samples_in_nanos(duration_nanos(d), sample_rate as int)
}

/// Counting the samples of the whole seconds and of the sub-second nanoseconds apart
/// gives the same count as counting them over the whole duration.
proof fn lemma_samples_split(secs: int, nanos: int, rate: int)
    requires
        0 <= secs,
        0 <= nanos,
        0 <= rate,
    ensures
        samples_in_nanos(secs * NANOS_PER_SEC + nanos, rate) == secs * rate + (nanos * rate)
            / (NANOS_PER_SEC as int),
{
    let d: int = NANOS_PER_SEC as int;
    let b: int = nanos * rate;
    assert((secs * d + nanos) * rate == d * (secs * rate) + b) by (nonlinear_arith)
        requires
            b == nanos * rate,
    ;
    lemma_fundamental_div_mod(b, d);
    lemma_mod_bound(b, d);
    assert(d * (secs * rate) + b == d * (secs * rate + b / d) + b % d) by (nonlinear_arith)
        requires
            b == d * (b / d) + b % d,
    ;
    lemma_div_multiples_vanish_fancy(secs * rate + b / d, b % d, d);
}

/// The samples of less than a second, at a rate that fits in a `u32`, number at least
/// zero, and their product with the rate fits in a `u64`.
proof fn lemma_subsecond_samples_bounds(nanos: int, rate: int)
    requires
        0 <= nanos < NANOS_PER_SEC,
        0 <= rate <= u32::MAX,
    ensures
        0 <= nanos * rate <= (NANOS_PER_SEC as int) * (u32::MAX as int),
        0 <= (nanos * rate) / (NANOS_PER_SEC as int),
{
    assert(0 <= nanos * rate <= 1_000_000_000 * 0xffff_ffff) by (nonlinear_arith)
        requires
            0 <= nanos < 1_000_000_000,
            0 <= rate <= 0xffff_ffff,
    ;
    lemma_div_pos_is_pos(nanos * rate, NANOS_PER_SEC as int);
}

/// Samples never number fewer for a longer time or a higher rate.
pub proof fn lemma_samples_in_nanos_monotonic(n1: int, n2: int, r1: int, r2: int)
    requires
        0 <= n1 <= n2,
        0 <= r1 <= r2,
    ensures
        samples_in_nanos(n1, r1) <= samples_in_nanos(n2, r2),
{
    assert(n1 * r1 <= n2 * r2) by (nonlinear_arith)
        requires
            0 <= n1 <= n2,
            0 <= r1 <= r2,
    ;
    lemma_div_is_ordered(n1 * r1, n2 * r2, NANOS_PER_SEC as int);
}

/// A duration with more nanoseconds never holds fewer samples, nor does a higher
/// sample rate.
pub proof fn lemma_duration_samples_monotonic(d1: Duration, d2: Duration, r1: u32, r2: u32)
    requires
        duration_nanos(d1) <= duration_nanos(d2),
        r1 <= r2,
    ensures
        duration_samples(d1, r1) <= duration_samples(d2, r2),
{
    lemma_samples_in_nanos_monotonic(duration_nanos(d1), duration_nanos(d2), r1 as int, r2 as int);
}

/// One more second of playback holds exactly `sample_rate` more samples.
pub proof fn lemma_one_second_more(nanos: int, sample_rate: int)
    requires
        0 <= nanos,
        0 <= sample_rate,
    ensures
        samples_in_nanos(nanos + NANOS_PER_SEC, sample_rate) == samples_in_nanos(nanos, sample_rate)
            + sample_rate,
{
    lemma_samples_split(1, nanos, sample_rate);
}

/// Converts a duration into the number of whole samples played in it at
/// `sample_rate` samples per second, rounding down.
pub fn duration_to_samples(duration: Duration, sample_rate: u32) -> (samples: SampleType)
    requires
        duration_samples(duration, sample_rate) <= SampleType::MAX,
    ensures
        samples == duration_samples(duration, sample_rate),
{
    let sample_rate: SampleType = sample_rate as SampleType;
    let duration_secs: SampleType = duration_as_secs(&duration);
    let duration_nanos: SampleType = duration_subsec(&duration) as SampleType;
    proof {
        lemma_samples_split(duration_secs as int, duration_nanos as int, sample_rate as int);
        lemma_subsecond_samples_bounds(duration_nanos as int, sample_rate as int);
    }
    let samples_secs: SampleType = duration_secs * sample_rate;
    let samples_nanos: SampleType = (duration_nanos * sample_rate) / NANOS_PER_SEC;
    samples_secs + samples_nanos
}

/// Converts a duration into samples as [`duration_to_samples`] does, or gives `None`
/// where the count does not fit in a [`SampleType`].
pub fn checked_duration_to_samples(duration: Duration, sample_rate: u32) -> (samples: Option<
    SampleType,
>)
    ensures
        samples == if duration_samples(duration, sample_rate) <= SampleType::MAX {
            Some(duration_samples(duration, sample_rate) as SampleType)
        } else {
            None::<SampleType>
        },
{
    let rate: SampleType = sample_rate as SampleType;
    let secs: SampleType = duration_as_secs(&duration);
    let nanos: SampleType = duration_subsec(&duration) as SampleType;
    proof {
        lemma_samples_split(secs as int, nanos as int, rate as int);
        lemma_subsecond_samples_bounds(nanos as int, rate as int);
    }
    let samples_nanos: SampleType = (nanos * rate) / NANOS_PER_SEC;
    match secs.checked_mul(rate) {
        Some(samples_secs) => samples_secs.checked_add(samples_nanos),
        None => None,
    }
}

/// Timestamp data for an audio playback event, made when the audio thread hands a
/// batch of samples to the output device.
///
/// Use [`crate::StreamHandle::sample_count`] to get an interpolated playback position
/// rather than making this type directly.
#[derive(Clone, Copy, Debug)]
pub struct SampleTimestamp {
    /// A duration since some unspecified start time at or before the moment the stream
    /// that made this timestamp began.
    timestamp: Duration,
    /// The number of the sample being sent to the playback thread at this time.
    sample_n: SampleType,
    /// The predicted latency of the stream: the time between the samples being sent and
    /// their playback by the output device.
    latency: Duration,
}

impl SampleTimestamp {
    /// The time at which the batch was sent.
    pub closed spec fn spec_timestamp(self) -> Duration {
        self.timestamp
    }

    /// The number of the first sample of the batch.
    pub closed spec fn spec_sample_n(self) -> SampleType {
        self.sample_n
    }

    /// The predicted latency of the stream when the batch was sent.
    pub closed spec fn spec_latency(self) -> Duration {
        self.latency
    }

    /// The number of samples between the time of this timestamp and `current`.
    pub open spec fn spec_elapsed_samples(self, current: Duration, sample_rate: u32) -> int {
        let t: int = duration_nanos(self.spec_timestamp());
        let c: int = duration_nanos(current);
        samples_in_nanos(if t >= c { t - c } else { c - t }, sample_rate as int)
    }

    /// The sample position at `current` before latency is applied: the sample number
    /// moved forward or back by the samples between this timestamp and `current`.
    pub open spec fn spec_sent_position(self, current: Duration, sample_rate: u32) -> int {
        if duration_nanos(current) < duration_nanos(self.spec_timestamp()) {
            self.spec_sample_n() - self.spec_elapsed_samples(current, sample_rate)
        } else {
            self.spec_sample_n() + self.spec_elapsed_samples(current, sample_rate)
        }
    }

    /// The interpolated playback position at `current`: the position of the samples
    /// being sent at `current`, less the samples still in flight because of latency,
    /// and zero where playback has not reached the first sample yet.
    pub open spec fn spec_interpolated(self, current: Duration, sample_rate: u32) -> int {
        let sent: int = self.spec_sent_position(current, sample_rate);
        let latency: int = duration_samples(self.spec_latency(), sample_rate);
        if sent > latency {
            sent - latency
        } else {
            0
        }
    }

    /// The counts that interpolation computes all fit in a [`SampleType`].
    pub open spec fn spec_interpolation_fits(self, current: Duration, sample_rate: u32) -> bool {
        &&& self.spec_elapsed_samples(current, sample_rate) <= SampleType::MAX
        &&& duration_samples(self.spec_latency(), sample_rate) <= SampleType::MAX
        &&& self.spec_sent_position(current, sample_rate) <= SampleType::MAX
    }

    /// Makes a timestamp for the batch starting at sample `sample_n`, sent at
    /// `timestamp` with the predicted `latency`.
    #[inline]
    pub fn new(timestamp: Duration, latency: Duration, sample_n: SampleType) -> (r: Self)
        ensures
            r.spec_timestamp() == timestamp,
            r.spec_latency() == latency,
            r.spec_sample_n() == sample_n,
    {
        Self { timestamp, sample_n, latency }
    }

    /// Interpolates the playback position at `current_timestamp` from this timestamp.
    ///
    /// The position moves on from the sample number at `sample_rate` samples per second
    /// (or back, for a time before this timestamp, stopping at zero); the samples that
    /// the stream's latency holds back are then taken off, and a position that playback
    /// has not reached yet is zero.
    #[inline]
    pub fn interpolate(&self, current_timestamp: Duration, sample_rate: u32) -> (r: SampleType)
        requires
            self.spec_interpolation_fits(current_timestamp, sample_rate),
        ensures
            r == self.spec_interpolated(current_timestamp, sample_rate),
    {
        let mut sample_n: SampleType = self.sample_n;

        let time_diff = duration_abs_diff(self.timestamp, current_timestamp);
        let time_diff_samples: SampleType = duration_to_samples(time_diff, sample_rate);

        if duration_lt(&current_timestamp, &self.timestamp) {
            sample_n = sample_n.saturating_sub(time_diff_samples);
        } else {
            sample_n = sample_n + time_diff_samples;
        }

        let latency_samples: SampleType = self.latency_samples(sample_rate);

        // Apply audio latency.
        if sample_n > latency_samples {
            sample_n - latency_samples
        } else {
            // The stream data has not started playing in the output device yet.
            0
        }
    }

    /// Interpolates as [`SampleTimestamp::interpolate`] does, or gives `None` where a
    /// count that interpolation computes does not fit in a [`SampleType`].
    pub fn checked_interpolate(&self, current_timestamp: Duration, sample_rate: u32) -> (r: Option<
        SampleType,
    >)
        ensures
            r == if self.spec_interpolation_fits(current_timestamp, sample_rate) {
                Some(self.spec_interpolated(current_timestamp, sample_rate) as SampleType)
            } else {
                None::<SampleType>
            },
    {
        let time_diff = duration_abs_diff(self.timestamp, current_timestamp);
        let elapsed = checked_duration_to_samples(time_diff, sample_rate);
        let latency = checked_duration_to_samples(self.latency, sample_rate);
        match (elapsed, latency) {
            (Some(elapsed), Some(_)) => {
                if duration_lt(&current_timestamp, &self.timestamp) || self.sample_n <= SampleType::MAX
                    - elapsed {
                    Some(self.interpolate(current_timestamp, sample_rate))
                } else {
                    None
                }
            },
            _ => None,
        }
    }

    /// The predicted latency of the stream when this timestamp was made.
    pub fn latency(&self) -> (r: Duration)
        ensures
            r == self.spec_latency(),
    {
        self.latency
    }

    /// The stream's latency as a number of samples at `sample_rate`.
    pub fn latency_samples(&self, sample_rate: u32) -> (r: SampleType)
        requires
            duration_samples(self.spec_latency(), sample_rate) <= SampleType::MAX,
        ensures
            r == duration_samples(self.spec_latency(), sample_rate),
    {
        duration_to_samples(self.latency, sample_rate)
    }
}

impl Default for SampleTimestamp {
    /// The timestamp of sample zero, sent at the start time with no latency.
    fn default() -> (r: Self)
        ensures
            duration_nanos(r.spec_timestamp()) == 0,
            duration_nanos(r.spec_latency()) == 0,
            r.spec_sample_n() == 0,
    {
        Self::new(duration_zero(), duration_zero(), 0)
    }
}

/// The interpolated playback position never goes back as the current time moves on.
pub proof fn lemma_interpolation_monotonic(
    timestamp: SampleTimestamp,
    earlier: Duration,
    later: Duration,
    sample_rate: u32,
)
    requires
        duration_nanos(earlier) <= duration_nanos(later),
    ensures
        timestamp.spec_interpolated(earlier, sample_rate) <= timestamp.spec_interpolated(
            later,
            sample_rate,
        ),
{
    let t: int = duration_nanos(timestamp.spec_timestamp());
    let e: int = duration_nanos(earlier);
    let l: int = duration_nanos(later);
    let r: int = sample_rate as int;
    if e < t && l < t {
        lemma_samples_in_nanos_monotonic(t - l, t - e, r, r);
    } else if e >= t && l >= t {
        lemma_samples_in_nanos_monotonic(e - t, l - t, r, r);
    } else {
        lemma_samples_in_nanos_monotonic(0, t - e, r, r);
        lemma_samples_in_nanos_monotonic(0, l - t, r, r);
    }
    assert(timestamp.spec_sent_position(earlier, sample_rate) <= timestamp.spec_sent_position(
        later,
        sample_rate,
    ));
}

/// At the time of a timestamp, the interpolated position is its sample number less the
/// samples that latency holds back, or zero where the latency holds back all of them.
pub proof fn lemma_interpolation_at_timestamp(timestamp: SampleTimestamp, sample_rate: u32)
    ensures
        timestamp.spec_interpolated(timestamp.spec_timestamp(), sample_rate) == if timestamp.spec_sample_n()
            > duration_samples(timestamp.spec_latency(), sample_rate) {
            timestamp.spec_sample_n() - duration_samples(timestamp.spec_latency(), sample_rate)
        } else {
            0
        },
{
    assert(samples_in_nanos(0, sample_rate as int) == 0);
}

/// The stream's latency is taken off exactly once, whichever side of the timestamp the
/// time lies on: the position is the one that the same timestamp without latency gives,
/// less the latency's samples, or zero where that leaves nothing.
pub proof fn lemma_latency_taken_off_once(
    timestamp: SampleTimestamp,
    without_latency: SampleTimestamp,
    current: Duration,
    sample_rate: u32,
)
    requires
        without_latency.spec_timestamp() == timestamp.spec_timestamp(),
        without_latency.spec_sample_n() == timestamp.spec_sample_n(),
        duration_nanos(without_latency.spec_latency()) == 0,
    ensures
        ({
            let position = without_latency.spec_interpolated(current, sample_rate);
            let latency = duration_samples(timestamp.spec_latency(), sample_rate);
            timestamp.spec_interpolated(current, sample_rate) == if position > latency {
                position - latency
            } else {
                0
            }
        }),
{
    assert(samples_in_nanos(0, sample_rate as int) == 0);
    lemma_samples_in_nanos_monotonic(0, duration_nanos(timestamp.spec_latency()), 0, sample_rate as int);
    assert(samples_in_nanos(0, 0) == 0);
}

/// Without latency, the position moves with time at the sample rate: a time after the
/// timestamp is the sample number plus the samples played since, and a time before it
/// is the sample number less the samples still to be played until it, or zero where
/// there are fewer samples than that.
pub proof fn lemma_position_moves_with_time(
    timestamp: SampleTimestamp,
    current: Duration,
    sample_rate: u32,
)
    requires
        duration_nanos(timestamp.spec_latency()) == 0,
    ensures
        ({
            let t = duration_nanos(timestamp.spec_timestamp());
            let c = duration_nanos(current);
            let n = timestamp.spec_sample_n();
            &&& t <= c ==> timestamp.spec_interpolated(current, sample_rate) == n
                + samples_in_nanos(c - t, sample_rate as int)
            &&& c < t ==> timestamp.spec_interpolated(current, sample_rate) == if n
                > samples_in_nanos(t - c, sample_rate as int) {
                n - samples_in_nanos(t - c, sample_rate as int)
            } else {
                0
            }
        }),
{
    let t: int = duration_nanos(timestamp.spec_timestamp());
    let c: int = duration_nanos(current);
    assert(samples_in_nanos(0, sample_rate as int) == 0);
    if t <= c {
        lemma_samples_in_nanos_monotonic(0, c - t, sample_rate as int, sample_rate as int);
    }
}

} // verus!
