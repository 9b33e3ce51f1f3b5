//! The audio stream's playback position: the state the audio thread keeps while it
//! fills buffers, and the handle through which other threads read the position.
use std::time::{Duration, Instant};

use vstd::prelude::*;
use vstd::std_specs::convert::FromSpec;

use crate::config::{OutputStreamConfig, SampleFormat, StreamConfig};
use crate::error::StreamError;
use crate::sample::SampleTimestamp;
use crate::sample_timestamp_buffer::{BufferConsumer, BufferProducer};
use crate::time::{duration_nanos, duration_zero, instant_duration_since, instant_elapsed, instant_now};
use crate::SampleType;

verus! {

/// The next value of a counter that never goes back: the position interpolated from
/// `timestamp` at `now` where it is larger than `last` (and fits in a
/// [`SampleType`]), else `last`.
pub open spec fn spec_next_sample_count(
    last: SampleType,
    timestamp: SampleTimestamp,
    now: Duration,
    sample_rate: u32,
) -> SampleType {
    if timestamp.spec_interpolation_fits(now, sample_rate) && timestamp.spec_interpolated(
        now,
        sample_rate,
    ) > last {
        timestamp.spec_interpolated(now, sample_rate) as SampleType
    } else {
        last
    }
}

/// The jitter-free sample count after `last`: the position interpolated from
/// `timestamp` at `now` where it is larger than `last`, else `last` again.
pub fn next_sample_count(
    last: SampleType,
    timestamp: &SampleTimestamp,
    now: Duration,
    sample_rate: u32,
) -> (r: SampleType)
    ensures
        r == spec_next_sample_count(last, *timestamp, now, sample_rate),
        r >= last,
        timestamp.spec_interpolation_fits(now, sample_rate) ==> r == if timestamp.spec_interpolated(
            now,
            sample_rate,
        ) > last {
            timestamp.spec_interpolated(now, sample_rate)
        } else {
            last as int
        },
        !timestamp.spec_interpolation_fits(now, sample_rate) ==> r == last,
{
    match timestamp.checked_interpolate(now, sample_rate) {
        Some(sample_n) => {
            // Make sure samples are always increasing to prevent jitter.
            if sample_n > last {
                sample_n
            } else {
                last
            }
        },
        None => last,
    }
}

/// The jitter-free count is the larger of the last count and the position interpolated
/// at the stream's own sample rate, and stays at the last count where that position
/// does not fit in a [`SampleType`].
pub proof fn lemma_next_sample_count_is_larger_of(
    last: SampleType,
    timestamp: SampleTimestamp,
    now: Duration,
    sample_rate: u32,
)
    ensures
        timestamp.spec_interpolation_fits(now, sample_rate) ==> spec_next_sample_count(
            last,
            timestamp,
            now,
            sample_rate,
        ) == if timestamp.spec_interpolated(now, sample_rate) > last {
            timestamp.spec_interpolated(now, sample_rate)
        } else {
            last as int
        },
        !timestamp.spec_interpolation_fits(now, sample_rate) ==> spec_next_sample_count(
            last,
            timestamp,
            now,
            sample_rate,
        ) == last,
{
}

/// The settings an output stream is built with: the stream configuration for the
/// device and the number of channels the position counter divides buffers by.
///
/// Fails with [`StreamError::UnsupportedSampleFormat`] exactly where the configured
/// sample format is one that the library cannot write (`I24`).
pub fn stream_settings(config: &OutputStreamConfig) -> (r: Result<(StreamConfig, SampleType), StreamError>)
    ensures
        config.sample_format == SampleFormat::I24 <==> r matches Err(
            StreamError::UnsupportedSampleFormat,
        ),
        config.sample_format != SampleFormat::I24 ==> r == Ok::<(StreamConfig, SampleType), StreamError>(
            (StreamConfig::from_spec(config), config.channel_count as SampleType),
        ),
{
    match config.sample_format {
        SampleFormat::I24 => Err(StreamError::UnsupportedSampleFormat),
        _ => {
            let channels: SampleType = config.channel_count as SampleType;
            Ok((StreamConfig::from(config), channels))
        },
    }
}

/// The timestamp of the batch starting at sample `sample_n` sent at `now`: the time
/// from `start_time` to `now`, and the latency the device predicts for the batch (none
/// where the device gives no prediction).
pub fn playback_timestamp(
    now: &Instant,
    start_time: &Instant,
    sample_n: SampleType,
    latency: Option<Duration>,
) -> (r: SampleTimestamp)
    ensures
        r.spec_timestamp() == instant_elapsed(*now, *start_time),
        r.spec_sample_n() == sample_n,
        latency matches Some(l) ==> r.spec_latency() == l,
        latency is None ==> duration_nanos(r.spec_latency()) == 0,
{
    let timestamp_now = instant_duration_since(now, start_time);

    let latency = match latency {
        Some(latency) => latency,
        None => duration_zero(),
    };

    SampleTimestamp::new(timestamp_now, latency, sample_n)
}

/// Publishes the playback position of the batch starting at sample `sample_n`, sent
/// now, with the latency the device predicts for it.
#[inline]
fn update_playback_position(
    prod: &mut BufferProducer,
    start_time: Instant,
    sample_n: SampleType,
    latency: Option<Duration>,
)
    ensures
        final(prod).spec_last_published().spec_sample_n() == sample_n,
        latency matches Some(l) ==> final(prod).spec_last_published().spec_latency() == l,
        latency is None ==> duration_nanos(final(prod).spec_last_published().spec_latency()) == 0,
        exists|now: Instant|
            final(prod).spec_last_published().spec_timestamp() == #[trigger] instant_elapsed(
                now,
                start_time,
            ),
{
    let now = instant_now();
    prod.update(playback_timestamp(&now, &start_time, sample_n, latency));
}

/// The state the audio thread keeps while it fills output buffers: the number of the
/// next sample to be sent, and the producer end through which it publishes the
/// position of each batch.
pub struct PositionWriter {
    producer: BufferProducer,
    start_time: Instant,
    sample_n: SampleType,
    channels: SampleType,
}

impl PositionWriter {
    /// The number of the next sample (frame) to be sent.
    pub closed spec fn spec_sample_n(self) -> SampleType {
        self.sample_n
    }

    /// The number of interleaved channels in each buffer.
    pub closed spec fn spec_channels(self) -> SampleType {
        self.channels
    }

    /// The instant that the positions are timed from.
    pub closed spec fn spec_start_time(self) -> Instant {
        self.start_time
    }

    /// The timestamp the writer has published last.
    pub closed spec fn spec_last_published(self) -> SampleTimestamp {
        self.producer.spec_last_published()
    }

    /// A writer that starts at sample zero.
    pub fn new(producer: BufferProducer, start_time: Instant, channels: SampleType) -> (r: Self)
        ensures
            r.spec_sample_n() == 0,
            r.spec_last_published() == producer.spec_last_published(),
            r.spec_channels() == channels,
            r.spec_start_time() == start_time,
    {
        PositionWriter { producer, start_time, sample_n: 0, channels }
    }

    /// The number of the next sample (frame) to be sent.
    pub fn sample_n(&self) -> (r: SampleType)
        ensures
            r == self.spec_sample_n(),
    {
        self.sample_n
    }

    /// The number of interleaved channels in each buffer.
    pub fn channels(&self) -> (r: SampleType)
        ensures
            r == self.spec_channels(),
    {
        self.channels
    }

    /// Records a buffer of `data_len` interleaved samples about to be filled: publishes
    /// the position of its first frame with the device's predicted `latency`, then
    /// moves on by the number of frames in it.
    pub fn on_buffer(&mut self, data_len: usize, latency: Option<Duration>)
        requires
            old(self).spec_channels() > 0,
            old(self).spec_sample_n() + data_len as int / old(self).spec_channels() as int
                <= SampleType::MAX,
        ensures
            final(self).spec_sample_n() == old(self).spec_sample_n() + data_len as int / old(
                self,
            ).spec_channels() as int,
            final(self).spec_channels() == old(self).spec_channels(),
            final(self).spec_start_time() == old(self).spec_start_time(),
            final(self).spec_last_published().spec_sample_n() == old(self).spec_sample_n(),
            latency matches Some(l) ==> final(self).spec_last_published().spec_latency() == l,
            latency is None ==> duration_nanos(final(self).spec_last_published().spec_latency())
                == 0,
            exists|now: Instant|
                final(self).spec_last_published().spec_timestamp() == #[trigger] instant_elapsed(
                    now,
                    old(self).spec_start_time(),
                ),
    {
        update_playback_position(&mut self.producer, self.start_time, self.sample_n, latency);
        self.sample_n = self.sample_n + data_len as SampleType / self.channels;
    }
}

/// A handle for accessing and communicating with the audio stream.
///
/// It holds the stream itself (`S`); if this struct is dropped, playback will stop.
pub struct StreamHandle<S> {
    _handle: S,
    config: OutputStreamConfig,
    start_time: Instant,
    last_sample_number: SampleType,
    sample_timestamp_consumer: BufferConsumer,
}

impl<S> StreamHandle<S> {
    /// The configuration the stream was opened with.
    pub closed spec fn spec_config(self) -> OutputStreamConfig {
        self.config
    }

    /// The instant that the stream's positions are timed from.
    pub closed spec fn spec_start_time(self) -> Instant {
        self.start_time
    }

    /// The largest sample count reported so far.
    pub closed spec fn spec_last_sample_number(self) -> SampleType {
        self.last_sample_number
    }

    /// The published timestamp the handle holds: the one its latest read gave.
    pub closed spec fn spec_held(self) -> SampleTimestamp {
        self.sample_timestamp_consumer.spec_held()
    }

    /// A handle on the stream `handle`, opened with `config` at `start_time`, reading
    /// the positions its audio thread publishes through `consumer`. No sample count has
    /// been reported yet.
    pub fn new(handle: S, config: OutputStreamConfig, start_time: Instant, consumer: BufferConsumer) -> (r: Self)
        ensures
            r.spec_config() == config,
            r.spec_start_time() == start_time,
            r.spec_last_sample_number() == 0,
            r.spec_held() == consumer.spec_held(),
    {
        StreamHandle {
            _handle: handle,
            config,
            start_time,
            last_sample_number: 0,
            sample_timestamp_consumer: consumer,
        }
    }

    /// Returns an interpolated value for the high-precision sample counter tracking
    /// this stream.
    ///
    /// The value is interpolated from the latest position the audio thread published,
    /// at the time of the call, and never goes back: where the interpolated position is
    /// not larger than the last count reported (or does not fit in a [`SampleType`]),
    /// the last count is reported again.
    pub fn sample_count(&mut self) -> (r: SampleType)
        ensures
            r == final(self).spec_last_sample_number(),
            r >= old(self).spec_last_sample_number(),
            final(self).spec_config() == old(self).spec_config(),
            final(self).spec_start_time() == old(self).spec_start_time(),
            exists|now: Instant|
                r == spec_next_sample_count(
                    old(self).spec_last_sample_number(),
                    final(self).spec_held(),
                    #[trigger] instant_elapsed(now, old(self).spec_start_time()),
                    old(self).spec_config().sample_rate,
                ),
    {
        let now = instant_now();
        let timestamp_now = instant_duration_since(&now, &self.start_time);

        let timestamp_data = *self.sample_timestamp_consumer.newest();

        let sample_n: SampleType = next_sample_count(
            self.last_sample_number,
            &timestamp_data,
            timestamp_now,
            self.config.sample_rate,
        );
        self.last_sample_number = sample_n;

        self.last_sample_number
    }

    /// Returns the sample count interpolated at `time` from the latest position the
    /// audio thread published, without recording it: the counter that
    /// [`StreamHandle::sample_count`] keeps from going back is left as it is.
    ///
    /// Gives `None` where a count that interpolation computes does not fit in a
    /// [`SampleType`].
    pub fn sample_count_at(&mut self, time: Instant) -> (r: Option<SampleType>)
        ensures
            final(self).spec_last_sample_number() == old(self).spec_last_sample_number(),
            final(self).spec_config() == old(self).spec_config(),
            final(self).spec_start_time() == old(self).spec_start_time(),
            ({
                let held = final(self).spec_held();
                let elapsed = instant_elapsed(time, old(self).spec_start_time());
                let rate = old(self).spec_config().sample_rate;
                r == if held.spec_interpolation_fits(elapsed, rate) {
                    Some(held.spec_interpolated(elapsed, rate) as SampleType)
                } else {
                    None::<SampleType>
                }
            }),
    {
        let timestamp_now = instant_duration_since(&time, &self.start_time);

        let timestamp_data = *self.sample_timestamp_consumer.newest();

        timestamp_data.checked_interpolate(timestamp_now, self.config.sample_rate)
    }
}

} // verus!
