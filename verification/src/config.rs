//! The configuration of an output stream.
use rodio::{ChannelCount, SampleRate};
use vstd::prelude::*;
use vstd::std_specs::convert::FromSpec;

verus! {

/// The sample rate of the default configuration, in samples per second.
pub const HZ_48000: u32 = 48_000;

/// The buffer size asked of the output device (the values of `cpal::BufferSize`).
#[derive(Clone, Copy, Debug, PartialEq, Eq, Structural)]
pub enum BufferSize {
    /// The host's default buffer size.
    Default,
    /// A buffer of the given number of frames.
    Fixed(u32),
}

/// The format of each sample sent to the output device (the values of
/// `cpal::SampleFormat`).
#[derive(Clone, Copy, Debug, PartialEq, Eq, Structural)]
pub enum SampleFormat {
    I8,
    I16,
    I24,
    I32,
    I64,
    U8,
    U16,
    U32,
    U64,
    F32,
    F64,
}

/// The configuration that an output stream is opened with on the device (the fields
/// of `cpal::StreamConfig`).
#[derive(Clone, Copy, Debug, PartialEq, Eq, Structural)]
pub struct StreamConfig {
    pub channels: ChannelCount,
    pub sample_rate: SampleRate,
    pub buffer_size: BufferSize,
}

/// Describes the output stream's configuration.
#[derive(Copy, Clone, Debug)]
pub struct OutputStreamConfig {
    pub channel_count: ChannelCount,
    pub sample_rate: SampleRate,
    pub buffer_size: BufferSize,
    pub sample_format: SampleFormat,
}

impl Default for OutputStreamConfig {
    /// Two channels at 48 kHz, with the host's default buffer size and `f32` samples.
    fn default() -> (r: Self)
        ensures
            r.channel_count == 2,
            r.sample_rate == HZ_48000,
            r.buffer_size == BufferSize::Default,
            r.sample_format == SampleFormat::F32,
    {
        Self {
            channel_count: 2,
            sample_rate: HZ_48000,
            buffer_size: BufferSize::Default,
            sample_format: SampleFormat::F32,
        }
    }
}

impl<'a> From<&'a OutputStreamConfig> for StreamConfig {
    /// The channels, sample rate and buffer size of the output configuration.
    fn from(config: &'a OutputStreamConfig) -> (r: Self)
        ensures
            r.channels == config.channel_count,
            r.sample_rate == config.sample_rate,
            r.buffer_size == config.buffer_size,
    {
        StreamConfig {
            channels: config.channel_count,
            sample_rate: config.sample_rate,
            buffer_size: config.buffer_size,
        }
    }
}

impl<'a> vstd::std_specs::convert::FromSpecImpl<&'a OutputStreamConfig> for StreamConfig {
    open spec fn obeys_from_spec() -> bool {
        true
    }

    open spec fn from_spec(config: &'a OutputStreamConfig) -> Self {
        StreamConfig {
            channels: config.channel_count,
            sample_rate: config.sample_rate,
            buffer_size: config.buffer_size,
        }
    }
}

impl From<StreamConfig> for OutputStreamConfig {
    /// The output configuration with the stream configuration's channels, sample rate
    /// and buffer size, and `f32` samples.
    fn from(config: StreamConfig) -> (r: Self)
        ensures
            r.channel_count == config.channels,
            r.sample_rate == config.sample_rate,
            r.buffer_size == config.buffer_size,
            r.sample_format == SampleFormat::F32,
    {
        OutputStreamConfig {
            channel_count: config.channels,
            sample_rate: config.sample_rate,
            buffer_size: config.buffer_size,
            sample_format: SampleFormat::F32,
        }
    }
}

impl vstd::std_specs::convert::FromSpecImpl<StreamConfig> for OutputStreamConfig {
    open spec fn obeys_from_spec() -> bool {
        true
    }

    open spec fn from_spec(config: StreamConfig) -> Self {
        OutputStreamConfig {
            channel_count: config.channels,
            sample_rate: config.sample_rate,
            buffer_size: config.buffer_size,
            sample_format: SampleFormat::F32,
        }
    }
}

impl OutputStreamConfig {
    /// Access the output stream config's channel count.
    pub fn channel_count(&self) -> (r: ChannelCount)
        ensures
            r == self.channel_count,
    {
        self.channel_count
    }

    /// Access the output stream config's sample rate.
    pub fn sample_rate(&self) -> (r: SampleRate)
        ensures
            r == self.sample_rate,
    {
        self.sample_rate
    }

    /// Access the output stream config's buffer size.
    pub fn buffer_size(&self) -> (r: &BufferSize)
        ensures
            *r == self.buffer_size,
    {
        &self.buffer_size
    }

    /// Access the output stream config's sample format.
    pub fn sample_format(&self) -> (r: SampleFormat)
        ensures
            r == self.sample_format,
    {
        self.sample_format
    }
}

/// Each conversion keeps every field it carries over: the channel count, the sample
/// rate and the buffer size, and a stream configuration becomes an output
/// configuration with `f32` samples.
pub proof fn lemma_config_conversion_keeps_fields(output: OutputStreamConfig, stream: StreamConfig)
    ensures
        StreamConfig::from_spec(&output).channels == output.channel_count,
        StreamConfig::from_spec(&output).sample_rate == output.sample_rate,
        StreamConfig::from_spec(&output).buffer_size == output.buffer_size,
        OutputStreamConfig::from_spec(stream).channel_count == stream.channels,
        OutputStreamConfig::from_spec(stream).sample_rate == stream.sample_rate,
        OutputStreamConfig::from_spec(stream).buffer_size == stream.buffer_size,
        OutputStreamConfig::from_spec(stream).sample_format == SampleFormat::F32,
{
}

/// Converting an output configuration to a stream configuration and back keeps its
/// channels, sample rate and buffer size, and sets the sample format to `f32`.
pub proof fn lemma_config_round_trip(config: OutputStreamConfig)
    ensures
        ({
            let back = OutputStreamConfig::from_spec(StreamConfig::from_spec(&config));
            &&& back.channel_count == config.channel_count
            &&& back.sample_rate == config.sample_rate
            &&& back.buffer_size == config.buffer_size
            &&& back.sample_format == SampleFormat::F32
        }),
{
}

/// Converting a stream configuration to an output configuration and back gives the
/// same stream configuration.
pub proof fn lemma_stream_config_round_trip(config: StreamConfig)
    ensures
        StreamConfig::from_spec(&OutputStreamConfig::from_spec(config)) == config,
{
}

} // verus!
