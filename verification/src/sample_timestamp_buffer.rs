//! The lock-free channel that carries sample timestamps from the audio thread to the
//! threads that ask for the playback position.
//!
//! It is a triple buffer: the producer publishes a new timestamp whenever it likes and
//! the consumer reads the latest one published, neither ever waiting for the other.
//! Which timestamp a read gives depends on how far the producer's thread has got, so
//! nothing is stated of it beyond its type.
use triple_buffer::{Input, Output};
use vstd::prelude::*;

use crate::sample::SampleTimestamp;
use crate::time::duration_nanos;

verus! {

#[verifier::external_type_specification]
#[verifier::external_body]
#[verifier::reject_recursive_types(T)]
pub struct ExInput<T: Send>(Input<T>);

#[verifier::external_type_specification]
#[verifier::external_body]
#[verifier::reject_recursive_types(T)]
pub struct ExOutput<T: Send>(Output<T>);

/// What a producer end has published last: the value of its latest
/// `triple_buffer::Input::write`, or the buffer's initial value before any write. Only
/// calls on the producer end itself change it.
pub uninterp spec fn last_published(input: Input<SampleTimestamp>) -> SampleTimestamp;

/// The value a consumer end holds: what `triple_buffer::Output::peek_output_buffer`
/// returns, the value of its latest read (or the initial value before any read).
pub uninterp spec fn output_value(output: Output<SampleTimestamp>) -> SampleTimestamp;

/// `triple_buffer::triple_buffer`: a new triple buffer, split into its producer and
/// consumer ends. All three of its buffers start as clones of `initial` (a copy, for
/// this `Copy` type), so the producer end has published `initial` and the consumer
/// end holds it.
#[verifier::external_body]
fn split_triple_buffer(initial: &SampleTimestamp) -> (ends: (
    Input<SampleTimestamp>,
    Output<SampleTimestamp>,
))
    ensures
        last_published(ends.0) == *initial,
        output_value(ends.1) == *initial,
{
    triple_buffer::triple_buffer(initial)
}

/// `triple_buffer::Input::write`: publishes `value` to the consumer end, so that it is
/// what the producer end has published last. What the consumer end sees of it depends
/// on when the consumer's thread next reads, so nothing is stated of that here.
#[verifier::external_body]
fn publish(input: &mut Input<SampleTimestamp>, value: SampleTimestamp)
    ensures
        last_published(*final(input)) == value,
{
    input.write(value)
}

/// `triple_buffer::Output::read`: fetches the latest value published by the producer
/// end, if there is a new one, into the consumer's output buffer, and returns the value
/// that buffer then holds. Which value that is depends on what the producer's thread
/// has published by the time of the call, so it is not tied to the producer end here.
#[verifier::external_body]
fn read_latest(output: &mut Output<SampleTimestamp>) -> (latest: &SampleTimestamp)
    ensures
        *latest == output_value(*final(output)),
{
    output.read()
}

/// A lock-free producer of `SampleTimestamp`s, for a single producer thread.
pub struct BufferProducer {
    producer: Input<SampleTimestamp>,
}

impl BufferProducer {
    /// The timestamp this producer has published last.
    pub closed spec fn spec_last_published(self) -> SampleTimestamp {
        last_published(self.producer)
    }

    /// Publishes a new `SampleTimestamp` to the consumer. This never blocks, so it is
    /// safe to call from a realtime thread.
    #[inline]
    pub fn update(&mut self, timestamp: SampleTimestamp)
        ensures
            final(self).spec_last_published() == timestamp,
    {
        publish(&mut self.producer, timestamp)
    }
}

/// A lock-free consumer of `SampleTimestamp`s, for threads outside the audio thread.
pub struct BufferConsumer {
    consumer: Output<SampleTimestamp>,
}

impl BufferConsumer {
    /// The timestamp this consumer holds: the one its latest read gave.
    pub closed spec fn spec_held(self) -> SampleTimestamp {
        output_value(self.consumer)
    }

    /// Returns a reference to the most recent timestamp published by the producer.
    ///
    /// The consumer then holds that timestamp until a later read finds a newer one.
    pub fn newest(&mut self) -> (r: &SampleTimestamp)
        ensures
            *r == final(self).spec_held(),
    {
        read_latest(&mut self.consumer)
    }
}

/// Creates a new sample timestamp buffer whose first value is the timestamp of
/// sample zero at the start time, with no latency.
///
/// Returns the producer and consumer ends of the buffer.
pub fn new_sample_timestamp_buffer() -> (r: (BufferProducer, BufferConsumer))
    ensures
        r.0.spec_last_published() == r.1.spec_held(),
        r.0.spec_last_published().spec_sample_n() == 0,
        duration_nanos(r.0.spec_last_published().spec_timestamp()) == 0,
        duration_nanos(r.0.spec_last_published().spec_latency()) == 0,
{
    let default_element = SampleTimestamp::default();
    let (producer, consumer) = split_triple_buffer(&default_element);

    (BufferProducer { producer }, BufferConsumer { consumer })
}

} // verus!
