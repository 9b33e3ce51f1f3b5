//! A minimal playback library providing high-precision tracking of the playback position
//! of an audio output stream.
use vstd::prelude::*;

pub mod config;
pub mod error;
pub mod sample;
mod sample_timestamp_buffer;
pub mod stream;
pub mod time;

pub use config::OutputStreamConfig;
pub use error::StreamError;
pub use sample_timestamp_buffer::{new_sample_timestamp_buffer, BufferConsumer, BufferProducer};
pub use stream::StreamHandle;

verus! {

/// The type used to count samples across the crate.
pub type SampleType = u64;

} // verus!
