//! Errors that might occur when interfacing with audio output.
//!
//! The payloads carry the values of the audio backend's (`cpal`'s) error types, so that
//! the library can hold and pass them on as plain data.
use vstd::prelude::*;

verus! {

/// An error specific to the audio backend that produced it (the contents of
/// `cpal::BackendSpecificError`).
#[derive(Debug)]
pub struct BackendSpecificError {
    pub description: String,
}

/// Could not start playing a stream (the values of `cpal::PlayStreamError`).
#[derive(Debug)]
pub enum PlayStreamError {
    /// The device associated with the stream is no longer available.
    DeviceNotAvailable,
    /// An error specific to the backend.
    BackendSpecific { err: BackendSpecificError },
}

/// Could not get the default stream config of a device (the values of
/// `cpal::DefaultStreamConfigError`).
#[derive(Debug)]
pub enum DefaultStreamConfigError {
    /// The device no longer exists.
    DeviceNotAvailable,
    /// The device does not support the requested stream type.
    StreamTypeNotSupported,
    /// An error specific to the backend.
    BackendSpecific { err: BackendSpecificError },
}

/// Could not open a stream with the OS (the values of `cpal::BuildStreamError`).
#[derive(Debug)]
pub enum BuildStreamError {
    /// The device no longer exists.
    DeviceNotAvailable,
    /// The device does not support the stream configuration.
    StreamConfigNotSupported,
    /// The backend was called with an argument it did not understand.
    InvalidArgument,
    /// Adding a new stream id would overflow.
    StreamIdOverflow,
    /// An error specific to the backend.
    BackendSpecific { err: BackendSpecificError },
}

/// Could not list the supported stream configs of a device (the values of
/// `cpal::SupportedStreamConfigsError`).
#[derive(Debug)]
pub enum SupportedStreamConfigsError {
    /// The device no longer exists.
    DeviceNotAvailable,
    /// The backend was called with an argument it did not understand.
    InvalidArgument,
    /// An error specific to the backend.
    BackendSpecific { err: BackendSpecificError },
}

/// Errors that might occur when interfacing with audio output.
#[derive(Debug)]
pub enum StreamError {
    /// Could not start playing the stream.
    PlayStreamError(PlayStreamError),
    /// Failed to get the stream config for the given device.
    DefaultStreamConfigError(DefaultStreamConfigError),
    /// Error opening stream with OS.
    BuildStreamError(BuildStreamError),
    /// Could not list supported stream configs for the device. Maybe it disconnected.
    SupportedStreamConfigsError(SupportedStreamConfigsError),
    /// Could not find any output device.
    NoDevice,
    /// A sample format that the library does not support.
    UnsupportedSampleFormat,
}

impl StreamError {
    /// The text of an error the library raises itself: `"NoDevice"` and
    /// `"UnsupportedSampleFormat"`. The errors that come from the audio backend have the
    /// backend's own texts, so they give `None`.
    pub fn message(&self) -> (r: Option<String>)
        ensures
            self is NoDevice ==> (r matches Some(text) && text@ == "NoDevice"@),
            self is UnsupportedSampleFormat ==> (r matches Some(text) && text@
                == "UnsupportedSampleFormat"@),
            !(self is NoDevice) && !(self is UnsupportedSampleFormat) ==> r is None,
    {
        match self {
            StreamError::NoDevice => Some("NoDevice".to_owned()),
            StreamError::UnsupportedSampleFormat => Some("UnsupportedSampleFormat".to_owned()),
            _ => None,
        }
    }
}

} // verus!
