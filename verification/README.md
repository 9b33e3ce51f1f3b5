# rodio_playback_position

High-precision tracking of the playback position of an audio output stream.

- `src/` is the verified library: the conversion of time into samples, the
  interpolation of the playback position from the latest timestamp the audio thread
  published, the jitter-free sample counter of `StreamHandle`, the state the audio
  thread keeps while filling buffers, the stream configuration, and the lock-free
  timestamp buffer (a `triple_buffer`).
- `app/` opens the `cpal` output stream that plays a `rodio` source, converts between
  the library's configuration and error values and `cpal`'s, and gives the error type
  its `Display` and `Error` impls.
