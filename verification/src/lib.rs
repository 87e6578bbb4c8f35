//! Type-safe configuration for audio streams that a native audio host opens.
//!
//! The crate describes a stream before it exists: the encoding of its
//! samples, the number of channels, the rate, the size of a buffer and the
//! function that fills or drains each buffer. It also names, for every sample
//! encoding, the constant by which the native host knows it.

pub mod error;
pub mod portaudio;
pub mod stream_options;

pub use crate::error::Error;
pub use crate::stream_options::dummy_callback;
pub use crate::stream_options::Callback;
pub use crate::stream_options::Format;
pub use crate::stream_options::HasDefaultFormat;
pub use crate::stream_options::HasDefaultNChannels;
pub use crate::stream_options::SampleRate;
pub use crate::stream_options::StreamCallback;
pub use crate::stream_options::StreamOptions;
