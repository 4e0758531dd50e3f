//! Safe, verified core of a CoreAudio-style hardware-abstraction binding.
//!
//! The heart of the crate is [`vla`], a container for C-compatible records
//! that end in a variable-length trailing array whose element count is kept
//! in a header field.  [`audio_buffer_list`] and [`audio_channel_layout`]
//! instantiate it for the two record layouts the audio API uses.  The other
//! modules carry the plain value types of that API: format and channel
//! constants, error codes and host-clock arithmetic.

pub mod audio_buffer_list;
pub mod audio_channel_layout;
pub mod audio_hardware;
pub mod core_audio_types;
pub mod error;
pub mod host_time;
pub mod vla;
