//! Verified core of a cross-platform camera library and its preview server.
//!
//! The crate holds the parts of the camera stack that decide and compute:
//! bitstream reframing for hardware decoders, the preview wire format, the
//! control model, the shared frame registry, and the state machines that the
//! platform layers drive.

pub mod annex_b;
pub mod decode;
pub mod error;
pub mod channel;
pub mod text;
pub mod frame;
pub mod preview;
pub mod slot;
pub mod registry;
pub mod controls;
pub mod avfoundation;
pub mod pump;
pub mod stream;
pub mod stream_ids;
