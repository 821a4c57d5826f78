//! Handle-based sessions around the Opus codec: a registry of live encoder
//! and decoder sessions addressed by integer handles, the buffer sizing rules
//! of each session, the bitrate code mapping, and the typed errors that are
//! raised back to a managed caller.

pub mod error;
pub mod registry;
pub mod codec;
pub mod decoder;
pub mod encoder;
