//! A daemon library that registers a remote streaming microphone as a local
//! audio source: device control-channel framing, the audio ingest step, the
//! connection state machine and the local control-plane dispatch.

pub mod constants;
pub mod device;
pub mod ingest;
pub mod message;
pub mod server;
pub mod session;
pub mod socket;
pub mod stream;
