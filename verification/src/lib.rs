//! Verified core of a voice-streaming client: the tagged binary message
//! protocol, the outbound PCM -> Opus -> Ogg encode pipeline, and the inbound
//! Ogg -> Opus -> PCM decode pipeline.

pub mod container;
pub mod decoder;
pub mod encoder;
pub mod errors;
pub mod headers;
pub mod protocol;
pub mod request;
