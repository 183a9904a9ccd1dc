//! The two job families of the service: record transcription and subtitle
//! generation.

pub mod record;
pub mod subtitle;
