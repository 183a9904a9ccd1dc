//! Client-side logic for a remote speech-processing service offering two
//! asynchronous job types: audio transcription and subtitle generation.
//! Both follow a submit-then-poll protocol; this crate holds the validated
//! request construction, the wire encoding and decoding, the response
//! envelope handling and the polling decisions, each with its contract.

pub mod error;
pub mod strutil;
pub mod types;
pub mod json;
pub mod client;
pub mod asr;
