//! Soundboard audio: sample queues, mixing, format conversion plans and the
//! sound library's bookkeeping.

pub mod convert;
pub mod devices;
pub mod error;
pub mod library;
pub mod pipeline;
pub mod ring;
pub mod slot;
pub mod trim;
