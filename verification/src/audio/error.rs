//! What can go wrong in the audio subsystem.

use vstd::prelude::*;

verus! {

/// The failures an audio operation reports to its caller. Queue overflow and
/// a missing monitoring device are not among them: those are absorbed.
#[derive(Clone, Copy, Debug, PartialEq, Eq, Structural)]
pub enum AudioError {
    /// A device name matches no enumerated device.
    DeviceNotFound,
    /// An audio file could not be read as audio.
    DecodeError,
    /// A trim range selects no sample.
    EmptyTrim,
    /// A file could not be copied, written or removed.
    IoError,
    /// A stream format with no channels or a zero sample rate.
    UnsupportedFormat,
    /// A sample queue could not be allocated.
    BufferAllocation,
}

impl AudioError {
    pub open spec fn spec_message(self) -> Seq<char> {
        match self {
            AudioError::DeviceNotFound => "Audio device not found"@,
            AudioError::DecodeError => "Failed to decode audio"@,
            AudioError::EmptyTrim => "Trimmed audio is empty"@,
            AudioError::IoError => "Audio file operation failed"@,
            AudioError::UnsupportedFormat => "Unsupported audio format"@,
            AudioError::BufferAllocation => "Audio buffer could not be allocated"@,
        }
    }

    /// The failure in words, for the user.
    pub fn message(&self) -> (text: &'static str)
        ensures
            text@ == self.spec_message(),
    {
        match self {
            AudioError::DeviceNotFound => "Audio device not found",
            AudioError::DecodeError => "Failed to decode audio",
            AudioError::EmptyTrim => "Trimmed audio is empty",
            AudioError::IoError => "Audio file operation failed",
            AudioError::UnsupportedFormat => "Unsupported audio format",
            AudioError::BufferAllocation => "Audio buffer could not be allocated",
        }
    }
}

} // verus!
