//! The sound library's naming rules: ids, stored file names, and the
//! entries that imports produce.

use vstd::prelude::*;
use crate::audio::error::AudioError;
use crate::audio::trim::{spec_clamped_offset, spec_trim_is_empty, trim_samples};
use crate::state::SoundEntry;
use crate::text::{push_hex, push_hex4, spec_hex, spec_hex4};

verus! {

/// The id made from a time stamp: the seconds in hexadecimal, then the
/// milliseconds within the second as four hexadecimal digits.
pub open spec fn spec_uuid(secs: u64, subsec_millis: u32) -> Seq<char> {
    spec_hex(secs as nat) + spec_hex4(subsec_millis as nat)
}

/// The name a sound is stored under: its id, a dot, and the extension of
/// the file it came from, or `wav` where that had none.
pub open spec fn spec_library_filename(id: Seq<char>, extension: Option<Seq<char>>) -> Seq<char> {
    id + "."@ + (match extension {
        Some(ext) => ext,
        None => "wav"@,
    })
}

/// Makes an id from the time since the Unix epoch.
pub fn uuid_simple(secs: u64, subsec_millis: u32) -> (id: String)
    ensures
        id@ == spec_uuid(secs, subsec_millis),
{
    let mut id = String::new();
    push_hex(&mut id, secs);
    push_hex4(&mut id, subsec_millis);
    assert(id@ =~= spec_uuid(secs, subsec_millis));
    id
}

pub fn library_filename(id: &str, extension: Option<&str>) -> (filename: String)
    ensures
        filename@ == spec_library_filename(
            id@,
            match extension {
                Some(ext) => Some(ext@),
                None => None,
            },
        ),
{
    let mut filename = id.to_owned();
    filename.append(".");
    match extension {
        Some(ext) => filename.append(ext),
        None => filename.append("wav"),
    }
    filename
}

/// The entry for a file copied into the library as it is.
pub fn import_to_library(id: String, extension: Option<&str>, display_name: &str) -> (entry:
    SoundEntry)
    ensures
        entry.id == id,
        entry.filename@ == spec_library_filename(
            id@,
            match extension {
                Some(ext) => Some(ext@),
                None => None,
            },
        ),
        entry.display_name@ == display_name@,
{
    let filename = library_filename(id.as_str(), extension);
    SoundEntry { id, filename, display_name: display_name.to_owned() }
}

/// A trimmed import: the entry to record and the samples to store.
pub struct TrimmedImport {
    pub entry: SoundEntry,
    pub samples: Vec<i16>,
}

/// The entry and the samples for a clip imported in part. The part is
/// always stored as WAV. A range that selects nothing is refused with
/// `EmptyTrim`, and nothing is to be stored.
pub fn import_to_library_trimmed(
    samples: &[i16],
    id: String,
    display_name: &str,
    start_ms: u64,
    end_ms: u64,
    sample_rate: u32,
    channels: u16,
) -> (r: Result<TrimmedImport, AudioError>)
    ensures
        match r {
            Ok(import) => {
                &&& !spec_trim_is_empty(start_ms, end_ms, sample_rate, channels, samples@.len())
                &&& import.samples@ == samples@.subrange(
                    spec_clamped_offset(start_ms, sample_rate, channels, samples@.len()) as int,
                    spec_clamped_offset(end_ms, sample_rate, channels, samples@.len()) as int,
                )
                &&& import.samples@.len() > 0
                &&& import.entry.id == id
                &&& import.entry.filename@ == spec_library_filename(id@, None)
                &&& import.entry.display_name@ == display_name@
            },
            Err(e) => e == AudioError::EmptyTrim && spec_trim_is_empty(
                start_ms,
                end_ms,
                sample_rate,
                channels,
                samples@.len(),
            ),
        },
{
    match trim_samples(samples, start_ms, end_ms, sample_rate, channels) {
        Err(e) => Err(e),
        Ok(cut) => {
            let entry = import_to_library(id, None, display_name);
            Ok(TrimmedImport { entry, samples: cut })
        },
    }
}

} // verus!
