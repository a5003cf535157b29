//! Audio devices by name: what an enumeration yielded, and which entry a
//! configured name refers to.

use vstd::prelude::*;
use crate::audio::error::AudioError;

verus! {

#[derive(Debug)]
pub struct AudioDeviceInfo {
    pub name: String,
}

impl Clone for AudioDeviceInfo {
    fn clone(&self) -> (copy: Self)
        ensures
            copy == *self,
    {
        AudioDeviceInfo { name: self.name.clone() }
    }
}

#[derive(Debug)]
pub struct AudioDeviceList {
    pub input_devices: Vec<AudioDeviceInfo>,
    pub output_devices: Vec<AudioDeviceInfo>,
}

/// The names an enumeration reported, in order, without the devices whose
/// name could not be read.
pub open spec fn spec_readable_names(reported: Seq<Option<String>>) -> Seq<Seq<char>>
    decreases reported.len(),
{
    if reported.len() == 0 {
        Seq::empty()
    } else {
        let rest = spec_readable_names(reported.drop_last());
        match reported.last() {
            Some(name) => rest.push(name@),
            None => rest,
        }
    }
}

/// The names of a run of device entries.
pub open spec fn spec_names(devices: Seq<AudioDeviceInfo>) -> Seq<Seq<char>> {
    devices.map_values(|d: AudioDeviceInfo| d.name@)
}

/// Whether `index` is the first position in an enumeration whose device
/// reported exactly `name`.
pub open spec fn spec_is_first_match(reported: Seq<Option<String>>, name: Seq<char>, index: int) -> bool {
    &&& 0 <= index < reported.len()
    &&& reported[index] matches Some(found) && found@ == name
    &&& forall|j: int|
        0 <= j < index ==> !(#[trigger] reported[j] matches Some(other) && other@ == name)
}

/// Whether no device in an enumeration reported `name`.
pub open spec fn spec_no_match(reported: Seq<Option<String>>, name: Seq<char>) -> bool {
    forall|j: int|
        0 <= j < reported.len() ==> !(#[trigger] reported[j] matches Some(other) && other@ == name)
}

/// Keeps the devices whose name could be read.
pub fn readable_devices(reported: &Vec<Option<String>>) -> (devices: Vec<AudioDeviceInfo>)
    ensures
        spec_names(devices@) == spec_readable_names(reported@),
{
    let mut devices: Vec<AudioDeviceInfo> = Vec::new();
    let mut i: usize = 0;
    assert(reported@.take(0) =~= Seq::<Option<String>>::empty());
    assert(spec_names(devices@) =~= spec_readable_names(reported@.take(0)));
    while i < reported.len()
        invariant
            0 <= i <= reported.len(),
            spec_names(devices@) == spec_readable_names(reported@.take(i as int)),
        decreases reported.len() - i,
    {
        proof {
            assert(reported@.take(i + 1).drop_last() =~= reported@.take(i as int));
            assert(reported@.take(i + 1).last() == reported@[i as int]);
        }
        match &reported[i] {
            Some(name) => {
                let ghost before = devices@;
                devices.push(AudioDeviceInfo { name: name.clone() });
                assert(spec_names(devices@) =~= spec_names(before).push(name@));
            },
            None => {},
        }
        i = i + 1;
    }
    assert(reported@.take(reported@.len() as int) =~= reported@);
    devices
}

/// The device list shown to the user: the readable names of both
/// enumerations.
pub fn list_devices(inputs: &Vec<Option<String>>, outputs: &Vec<Option<String>>) -> (list:
    AudioDeviceList)
    ensures
        spec_names(list.input_devices@) == spec_readable_names(inputs@),
        spec_names(list.output_devices@) == spec_readable_names(outputs@),
{
    AudioDeviceList {
        input_devices: readable_devices(inputs),
        output_devices: readable_devices(outputs),
    }
}

/// The position of the first enumerated device that reported `name`.
pub fn find_device(reported: &Vec<Option<String>>, name: &String) -> (r: Option<usize>)
    ensures
        match r {
            Some(index) => spec_is_first_match(reported@, name@, index as int),
            None => spec_no_match(reported@, name@),
        },
{
    let mut i: usize = 0;
    while i < reported.len()
        invariant
            0 <= i <= reported.len(),
            forall|j: int|
                0 <= j < i ==> !(#[trigger] reported@[j] matches Some(other) && other@ == name@),
        decreases reported.len() - i,
    {
        match &reported[i] {
            Some(found) => {
                if *found == *name {
                    return Some(i);
                }
            },
            None => {},
        }
        i = i + 1;
    }
    None
}

/// The capture and playback devices a pipeline is to run on.
#[derive(Clone, Copy, Debug, PartialEq, Eq, Structural)]
pub struct DevicePair {
    /// Position in the enumeration of capture devices.
    pub input: usize,
    /// Position in the enumeration of playback devices.
    pub output: usize,
}

/// Resolves both configured names. Fails with `DeviceNotFound` exactly when
/// either name matches no enumerated device.
pub fn resolve_devices(
    inputs: &Vec<Option<String>>,
    outputs: &Vec<Option<String>>,
    input_name: &String,
    output_name: &String,
) -> (r: Result<DevicePair, AudioError>)
    ensures
        match r {
            Ok(pair) => spec_is_first_match(inputs@, input_name@, pair.input as int)
                && spec_is_first_match(outputs@, output_name@, pair.output as int),
            Err(e) => e == AudioError::DeviceNotFound && (spec_no_match(inputs@, input_name@)
                || spec_no_match(outputs@, output_name@)),
        },
{
    match find_device(inputs, input_name) {
        None => Err(AudioError::DeviceNotFound),
        Some(input) => match find_device(outputs, output_name) {
            None => Err(AudioError::DeviceNotFound),
            Some(output) => Ok(DevicePair { input, output }),
        },
    }
}

} // verus!
