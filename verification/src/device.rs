//! Output-device configuration: choosing a stream configuration compatible
//! with both the hardware and the host preference.
//!
//! Enumerating devices and opening streams is the audio backend's work and
//! happens outside the library; the backend hands in the plain facts it
//! learned (device names, supported ranges, the device default) and the
//! library makes the choice.

use vstd::prelude::*;

verus! {

/// One enumerated output device.
#[derive(Clone, Debug)]
pub struct AudioDeviceInfo {
    pub name: String,
    pub is_default: bool,
}

/// The host's preferred stream configuration, chosen once per stream open.
#[derive(Clone, Copy, PartialEq, Eq, Structural, Debug)]
pub struct AudioConfig {
    pub sample_rate: u32,
    pub channels: u16,
    pub buffer_size: u32,
}

impl Default for AudioConfig {
    fn default() -> (r: AudioConfig)
        ensures
            r == (AudioConfig { sample_rate: 44100, channels: 2, buffer_size: 512 }),
    {
        AudioConfig { sample_rate: 44100, channels: 2, buffer_size: 512 }
    }
}

/// One supported output configuration as the hardware reports it: a sample
/// rate range at a channel count.
#[derive(Clone, Copy, PartialEq, Eq, Structural, Debug)]
pub struct SupportedConfigRange {
    pub min_sample_rate: u32,
    pub max_sample_rate: u32,
    pub channels: u16,
}

/// The device's own default output configuration, the fallback.
#[derive(Clone, Copy, PartialEq, Eq, Structural, Debug)]
pub struct DeviceDefaultConfig {
    pub sample_rate: u32,
    pub channels: u16,
}

/// The negotiated stream configuration; `fixed_buffer` is the requested
/// fixed buffer size, or none to leave the size to the device.
#[derive(Clone, Copy, PartialEq, Eq, Structural, Debug)]
pub struct StreamSelection {
    pub channels: u16,
    pub sample_rate: u32,
    pub fixed_buffer: Option<u32>,
}

/// Whether a supported range can carry the preferred configuration: its
/// sample-rate range contains the preferred rate and it has at least the
/// preferred channel count.
pub open spec fn range_supports(range: SupportedConfigRange, preferred: AudioConfig) -> bool {
    &&& preferred.sample_rate >= range.min_sample_rate
    &&& preferred.sample_rate <= range.max_sample_rate
    &&& range.channels >= preferred.channels
}

/// Select the stream configuration: the preferred one if any supported
/// range carries it, else the device default capped at stereo with the
/// buffer size left to the device.
pub fn select_stream_config(
    supported: &Vec<SupportedConfigRange>,
    preferred: &AudioConfig,
    fallback: &DeviceDefaultConfig,
) -> (r: StreamSelection)
    ensures
        (exists|i: int|
            0 <= i < supported@.len() && range_supports(#[trigger] supported@[i], *preferred))
            ==> r == (StreamSelection {
            channels: preferred.channels,
            sample_rate: preferred.sample_rate,
            fixed_buffer: Some(preferred.buffer_size),
        }),
        !(exists|i: int|
            0 <= i < supported@.len() && range_supports(#[trigger] supported@[i], *preferred))
            ==> r == (StreamSelection {
            channels: if fallback.channels < 2 {
                fallback.channels
            } else {
                2
            },
            sample_rate: fallback.sample_rate,
            fixed_buffer: None,
        }),
{
    let mut i: usize = 0;
    while i < supported.len()
        invariant
            i <= supported@.len(),
            forall|j: int| 0 <= j < i ==> !range_supports(#[trigger] supported@[j], *preferred),
        decreases supported@.len() - i,
    {
        let range = supported[i];
        if preferred.sample_rate >= range.min_sample_rate && preferred.sample_rate
            <= range.max_sample_rate && range.channels >= preferred.channels {
            return StreamSelection {
                channels: preferred.channels,
                sample_rate: preferred.sample_rate,
                fixed_buffer: Some(preferred.buffer_size),
            };
        }
        i = i + 1;
    }
    StreamSelection {
        channels: if fallback.channels < 2 {
            fallback.channels
        } else {
            2
        },
        sample_rate: fallback.sample_rate,
        fixed_buffer: None,
    }
}

/// Label each enumerated device name, marking the one that equals the
/// OS-default device's name.
pub fn mark_default_devices(names: Vec<String>, default_name: Option<String>) -> (r: Vec<
    AudioDeviceInfo,
>)
    ensures
        r@.len() == names@.len(),
        forall|i: int|
            0 <= i < r@.len() ==> (#[trigger] r@[i]).name@ == names@[i]@ && r@[i].is_default == (
            default_name matches Some(d) && d@ == names@[i]@),
{
    let mut result: Vec<AudioDeviceInfo> = Vec::new();
    let mut i: usize = 0;
    while i < names.len()
        invariant
            i <= names@.len(),
            result@.len() == i,
            forall|j: int|
                0 <= j < i ==> (#[trigger] result@[j]).name@ == names@[j]@ && result@[j].is_default
                    == (default_name matches Some(d) && d@ == names@[j]@),
        decreases names@.len() - i,
    {
        let name = names[i].clone();
        let is_default = match &default_name {
            Some(d) => *d == name,
            None => false,
        };
        result.push(AudioDeviceInfo { name, is_default });
        i = i + 1;
    }
    result
}

/// The position of `wanted` among the device names, if present; the first
/// match wins.
pub fn find_device_index(names: &Vec<String>, wanted: &str) -> (r: Option<usize>)
    ensures
        match r {
            Some(i) => i < names@.len() && names@[i as int]@ == wanted@ && forall|j: int|
                0 <= j < i ==> names@[j]@ != wanted@,
            None => forall|j: int| 0 <= j < names@.len() ==> names@[j]@ != wanted@,
        },
{
    let mut i: usize = 0;
    while i < names.len()
        invariant
            i <= names@.len(),
            forall|j: int| 0 <= j < i ==> names@[j]@ != wanted@,
        decreases names@.len() - i,
    {
        if crate::text::str_eq(names[i].as_str(), wanted) {
            return Some(i);
        }
        i = i + 1;
    }
    None
}

} // verus!
