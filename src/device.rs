//! Which input device a command names, and what is reported about devices.

use crate::resample::TARGET_SAMPLE_RATE;
use vstd::prelude::*;

verus! {

/// What `str::to_lowercase` makes of a string.
pub uninterp spec fn lower_of(s: Seq<char>) -> Seq<char>;

/// Relies on `str::to_lowercase`: its result depends on the characters alone.
#[verifier::external_body]
fn to_lowercase(s: &str) -> (r: String)
    ensures
        r@ == lower_of(s@),
{
    s.to_lowercase()
}

/// The device a command asks for.
#[derive(Debug)]
pub enum DeviceRequest {
    /// The platform's default input device.
    Default,
    /// The input device with exactly this name.
    Named(String),
}

/// A device name that stands for the platform default: empty, or "default"
/// in any letter case.
pub open spec fn names_default(name: Seq<char>) -> bool {
    name.len() == 0 || lower_of(name) == "default"@
}

/// The request that an optional device name makes.
pub open spec fn device_request(device_name: Option<String>) -> DeviceRequest {
    match device_name {
        None => DeviceRequest::Default,
        Some(name) => if names_default(name@) {
            DeviceRequest::Default
        } else {
            DeviceRequest::Named(name)
        },
    }
}

/// Reads an optional device name: absent, empty or "default" (in any letter
/// case) mean the platform default, anything else the device of that name.
pub fn resolve_device_request(device_name: Option<String>) -> (r: DeviceRequest)
    ensures
        r == device_request(device_name),
{
    match device_name {
        None => DeviceRequest::Default,
        Some(name) => {
            let lowered = to_lowercase(name.as_str());
            let sentinel = "default".to_owned();
            if lowered == sentinel || name.as_str().is_empty() {
                DeviceRequest::Default
            } else {
                DeviceRequest::Named(name)
            }
        },
    }
}

/// The name a device reported, or the empty string where it reported none.
pub open spec fn reported_name(name: Option<String>) -> Seq<char> {
    match name {
        Some(s) => s@,
        None => Seq::empty(),
    }
}

/// The position of the first device whose reported name is exactly `wanted`.
pub fn find_device_index(names: &Vec<Option<String>>, wanted: &String) -> (r: Option<usize>)
    ensures
        match r {
            Some(i) => {
                &&& i < names@.len()
                &&& reported_name(names@[i as int]) == wanted@
                &&& forall|j: int| 0 <= j < i ==> reported_name(#[trigger] names@[j]) != wanted@
            },
            None => forall|j: int|
                0 <= j < names@.len() ==> reported_name(#[trigger] names@[j]) != wanted@,
        },
{
    let empty = String::new();
    let mut i: usize = 0;
    while i < names.len()
        invariant
            i <= names@.len(),
            empty@ == Seq::<char>::empty(),
            forall|j: int| 0 <= j < i ==> reported_name(#[trigger] names@[j]) != wanted@,
        decreases names@.len() - i,
    {
        let matched = match &names[i] {
            Some(name) => *name == *wanted,
            None => empty == *wanted,
        };
        if matched {
            return Some(i);
        }
        i += 1;
    }
    None
}

/// The name listed for a device that could not report one.
pub open spec fn unknown_device_name() -> Seq<char> {
    "Unknown Device"@
}

/// The names to list for the input devices, in order: each device's reported
/// name, or "Unknown Device" where it reported none.
pub fn device_list_names(names: &Vec<Option<String>>) -> (r: Vec<String>)
    ensures
        r@.len() == names@.len(),
        forall|i: int|
            0 <= i < names@.len() ==> (#[trigger] r@[i])@ == match names@[i] {
                Some(s) => s@,
                None => unknown_device_name(),
            },
{
    let mut out: Vec<String> = Vec::with_capacity(names.len());
    let mut i: usize = 0;
    while i < names.len()
        invariant
            i <= names@.len(),
            out@.len() == i,
            forall|k: int|
                0 <= k < i ==> (#[trigger] out@[k])@ == match names@[k] {
                    Some(s) => s@,
                    None => unknown_device_name(),
                },
        decreases names@.len() - i,
    {
        let listed = match &names[i] {
            Some(name) => name.clone(),
            None => "Unknown Device".to_owned(),
        };
        out.push(listed);
        i += 1;
    }
    out
}

/// The audio configuration reported for a device.
#[derive(Debug, Clone, Copy, PartialEq, Eq, Structural)]
pub struct AudioConfig {
    pub input_sample_rate: u32,
    pub output_sample_rate: u32,
    pub channels: u8,
}

impl AudioConfig {
    /// The configuration reported for a device whose native rate is
    /// `native_rate`, or, where that rate could not be found, the output rate.
    /// The output is always mono at the output rate.
    pub fn for_native_rate(native_rate: Option<u32>) -> (c: AudioConfig)
        ensures
            c.input_sample_rate == match native_rate {
                Some(rate) => rate,
                None => TARGET_SAMPLE_RATE,
            },
            c.output_sample_rate == TARGET_SAMPLE_RATE,
            c.channels == 1,
    {
        let input_sample_rate = match native_rate {
            Some(rate) => rate,
            None => TARGET_SAMPLE_RATE,
        };
        AudioConfig { input_sample_rate, output_sample_rate: TARGET_SAMPLE_RATE, channels: 1 }
    }
}

} // verus!
