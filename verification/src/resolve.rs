//! The device resolver: maps a descriptor to an entry of the enumerated
//! device list and decides which side of the hardware path to negotiate a
//! stream configuration on.

use vstd::prelude::*;

use crate::device::{AudioDevice, DeviceType};
use crate::errors::CaptureError;
use crate::text::contains_seq;

verus! {

/// Which platform listing the resolver searches for a descriptor.
#[derive(Clone, Copy, Debug, PartialEq, Eq, Structural)]
pub enum EnumSource {
    InputList,
    OutputList,
    VirtualCaptureList,
}

/// Which side of the hardware path a configuration is negotiated on.
#[derive(Clone, Copy, Debug, PartialEq, Eq, Structural)]
pub enum ConfigSide {
    InputSide,
    OutputSide,
}

/// The descriptor asks for the platform's default device.
pub open spec fn wants_default_spec(d: AudioDevice) -> bool {
    d.name@ == "default"@
}

/// Whether the descriptor asks for the platform's default device.
pub fn wants_default(d: &AudioDevice) -> (r: bool)
    ensures
        r == wants_default_spec(*d),
{
    d.name == String::from_str("default")
}

/// The descriptor names a virtual display-capture device.
pub open spec fn is_display_device(d: AudioDevice) -> bool {
    contains_seq(d.name@, "Display"@)
}

/// Where the resolver looks for a named device: input devices for an input
/// descriptor; for an output descriptor, the virtual-capture host's input
/// devices where the platform has one, else the native output devices.
pub open spec fn source_spec(t: DeviceType, has_virtual_capture: bool) -> EnumSource {
    match t {
        DeviceType::Input => EnumSource::InputList,
        DeviceType::Output => if has_virtual_capture {
            EnumSource::VirtualCaptureList
        } else {
            EnumSource::OutputList
        },
    }
}

/// Picks the listing to search for a descriptor's direction.
pub fn resolution_source(t: DeviceType, has_virtual_capture: bool) -> (r: EnumSource)
    ensures
        r == source_spec(t, has_virtual_capture),
{
    match t {
        DeviceType::Input => EnumSource::InputList,
        DeviceType::Output => if has_virtual_capture {
            EnumSource::VirtualCaptureList
        } else {
            EnumSource::OutputList
        },
    }
}

/// The side to negotiate on: the output side for an output device, except
/// that a display-capture device is an input path underneath.
pub open spec fn side_spec(d: AudioDevice) -> ConfigSide {
    if d.device_type == DeviceType::Output && !is_display_device(d) {
        ConfigSide::OutputSide
    } else {
        ConfigSide::InputSide
    }
}

/// Decides which side of the hardware path to negotiate a configuration on.
pub fn config_side(d: &AudioDevice) -> (r: ConfigSide)
    ensures
        r == side_spec(*d),
{
    let display = crate::text::contains_pat(d.name.as_str(), "Display");
    match d.device_type {
        DeviceType::Output => if display {
            ConfigSide::InputSide
        } else {
            ConfigSide::OutputSide
        },
        DeviceType::Input => ConfigSide::InputSide,
    }
}

/// There is an entry of `names` equal to the descriptor's name.
pub open spec fn has_match(name: Seq<char>, names: Seq<String>) -> bool {
    exists|i: int| 0 <= i < names.len() && names[i]@ == name
}

/// Finds the descriptor's name in the enumerated listing: the first entry
/// that equals the name exactly, or `DeviceNotFound` when none does.
pub fn resolve_in_list(d: &AudioDevice, names: &Vec<String>) -> (r: Result<
    usize,
    CaptureError,
>)
    ensures
        match r {
            Ok(i) => i < names@.len() && names@[i as int]@ == d.name@ && forall|k: int|
                0 <= k < i ==> names@[k]@ != d.name@,
            Err(e) => e == CaptureError::DeviceNotFound && !has_match(d.name@, names@),
        },
{
    let mut i: usize = 0;
    while i < names.len()
        invariant
            i <= names@.len(),
            forall|k: int| 0 <= k < i ==> names@[k]@ != d.name@,
        decreases names@.len() - i,
    {
        if names[i] == d.name {
            return Ok(i);
        }
        i += 1;
    }
    Err(CaptureError::DeviceNotFound)
}

} // verus!
