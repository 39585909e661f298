//! The macOS variant of the audio-control capability, without its I/O.
//!
//! CoreAudio exposes volume and mute as properties of an audio object. A
//! property access names an object and an address, and answers with a status
//! code and, for a read, a value. This module decides which property each
//! operation touches, what value a write carries, and what the answer means.
//! Performing the access is left to the caller, which hands back the status
//! and the value as plain integers.

use vstd::prelude::*;
use vstd::string::StringExecFns;
use crate::error::{AudioControlError, ErrorView};
use crate::text::{append_decimal, decimal};
use crate::volume::{clamp_bits, Volume};

verus! {

/// The audio object a property access is addressed to.
#[derive(Clone, Copy, Debug, PartialEq, Eq, Structural)]
pub enum AudioObject {
    /// The audio system itself, which knows the default devices.
    System,
    /// The device with the given object identifier.
    Device(u32),
}

/// The kind of information a property holds.
#[derive(Clone, Copy, Debug, PartialEq, Eq, Structural)]
pub enum PropertySelector {
    /// The identifier of the default output device, an unsigned 32-bit integer.
    DefaultOutputDevice,
    /// A volume as a single-precision scalar between `0.0` and `1.0`.
    VolumeScalar,
    /// The mute flag, an unsigned 32-bit integer: zero when sound passes.
    Mute,
}

/// The section of an audio object in which a property is looked up.
#[derive(Clone, Copy, Debug, PartialEq, Eq, Structural)]
pub enum PropertyScope {
    /// The object as a whole.
    Global,
    /// The output side of a device.
    Output,
}

/// The element that stands for the whole of a scope rather than for one of
/// its channels.
pub const MAIN_ELEMENT: u32 = 0;

/// The three parts that together identify one property of an audio object.
#[derive(Clone, Copy, Debug, PartialEq, Eq, Structural)]
pub struct PropertyAddress {
    pub selector: PropertySelector,
    pub scope: PropertyScope,
    pub element: u32,
}

/// A read of one property of one audio object. The answer is a status code
/// and a value of 32 bits.
#[derive(Clone, Copy, Debug, PartialEq, Eq, Structural)]
pub struct PropertyRead {
    pub object: AudioObject,
    pub address: PropertyAddress,
}

/// A write of `value` to one property of one audio object. The answer is a
/// status code. The value is the 32 bits the property takes: an unsigned
/// integer, or the pattern of a single-precision number.
#[derive(Clone, Copy, Debug, PartialEq, Eq, Structural)]
pub struct PropertyWrite {
    pub object: AudioObject,
    pub address: PropertyAddress,
    pub value: u32,
}

/// The address of the property that `selector` names on the output side of
/// a device, main element.
pub open spec fn output_address(selector: PropertySelector) -> PropertyAddress {
    PropertyAddress { selector, scope: PropertyScope::Output, element: MAIN_ELEMENT }
}

/// The address of the property that names the default output device: a
/// global property, main element.
pub open spec fn default_output_device_address() -> PropertyAddress {
    PropertyAddress {
        selector: PropertySelector::DefaultOutputDevice,
        scope: PropertyScope::Global,
        element: MAIN_ELEMENT,
    }
}

/// The value of the mute property that stands for `muted`: one for a muted
/// output, zero for one that lets sound pass. Read back, every value but
/// zero counts as muted.
pub open spec fn mute_flag(muted: bool) -> u32 {
    if muted {
        1
    } else {
        0
    }
}

/// The diagnostic detail for a property access that ended with `status`.
pub open spec fn status_detail(status: i32) -> Seq<char> {
    "OSStatus: "@ + decimal(status as int)
}

/// The diagnostic detail for a failed lookup of the default output device.
pub open spec fn lookup_failure_detail(status: i32) -> Seq<char> {
    "Failed to get default output device (OSStatus: "@ + decimal(status as int) + ")"@
}

/// The diagnostic detail for a system without a default output device.
pub open spec fn no_device_detail() -> Seq<char> {
    "No default output device found"@
}

fn status_text(status: i32) -> (detail: String)
    ensures
        detail@ == status_detail(status),
{
    let mut detail = String::from_str("OSStatus: ");
    append_decimal(&mut detail, status);
    detail
}

/// What a property read that ended with `status` and delivered `value`
/// amounts to: the value when the status is zero, a read failure that
/// carries the status otherwise.
pub fn read_outcome(status: i32, value: u32) -> (r: Result<u32, AudioControlError>)
    ensures
        status == 0 ==> r == Ok::<u32, AudioControlError>(value),
        status != 0 ==> (r matches Err(e)
            && e@ == ErrorView::GetPropertyFailed(status_detail(status))),
{
    if status != 0 {
        return Err(AudioControlError::GetPropertyFailed(status_text(status)));
    }
    Ok(value)
}

/// What a property write that ended with `status` amounts to: success when
/// the status is zero, a write failure that carries the status otherwise.
pub fn write_outcome(status: i32) -> (r: Result<(), AudioControlError>)
    ensures
        status == 0 ==> r == Ok::<(), AudioControlError>(()),
        status != 0 ==> (r matches Err(e)
            && e@ == ErrorView::SetPropertyFailed(status_detail(status))),
{
    if status != 0 {
        return Err(AudioControlError::SetPropertyFailed(status_text(status)));
    }
    Ok(())
}

/// Audio control for the default output device of a macOS system.
///
/// The device is resolved once, at construction, and stays the target of
/// every later operation even if the system's default changes.
#[derive(Debug)]
pub struct MacOSAudioController {
    device_id: u32,
}

impl MacOSAudioController {
    /// The identifier of the device this controller operates on.
    pub closed spec fn device(&self) -> u32 {
        self.device_id
    }

    /// The read that finds the default output device: a property of the
    /// audio system. Its answer is what [`MacOSAudioController::new`] takes.
    pub fn default_output_device_query() -> (read: PropertyRead)
        ensures
            read == (PropertyRead {
                object: AudioObject::System,
                address: default_output_device_address(),
            }),
    {
        PropertyRead {
            object: AudioObject::System,
            address: PropertyAddress {
                selector: PropertySelector::DefaultOutputDevice,
                scope: PropertyScope::Global,
                element: MAIN_ELEMENT,
            },
        }
    }

    /// Builds the controller from the answer to the default-output-device
    /// query: the `status` the read ended with and the `device_id` it
    /// delivered.
    ///
    /// Construction fails when the read failed, and when it succeeded but
    /// named no device (identifier zero).
    pub fn new(status: i32, device_id: u32) -> (r: Result<Self, AudioControlError>)
        ensures
            status == 0 && device_id != 0 ==> (r matches Ok(controller)
                && controller.device() == device_id),
            status == 0 && device_id == 0 ==> (r matches Err(e)
                && e@ == ErrorView::InitializationFailed(no_device_detail())),
            status != 0 ==> (r matches Err(e)
                && e@ == ErrorView::InitializationFailed(lookup_failure_detail(status))),
    {
        if status != 0 {
            let mut detail = String::from_str("Failed to get default output device (OSStatus: ");
            append_decimal(&mut detail, status);
            detail.append(")");
            return Err(AudioControlError::InitializationFailed(detail));
        }
        if device_id == 0 {
            return Err(
                AudioControlError::InitializationFailed(
                    String::from_str("No default output device found"),
                ),
            );
        }
        Ok(MacOSAudioController { device_id })
    }

    /// The identifier of the device this controller operates on.
    pub fn device_id(&self) -> (id: u32)
        ensures
            id == self.device(),
    {
        self.device_id
    }

    fn read_of(&self, selector: PropertySelector) -> (read: PropertyRead)
        ensures
            read == (PropertyRead {
                object: AudioObject::Device(self.device()),
                address: output_address(selector),
            }),
    {
        PropertyRead {
            object: AudioObject::Device(self.device_id),
            address: PropertyAddress {
                selector,
                scope: PropertyScope::Output,
                element: MAIN_ELEMENT,
            },
        }
    }

    fn write_of(&self, selector: PropertySelector, value: u32) -> (write: PropertyWrite)
        ensures
            write == (PropertyWrite {
                object: AudioObject::Device(self.device()),
                address: output_address(selector),
                value,
            }),
    {
        PropertyWrite {
            object: AudioObject::Device(self.device_id),
            address: PropertyAddress {
                selector,
                scope: PropertyScope::Output,
                element: MAIN_ELEMENT,
            },
            value,
        }
    }

    /// The read that asks this controller's device for its volume.
    pub fn volume_query(&self) -> (read: PropertyRead)
        ensures
            read == (PropertyRead {
                object: AudioObject::Device(self.device()),
                address: output_address(PropertySelector::VolumeScalar),
            }),
    {
        self.read_of(PropertySelector::VolumeScalar)
    }

    /// The volume that the answer to a volume query reports: the level with
    /// the pattern `value` when `status` is zero, a read failure otherwise.
    pub fn read_volume(status: i32, value: u32) -> (r: Result<Volume, AudioControlError>)
        ensures
            status == 0 ==> (r matches Ok(level) && level@ == value),
            status != 0 ==> (r matches Err(e)
                && e@ == ErrorView::GetPropertyFailed(status_detail(status))),
    {
        match read_outcome(status, value) {
            Ok(bits) => Ok(Volume::from_bits(bits)),
            Err(e) => Err(e),
        }
    }

    /// The write that sets this controller's device to `level`. What is
    /// written is the level saturated to the range from `0.0` to `1.0`.
    pub fn volume_update(&self, level: Volume) -> (write: PropertyWrite)
        ensures
            write == (PropertyWrite {
                object: AudioObject::Device(self.device()),
                address: output_address(PropertySelector::VolumeScalar),
                value: clamp_bits(level@),
            }),
    {
        self.write_of(PropertySelector::VolumeScalar, level.clamped().to_bits())
    }

    /// The read that asks this controller's device whether it is muted.
    pub fn mute_query(&self) -> (read: PropertyRead)
        ensures
            read == (PropertyRead {
                object: AudioObject::Device(self.device()),
                address: output_address(PropertySelector::Mute),
            }),
    {
        self.read_of(PropertySelector::Mute)
    }

    /// The mute state that the answer to a mute query reports: muted unless
    /// `value` is zero when `status` is zero, a read failure otherwise.
    pub fn read_mute(status: i32, value: u32) -> (r: Result<bool, AudioControlError>)
        ensures
            status == 0 ==> r == Ok::<bool, AudioControlError>(value != mute_flag(false)),
            status != 0 ==> (r matches Err(e)
                && e@ == ErrorView::GetPropertyFailed(status_detail(status))),
    {
        match read_outcome(status, value) {
            Ok(flag) => Ok(flag != 0),
            Err(e) => Err(e),
        }
    }

    /// The write that mutes or unmutes this controller's device: one to
    /// mute, zero to let sound pass.
    pub fn mute_update(&self, muted: bool) -> (write: PropertyWrite)
        ensures
            write == (PropertyWrite {
                object: AudioObject::Device(self.device()),
                address: output_address(PropertySelector::Mute),
                value: mute_flag(muted),
            }),
    {
        let value: u32 = if muted {
            1
        } else {
            0
        };
        self.write_of(PropertySelector::Mute, value)
    }
}

} // verus!
