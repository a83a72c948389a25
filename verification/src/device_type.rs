//! The kind of a MIDI device, as `AMidiDevice_getType` reports it.
use vstd::prelude::*;

use crate::media_error::MediaError;
use crate::ndk_codes::{amidi_device_type_bluetooth, amidi_device_type_usb, amidi_device_type_virtual};

verus! {

/// The transport of a MIDI device. Codes that the NDK does not name are kept in `Unknown`.
#[derive(Copy, Clone, Debug, PartialEq, Eq, Structural)]
pub enum MidiDeviceType {
    Bluetooth,
    USB,
    Virtual,
    Unknown(u32),
}

/// The device type that a raw `AMIDI_DEVICE_TYPE_*` code stands for
/// (`USB` = 1, `VIRTUAL` = 2, `BLUETOOTH` = 3 in the NDK headers).
pub open spec fn device_type_of(code: u32) -> MidiDeviceType {
    if code == 3 {
        MidiDeviceType::Bluetooth
    } else if code == 1 {
        MidiDeviceType::USB
    } else if code == 2 {
        MidiDeviceType::Virtual
    } else {
        MidiDeviceType::Unknown(code)
    }
}

/// The raw `AMIDI_DEVICE_TYPE_*` code of a device type.
pub open spec fn code_of(t: MidiDeviceType) -> u32 {
    match t {
        MidiDeviceType::Bluetooth => 3,
        MidiDeviceType::USB => 1,
        MidiDeviceType::Virtual => 2,
        MidiDeviceType::Unknown(v) => v,
    }
}

/// Whether a raw code is one of those the NDK names.
pub open spec fn is_named_code(code: u32) -> bool {
    code == 1 || code == 2 || code == 3
}

impl From<u32> for MidiDeviceType {
    fn from(value: u32) -> (t: Self) {
        if value == amidi_device_type_bluetooth() {
            MidiDeviceType::Bluetooth
        } else if value == amidi_device_type_usb() {
            MidiDeviceType::USB
        } else if value == amidi_device_type_virtual() {
            MidiDeviceType::Virtual
        } else {
            MidiDeviceType::Unknown(value)
        }
    }
}

impl vstd::std_specs::convert::FromSpecImpl<u32> for MidiDeviceType {
    open spec fn obeys_from_spec() -> bool {
        true
    }

    open spec fn from_spec(v: u32) -> Self {
        device_type_of(v)
    }
}

impl From<MidiDeviceType> for u32 {
    fn from(val: MidiDeviceType) -> (code: Self) {
        match val {
            MidiDeviceType::Bluetooth => amidi_device_type_bluetooth(),
            MidiDeviceType::USB => amidi_device_type_usb(),
            MidiDeviceType::Virtual => amidi_device_type_virtual(),
            MidiDeviceType::Unknown(v) => v,
        }
    }
}

impl vstd::std_specs::convert::FromSpecImpl<MidiDeviceType> for u32 {
    open spec fn obeys_from_spec() -> bool {
        true
    }

    open spec fn from_spec(v: MidiDeviceType) -> Self {
        code_of(v)
    }
}

/// Reading a raw code as a device type and writing it back gives the same code,
/// for every code.
pub proof fn lemma_code_round_trip(code: u32)
    ensures
        code_of(device_type_of(code)) == code,
{
}

/// Writing a device type as its code and reading it back gives the same type,
/// unless the type is an `Unknown` that carries a code the NDK names.
pub proof fn lemma_type_round_trip(t: MidiDeviceType)
    requires
        !(t matches MidiDeviceType::Unknown(v) && is_named_code(v)),
    ensures
        device_type_of(code_of(t)) == t,
{
}

/// Each NDK code reads as its own named type (`USB` = 1, `VIRTUAL` = 2,
/// `BLUETOOTH` = 3), every other code reads as `Unknown` holding that very code, and
/// each named type writes back as its code.
pub proof fn lemma_device_type_codes(code: u32)
    ensures
        device_type_of(code) == MidiDeviceType::USB <==> code == 1,
        device_type_of(code) == MidiDeviceType::Virtual <==> code == 2,
        device_type_of(code) == MidiDeviceType::Bluetooth <==> code == 3,
        device_type_of(code) is Unknown <==> !is_named_code(code),
        device_type_of(code) matches MidiDeviceType::Unknown(v) ==> v == code,
        code_of(MidiDeviceType::USB) == 1,
        code_of(MidiDeviceType::Virtual) == 2,
        code_of(MidiDeviceType::Bluetooth) == 3,
        code_of(MidiDeviceType::Unknown(code)) == code,
{
}

/// The result of `AMidiDevice_getType`: a non-negative value is a device type
/// code, a negative one is a media status.
pub fn device_type_result(raw: i32) -> (result: Result<MidiDeviceType, MediaError>)
    ensures
        raw >= 0 ==> result == Ok::<MidiDeviceType, MediaError>(device_type_of(raw as u32)),
        raw < 0 ==> result == Err::<MidiDeviceType, MediaError>(MediaError(raw)),
{
    if raw >= 0 {
        Ok(MidiDeviceType::from(raw as u32))
    } else {
        Err(MediaError::from_status(raw).unwrap_err())
    }
}

} // verus!
