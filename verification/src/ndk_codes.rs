//! The numeric codes of the Android NDK that the decoding logic compares against.
//!
//! Each one is read from the bindings of `ndk-sys` or `jni-sys`, so that the library
//! follows the headers those crates were generated from; the contract of each accessor
//! states the value that the bindings define.
use vstd::prelude::*;

verus! {

/// `jni_sys::JNI_OK`: the status a JNI invocation function returns on success,
/// defined as `0` in the bindings.
#[verifier::external_body]
pub(crate) fn jni_ok() -> (code: i32)
    ensures
        code == 0,
{
    jni_sys::JNI_OK
}

/// `ndk_sys::media_status_t::AMEDIA_OK`: the media status meaning success,
/// defined as `media_status_t(0)` in the bindings; the accessor yields its inner integer.
#[verifier::external_body]
pub(crate) fn amedia_ok() -> (code: i32)
    ensures
        code == 0,
{
    ndk_sys::media_status_t::AMEDIA_OK.0
}

/// `ndk_sys::AMIDI_DEVICE_TYPE_USB`, defined as `1` in the bindings.
#[verifier::external_body]
pub(crate) fn amidi_device_type_usb() -> (code: u32)
    ensures
        code == 1,
{
    ndk_sys::AMIDI_DEVICE_TYPE_USB
}

/// `ndk_sys::AMIDI_DEVICE_TYPE_VIRTUAL`, defined as `2` in the bindings.
#[verifier::external_body]
pub(crate) fn amidi_device_type_virtual() -> (code: u32)
    ensures
        code == 2,
{
    ndk_sys::AMIDI_DEVICE_TYPE_VIRTUAL
}

/// `ndk_sys::AMIDI_DEVICE_TYPE_BLUETOOTH`, defined as `3` in the bindings.
#[verifier::external_body]
pub(crate) fn amidi_device_type_bluetooth() -> (code: u32)
    ensures
        code == 3,
{
    ndk_sys::AMIDI_DEVICE_TYPE_BLUETOOTH
}

/// `ndk_sys::AMIDI_OPCODE_DATA`, defined as `1` in the bindings.
#[verifier::external_body]
pub(crate) fn amidi_opcode_data() -> (code: u32)
    ensures
        code == 1,
{
    ndk_sys::AMIDI_OPCODE_DATA
}

/// `ndk_sys::AMIDI_OPCODE_FLUSH`, defined as `2` in the bindings.
#[verifier::external_body]
pub(crate) fn amidi_opcode_flush() -> (code: u32)
    ensures
        code == 2,
{
    ndk_sys::AMIDI_OPCODE_FLUSH
}

} // verus!
