//! Decoding and state logic for the Android NDK MIDI API (`AMidiDevice`,
//! `AMidiInputPort`, `AMidiOutputPort`): what the values returned by the native
//! functions mean, and the order of JVM calls around releasing a device.
mod ndk_codes;

pub mod device_type;
pub mod media_error;
pub mod opcode;
pub mod release;

pub use device_type::{device_type_result, MidiDeviceType};
pub use media_error::MediaError;
pub use opcode::MidiOpcode;
pub use release::{jni_succeeded, ReleaseAction, ReleaseEvent, ReleaseState};
