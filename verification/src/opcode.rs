//! What `AMidiOutputPort_receive` reports.
use vstd::prelude::*;

use crate::media_error::MediaError;
use crate::ndk_codes::{amidi_opcode_data, amidi_opcode_flush};

verus! {

/// Result of receiving from an output port.
#[derive(Copy, Clone, Debug)]
pub enum MidiOpcode {
    /// No MIDI messages are available.
    NoMessage,
    /// Received a MIDI message with the given length and the timestamp.
    Data {
        /// The length of the received message. The caller should limit the buffer it
        /// received into to this length.
        length: usize,
        /// The timestamp associated with the message, consistent with
        /// `java.lang.System.nanoTime()`.
        timestamp: i64,
    },
    /// Instructed to discard all pending MIDI data.
    Flush,
}

/// Whether the values written by one call of `AMidiOutputPort_receive` can be read:
/// a negative message count must be a status other than `AMEDIA_OK` once narrowed to
/// a C `int`, at most one message is received per call, and a received message
/// carries the data or the flush opcode.
pub open spec fn receive_readable(num_messages: isize, opcode: i32) -> bool {
    &&& num_messages < 0 ==> num_messages as i32 != 0
    &&& num_messages <= 1
    &&& num_messages == 1 ==> (opcode as u32 == 1 || opcode as u32 == 2)
}

impl MidiOpcode {
    /// Reads what one call of `AMidiOutputPort_receive` returned (the number of
    /// messages) and wrote (the opcode, the number of bytes received and the
    /// timestamp): a negative count is an error status, no message is `NoMessage`,
    /// and one message is `Data` or `Flush` according to its opcode.
    pub fn from_receive(
        num_messages: isize,
        opcode: i32,
        num_bytes_received: usize,
        timestamp: i64,
    ) -> (result: Result<MidiOpcode, MediaError>)
        requires
            receive_readable(num_messages, opcode),
        ensures
            num_messages < 0 ==> result == Err::<MidiOpcode, MediaError>(MediaError(num_messages as i32)),
            num_messages == 0 ==> result == Ok::<MidiOpcode, MediaError>(MidiOpcode::NoMessage),
            num_messages == 1 && opcode as u32 == 1 ==> result == Ok::<MidiOpcode, MediaError>(
                MidiOpcode::Data { length: num_bytes_received, timestamp },
            ),
            num_messages == 1 && opcode as u32 == 2 ==> result == Ok::<MidiOpcode, MediaError>(
                MidiOpcode::Flush,
            ),
    {
        if num_messages < 0 {
            Err(MediaError::from_status(num_messages as i32).unwrap_err())
        } else if num_messages == 0 {
            Ok(MidiOpcode::NoMessage)
        } else {
            let code = opcode as u32;
            if code == amidi_opcode_data() {
                Ok(MidiOpcode::Data { length: num_bytes_received, timestamp })
            } else if code == amidi_opcode_flush() {
                Ok(MidiOpcode::Flush)
            } else {
                vstd::pervasive::unreached()
            }
        }
    }
}

} // verus!
