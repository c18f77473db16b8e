//! The Command Complete event.
//!
//! Every Command Complete event (Vol 2, Part E, Section 7.7.14) starts with the number of HCI
//! command packets that the host may send, followed by the opcode of the command that completed;
//! the rest of the event holds that command's return parameters.
//!
//! This parser does not decode the return parameters of particular commands: it keeps them as raw
//! bytes and accepts every opcode. It therefore never returns `Error::UnknownOpCode`; its only
//! error is `Error::BadLength` for a buffer shorter than the three header bytes.

use vstd::prelude::*;
use vstd::slice::{slice_subrange, slice_to_vec};

use super::{le_u16, u16_at, Error};
use crate::opcode::OpCode;

verus! {

/// The Command Complete event: the host controller finished a command.
#[derive(Clone, Debug)]
pub struct CommandComplete {
    /// Number of HCI Command packets that can be sent to the controller from the host.
    pub num_hci_command_packets: u8,

    /// Opcode of the command that completed. The controller can generate a spontaneous
    /// Command Complete with opcode 0 if the number of allowed HCI commands has changed.
    pub op_code: OpCode,

    /// The return parameters of the command, as sent by the controller.
    pub return_params: Vec<u8>,
}

/// Whether `r` is what deserializing the Command Complete parameters `p` gives: a buffer shorter
/// than the three header bytes is refused, anything else is split into its fields.
pub open spec fn command_complete_result<VE>(
    p: Seq<u8>,
    r: Result<CommandComplete, Error<VE>>,
) -> bool {
    if p.len() < CommandComplete::HEADER_LENGTH {
        r == Err::<CommandComplete, Error<VE>>(
            Error::BadLength(p.len() as usize, CommandComplete::HEADER_LENGTH),
        )
    } else {
        &&& r is Ok
        &&& r->Ok_0.num_hci_command_packets == p[0]
        &&& r->Ok_0.op_code == OpCode(le_u16(p[1], p[2]))
        &&& r->Ok_0.return_params@ == p.subrange(3, p.len() as int)
    }
}

impl CommandComplete {
    /// Length of the fields that every Command Complete event holds.
    pub const HEADER_LENGTH: usize = 3;

    /// Deserializes the parameters of a Command Complete event.
    ///
    /// # Errors
    ///
    /// - Returns a BadLength error if the buffer is shorter than the three header bytes.
    pub fn new<VE>(bytes: &[u8]) -> (r: Result<CommandComplete, Error<VE>>)
        ensures
            command_complete_result(bytes@, r),
    {
        if bytes.len() < Self::HEADER_LENGTH {
            return Err(Error::BadLength(bytes.len(), Self::HEADER_LENGTH));
        }
        Ok(
            CommandComplete {
                num_hci_command_packets: bytes[0],
                op_code: OpCode(u16_at(bytes, 1)),
                return_params: slice_to_vec(slice_subrange(bytes, Self::HEADER_LENGTH, bytes.len())),
            },
        )
    }
}

} // verus!
