//! Bluetooth HCI: the values shared by commands and events, and the deserialization of HCI
//! events (see the `event` module).

use vstd::prelude::*;

pub mod event;
pub mod opcode;

verus! {

/// The status codes that the Bluetooth Core specification (v5.0, Vol 2, Part D) defines:
/// 0x00 through 0x44, except the reserved values 0x2B, 0x31 and 0x33.
pub open spec fn is_defined_status_code(code: u8) -> bool {
    code <= 0x44 && code != 0x2B && code != 0x31 && code != 0x33
}

/// Status (error) code reported by the controller, held as its raw code.
///
/// A `Status` obtained through `Status::try_from` always holds a code that the specification
/// defines.
#[derive(Copy, Clone, Debug, PartialEq, Eq, Structural)]
pub struct Status(pub u8);

/// Error returned when a byte is not a recognized status code.
#[derive(Copy, Clone, Debug, PartialEq, Eq, Structural)]
pub enum BadStatusError {
    /// The value is not a status code that the specification defines. Includes the value.
    BadValue(u8),
}

/// What converting a byte into a [`Status`] gives.
pub open spec fn status_from_byte(value: u8) -> Result<Status, BadStatusError> {
    if is_defined_status_code(value) {
        Ok(Status(value))
    } else {
        Err(BadStatusError::BadValue(value))
    }
}

impl core::convert::TryFrom<u8> for Status {
    type Error = BadStatusError;

    fn try_from(value: u8) -> (r: Result<Status, BadStatusError>) {
        if value <= 0x44 && value != 0x2B && value != 0x31 && value != 0x33 {
            Ok(Status(value))
        } else {
            Err(BadStatusError::BadValue(value))
        }
    }
}

impl vstd::std_specs::convert::TryFromSpecImpl<u8> for Status {
    open spec fn obeys_try_from_spec() -> bool {
        true
    }

    open spec fn try_from_spec(value: u8) -> Result<Status, BadStatusError> {
        status_from_byte(value)
    }
}

/// Connection handle: identifies a connection between two controllers.
#[derive(Copy, Clone, Debug, PartialEq, Eq, Structural)]
pub struct ConnectionHandle(pub u16);

/// Bluetooth device address (BD_ADDR), least significant byte first.
#[derive(Copy, Clone, Debug, PartialEq, Eq)]
pub struct BdAddr(pub [u8; 6]);

} // verus!
