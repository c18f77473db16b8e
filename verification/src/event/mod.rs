//! Bluetooth events and event deserialization.
//!
//! This module defines the HCI events that the Bluetooth controller can generate and that this
//! crate understands. The core of the module is [`Event::new`], which converts a byte buffer
//! holding one HCI event packet into an [`Event`].
//!
//! The parsers are specified by spec functions over the bytes (`spec_connection_complete` and its
//! siblings); [`Event::new`] is proved against them.

use byteorder::{ByteOrder, LittleEndian};
use core::convert::Infallible;
use vstd::prelude::*;
use vstd::slice::slice_subrange;

use crate::opcode::OpCode;
use crate::{BadStatusError, BdAddr, ConnectionHandle, Status};

pub mod command;
pub mod laws;

verus! {

/// Errors that may occur when deserializing an event. Specialized by the vendor crate to allow for
/// vendor-specific event errors.
#[derive(Copy, Clone, Debug)]
pub enum Error<V> {
    /// The event type byte was unknown. The byte is provided.
    UnknownEvent(u8),

    /// The buffer provided that is supposed to contain an event does not have the correct
    /// length. Field 0 is the provided length, field 1 is the expected length.
    BadLength(usize, usize),

    /// For all events: The status was not recognized (reserved for future use). Includes the
    /// unrecognized byte.
    BadStatus(u8),

    /// For the ConnectionComplete event: the link type was not recognized (reserved for future
    /// use). Includes the unrecognized byte.
    BadLinkType(u8),

    /// For the ConnectionComplete event: the encryption enabled value was not recognized (reserved
    /// for future use). Includes the unrecognized byte.
    BadEncryptionEnabledValue(u8),

    /// For the DisconnectionComplete event: the disconnection reason was not recognized.  Includes
    /// the unrecognized byte.
    BadReason(u8),

    /// For the EncryptionChange event: The encryption type was not recognized.  Includes the
    /// unrecognized byte.
    BadEncryptionType(u8),

    /// For the Command Complete event: The event indicated a command completed whose opcode was not
    /// recognized. Includes the unrecognized opcode.
    ///
    /// This crate's Command Complete parser ([`command::CommandComplete::new`]) keeps the return
    /// parameters as raw bytes and accepts every opcode, so it never produces this error; the
    /// variant is kept for callers and vendor parsers that recognize opcodes themselves.
    UnknownOpCode(OpCode),

    /// A vendor-specific error was detected when deserializing a vendor-specific event.
    Vendor(V),
}

/// Turns a status conversion failure into the event error for a bad status byte.
pub fn rewrap_bad_status<VE>(bad_status: BadStatusError) -> (r: Error<VE>)
    ensures
        r == Error::<VE>::BadStatus(bad_status->BadValue_0),
{
    let BadStatusError::BadValue(v) = bad_status;
    Error::BadStatus(v)
}

/// Turns a status conversion failure into the event error for a bad disconnection reason.
pub fn rewrap_bad_reason<VE>(bad_status: BadStatusError) -> (r: Error<VE>)
    ensures
        r == Error::<VE>::BadReason(bad_status->BadValue_0),
{
    let BadStatusError::BadValue(v) = bad_status;
    Error::BadReason(v)
}

/// The value of two bytes read as a little-endian 16-bit integer.
pub open spec fn le_u16(lo: u8, hi: u8) -> u16 {
    (lo as int + 256 * hi as int) as u16
}

/// `byteorder::LittleEndian::read_u16`: the first two bytes of `buf` read as a little-endian
/// 16-bit integer. The outside function panics when `buf` holds fewer than two bytes, which the
/// `requires` rules out.
#[verifier::external_body]
fn read_u16_le(buf: &[u8]) -> (r: u16)
    requires
        buf@.len() >= 2,
    ensures
        r == le_u16(buf@[0], buf@[1]),
{
    LittleEndian::read_u16(buf)
}

/// Reads the little-endian 16-bit integer at offset `at` of `buf`.
fn u16_at(buf: &[u8], at: usize) -> (r: u16)
    requires
        at + 2 <= buf@.len(),
    ensures
        r == le_u16(buf@[at as int], buf@[at + 1]),
{
    read_u16_le(slice_subrange(buf, at, buf.len()))
}

/// Permissible values for [`ConnectionComplete`] `link_type`
#[derive(Copy, Clone, Debug, PartialEq, Eq, Structural)]
pub enum LinkType {
    /// Synchronous, connection-oriented link
    Sco,
    /// Asynchronous, connection-less link
    Acl,
}

/// What converting a byte into a [`LinkType`] gives: 0 is SCO, 1 is ACL, anything else is refused.
pub open spec fn link_type_from_byte(value: u8) -> Result<LinkType, Error<Infallible>> {
    if value == 0 {
        Ok(LinkType::Sco)
    } else if value == 1 {
        Ok(LinkType::Acl)
    } else {
        Err(Error::BadLinkType(value))
    }
}

impl core::convert::TryFrom<u8> for LinkType {
    type Error = Error<Infallible>;

    fn try_from(value: u8) -> (r: Result<LinkType, Error<Infallible>>) {
        match value {
            0 => Ok(LinkType::Sco),
            1 => Ok(LinkType::Acl),
            _ => Err(Error::BadLinkType(value)),
        }
    }
}

impl vstd::std_specs::convert::TryFromSpecImpl<u8> for LinkType {
    open spec fn obeys_try_from_spec() -> bool {
        true
    }

    open spec fn try_from_spec(value: u8) -> Result<LinkType, Error<Infallible>> {
        link_type_from_byte(value)
    }
}

/// What the encryption-enabled byte of a Connection Complete event gives: 0 is false, 1 is true,
/// anything else is refused.
pub open spec fn encryption_enabled_from_byte(value: u8) -> Result<bool, Error<Infallible>> {
    if value == 0 {
        Ok(false)
    } else if value == 1 {
        Ok(true)
    } else {
        Err(Error::BadEncryptionEnabledValue(value))
    }
}

/// Converts the encryption-enabled byte of a Connection Complete event.
pub fn try_into_encryption_enabled(value: u8) -> (r: Result<bool, Error<Infallible>>)
    ensures
        r == encryption_enabled_from_byte(value),
{
    match value {
        0 => Ok(false),
        1 => Ok(true),
        _ => Err(Error::BadEncryptionEnabledValue(value)),
    }
}

/// The Connection Complete event indicates to both of the Hosts forming the connection that a new
/// connection has been established. This event also indicates to the Host which issued the
/// connection command and then received a Command Status event, if the issued command failed or was
/// successful.
#[derive(Copy, Clone, Debug)]
pub struct ConnectionComplete {
    /// Result of the connection attempt.
    pub status: Status,
    /// Connection_Handle to be used to identify a connection between two BR/ EDR Controllers. The
    /// Connection_Handle is used as an identifier for transmitting and receiving voice or data.
    pub conn_handle: ConnectionHandle,
    /// BD_ADDR of the other connected Device forming the connection.
    pub bdaddr: BdAddr,
    /// Type of connection.
    pub link_type: LinkType,
    /// True if the connection is encrypted.
    pub encryption_enabled: bool,
}

/// Length of the parameters of a Connection Complete event.
const CONNECTION_COMPLETE_LENGTH: usize = 11;

/// What the parameters `p` of a Connection Complete event deserialize to.
pub open spec fn spec_connection_complete<VE>(p: Seq<u8>) -> Result<ConnectionComplete, Error<VE>> {
    if p.len() != 11 {
        Err(Error::BadLength(p.len() as usize, 11))
    } else if !crate::is_defined_status_code(p[0]) {
        Err(Error::BadStatus(p[0]))
    } else if p[9] > 1 {
        Err(Error::BadLinkType(p[9]))
    } else if p[10] > 1 {
        Err(Error::BadEncryptionEnabledValue(p[10]))
    } else {
        Ok(
            ConnectionComplete {
                status: Status(p[0]),
                conn_handle: ConnectionHandle(le_u16(p[1], p[2])),
                bdaddr: BdAddr([p[3], p[4], p[5], p[6], p[7], p[8]]),
                link_type: if p[9] == 0 {
                    LinkType::Sco
                } else {
                    LinkType::Acl
                },
                encryption_enabled: p[10] == 1,
            },
        )
    }
}

fn to_connection_complete<VE>(payload: &[u8]) -> (r: Result<ConnectionComplete, Error<VE>>)
    ensures
        r == spec_connection_complete::<VE>(payload@),
{
    if payload.len() != CONNECTION_COMPLETE_LENGTH {
        return Err(Error::BadLength(payload.len(), CONNECTION_COMPLETE_LENGTH));
    }
    let status = match Status::try_from(payload[0]) {
        Ok(s) => s,
        Err(e) => return Err(rewrap_bad_status(e)),
    };
    let conn_handle = ConnectionHandle(u16_at(payload, 1));
    let bdaddr = BdAddr([payload[3], payload[4], payload[5], payload[6], payload[7], payload[8]]);
    let link_type = match LinkType::try_from(payload[9]) {
        Ok(t) => t,
        Err(_) => return Err(Error::BadLinkType(payload[9])),
    };
    let encryption_enabled = match try_into_encryption_enabled(payload[10]) {
        Ok(b) => b,
        Err(_) => return Err(Error::BadEncryptionEnabledValue(payload[10])),
    };
    Ok(ConnectionComplete { status, conn_handle, bdaddr, link_type, encryption_enabled })
}

/// The Disconnection Complete event occurs when a connection is terminated.
///
/// Note: When a physical link fails, one Disconnection Complete event will be returned for each
/// logical channel on the physical link with the corresponding Connection_Handle as a parameter.
///
/// See the Bluetooth v4.1 spec, Vol 2, Part E, Section 7.7.5.
#[derive(Copy, Clone, Debug)]
pub struct DisconnectionComplete {
    /// Indicates if the disconnection was successful or not.
    pub status: Status,

    /// Connection_Handle which was disconnected.
    pub conn_handle: ConnectionHandle,

    /// Indicates the reason for the disconnection if the disconnection was successful. If the
    /// disconnection was not successful, the value of the reason parameter can be ignored by the
    /// Host. For example, this can be the case if the Host has issued the Disconnect command and
    /// there was a parameter error, or the command was not presently allowed, or a
    /// Connection_Handle that didn't correspond to a connection was given.
    pub reason: Status,
}

/// Length of the parameters of a Disconnection Complete event.
const DISCONNECTION_COMPLETE_LENGTH: usize = 4;

/// What the parameters `p` of a Disconnection Complete event deserialize to.
pub open spec fn spec_disconnection_complete<VE>(p: Seq<u8>) -> Result<
    DisconnectionComplete,
    Error<VE>,
> {
    if p.len() != 4 {
        Err(Error::BadLength(p.len() as usize, 4))
    } else if !crate::is_defined_status_code(p[0]) {
        Err(Error::BadStatus(p[0]))
    } else if !crate::is_defined_status_code(p[3]) {
        Err(Error::BadReason(p[3]))
    } else {
        Ok(
            DisconnectionComplete {
                status: Status(p[0]),
                conn_handle: ConnectionHandle(le_u16(p[1], p[2])),
                reason: Status(p[3]),
            },
        )
    }
}

fn to_disconnection_complete<VE>(payload: &[u8]) -> (r: Result<DisconnectionComplete, Error<VE>>)
    ensures
        r == spec_disconnection_complete::<VE>(payload@),
{
    if payload.len() != DISCONNECTION_COMPLETE_LENGTH {
        return Err(Error::BadLength(payload.len(), DISCONNECTION_COMPLETE_LENGTH));
    }
    let status = match Status::try_from(payload[0]) {
        Ok(s) => s,
        Err(e) => return Err(rewrap_bad_status(e)),
    };
    let conn_handle = ConnectionHandle(u16_at(payload, 1));
    let reason = match Status::try_from(payload[3]) {
        Ok(s) => s,
        Err(e) => return Err(rewrap_bad_reason(e)),
    };
    Ok(DisconnectionComplete { status, conn_handle, reason })
}

/// The Encryption Change event is used to indicate that the change of the encryption mode has been
/// completed.
///
/// This event will occur on both devices to notify the Hosts when Encryption has changed for the
/// specified connection handle between two devices. Note: This event shall not be generated if
/// encryption is paused or resumed; during a role switch, for example.
#[derive(Copy, Clone, Debug)]
pub struct EncryptionChange {
    /// Indicates if the encryption change was successful or not.
    pub status: Status,

    /// Connection handle for which the link layer encryption has been enabled/disabled for all
    /// connection handles with the same BR/EDR Controller endpoint as the specified
    /// connection handle.
    ///
    /// The connection handle will be a connection handle for an ACL connection.
    pub conn_handle: ConnectionHandle,

    /// Specifies the new encryption type parameter for conn_handle.
    pub encryption: Encryption,
}

/// The meaning of the encryption type depends on whether the Host has indicated support for Secure
/// Connections in the secure connections host support parameter. When secure connections host
/// support is 'disabled' or the connection handle refers to an LE link, the Controller shall only
/// use values 0x00 (OFF) and 0x01 (ON). When secure connections host support is 'enabled' and the
/// connection handle refers to a BR/EDR link, the Controller shall set the encryption type to 0x00
/// when encryption is off, to 0x01 when encryption is on and using E0 and to 0x02 when encryption
/// is on and using AES-CCM.
#[derive(Copy, Clone, Debug, PartialEq, Eq, Structural)]
pub enum Encryption {
    /// Encryption is disabled.
    Off,
    /// - On a BR/EDR link, encryption is enabled using E0
    /// - On an LE link, encryption is enabled using AES-CCM
    On,
    /// On a BR/EDR link, encryption is enabled using AES-CCM. Unused for LE links.
    OnAesCcmForBrEdr,
}

/// What converting a byte into an [`Encryption`] gives: 0, 1 and 2 are Off, On and
/// OnAesCcmForBrEdr, anything else is refused.
pub open spec fn encryption_from_byte(value: u8) -> Result<Encryption, Error<Infallible>> {
    if value == 0 {
        Ok(Encryption::Off)
    } else if value == 1 {
        Ok(Encryption::On)
    } else if value == 2 {
        Ok(Encryption::OnAesCcmForBrEdr)
    } else {
        Err(Error::BadEncryptionType(value))
    }
}

impl core::convert::TryFrom<u8> for Encryption {
    type Error = Error<Infallible>;

    fn try_from(value: u8) -> (r: Result<Encryption, Error<Infallible>>) {
        match value {
            0x00 => Ok(Encryption::Off),
            0x01 => Ok(Encryption::On),
            0x02 => Ok(Encryption::OnAesCcmForBrEdr),
            _ => Err(Error::BadEncryptionType(value)),
        }
    }
}

impl vstd::std_specs::convert::TryFromSpecImpl<u8> for Encryption {
    open spec fn obeys_try_from_spec() -> bool {
        true
    }

    open spec fn try_from_spec(value: u8) -> Result<Encryption, Error<Infallible>> {
        encryption_from_byte(value)
    }
}

/// Length of the parameters of an Encryption Change event.
const ENCRYPTION_CHANGE_LENGTH: usize = 4;

/// What the parameters `p` of an Encryption Change event deserialize to.
pub open spec fn spec_encryption_change<VE>(p: Seq<u8>) -> Result<EncryptionChange, Error<VE>> {
    if p.len() != 4 {
        Err(Error::BadLength(p.len() as usize, 4))
    } else if !crate::is_defined_status_code(p[0]) {
        Err(Error::BadStatus(p[0]))
    } else if p[3] > 2 {
        Err(Error::BadEncryptionType(p[3]))
    } else {
        Ok(
            EncryptionChange {
                status: Status(p[0]),
                conn_handle: ConnectionHandle(le_u16(p[1], p[2])),
                encryption: if p[3] == 0 {
                    Encryption::Off
                } else if p[3] == 1 {
                    Encryption::On
                } else {
                    Encryption::OnAesCcmForBrEdr
                },
            },
        )
    }
}

fn to_encryption_change<VE>(payload: &[u8]) -> (r: Result<EncryptionChange, Error<VE>>)
    ensures
        r == spec_encryption_change::<VE>(payload@),
{
    if payload.len() != ENCRYPTION_CHANGE_LENGTH {
        return Err(Error::BadLength(payload.len(), ENCRYPTION_CHANGE_LENGTH));
    }
    let status = match Status::try_from(payload[0]) {
        Ok(s) => s,
        Err(e) => return Err(rewrap_bad_status(e)),
    };
    let conn_handle = ConnectionHandle(u16_at(payload, 1));
    let encryption = match Encryption::try_from(payload[3]) {
        Ok(e) => e,
        Err(_) => return Err(Error::BadEncryptionType(payload[3])),
    };
    Ok(EncryptionChange { status, conn_handle, encryption })
}

/// The Read Remote Version Information Complete event is used to indicate the completion of the
/// process obtaining the version information of the remote Controller specified by the
/// conn_handle event parameter.
#[derive(Copy, Clone, Debug)]
pub struct RemoteVersionInformation {
    /// Status of the read event.
    pub status: Status,

    /// Connection Handle which is used for the Read_Remote_Version_Information command.  The
    /// connection handle shall be for an ACL connection.
    pub conn_handle: ConnectionHandle,

    /// Version of the Current LMP in the remote Controller. See [LMP] version and [Link Layer]
    /// version in the Bluetooth Assigned Numbers.
    ///
    /// - When the connection handle is associated with a BR/EDR ACL-U logical link, the Version
    ///   event parameter shall be LMP version parameter
    ///
    /// - When the connection handle is associated with an LE-U logical link, the Version event
    ///   parameter shall be Link Layer version parameter
    ///
    /// [LMP]: https://www.bluetooth.com/specifications/assigned-numbers/link-manager
    /// [Link Layer]: https://www.bluetooth.com/specifications/assigned-numbers/link-layer
    pub version: u8,

    /// Manufacturer Name of the remote Controller. See [CompId] in the Bluetooth Assigned Numbers.
    ///
    /// [CompId]: https://www.bluetooth.com/specifications/assigned-numbers/company-identifiers
    pub mfgr_name: u16,

    /// Subversion of the LMP in the remote Controller. See the Bluetooth Spec, v4.1, Vol 2, Part C,
    /// Table 5.2 and Vol 6, Part B, Section 2.4.2.13(SubVersNr).  The sections are the same in v4.2
    /// and v5.0 of the spec.
    ///
    /// SubVersNr field shall contain a unique value for each implementation or revision of an
    /// implementation of the Bluetooth Controller.
    ///
    /// The meaning of the subversion is implementation-defined.
    pub subversion: u16,
}

/// Length of the parameters of a Read Remote Version Information Complete event.
const REMOTE_VERSION_INFO_LENGTH: usize = 8;

/// What the parameters `p` of a Read Remote Version Information Complete event deserialize to.
pub open spec fn spec_remote_version_info<VE>(p: Seq<u8>) -> Result<
    RemoteVersionInformation,
    Error<VE>,
> {
    if p.len() != 8 {
        Err(Error::BadLength(p.len() as usize, 8))
    } else if !crate::is_defined_status_code(p[0]) {
        Err(Error::BadStatus(p[0]))
    } else {
        Ok(
            RemoteVersionInformation {
                status: Status(p[0]),
                conn_handle: ConnectionHandle(le_u16(p[1], p[2])),
                version: p[3],
                mfgr_name: le_u16(p[4], p[5]),
                subversion: le_u16(p[6], p[7]),
            },
        )
    }
}

fn to_remote_version_info<VE>(payload: &[u8]) -> (r: Result<RemoteVersionInformation, Error<VE>>)
    ensures
        r == spec_remote_version_info::<VE>(payload@),
{
    if payload.len() != REMOTE_VERSION_INFO_LENGTH {
        return Err(Error::BadLength(payload.len(), REMOTE_VERSION_INFO_LENGTH));
    }
    let status = match Status::try_from(payload[0]) {
        Ok(s) => s,
        Err(e) => return Err(rewrap_bad_status(e)),
    };
    Ok(
        RemoteVersionInformation {
            status,
            conn_handle: ConnectionHandle(u16_at(payload, 1)),
            version: payload[3],
            mfgr_name: u16_at(payload, 4),
            subversion: u16_at(payload, 6),
        },
    )
}

/// The Command Status event. This event is generated to indicate that an asynchronous operation has
/// begun (or could not begin).
///
/// Defined in Vol 2, Part E, Section 7.7.15 of the spec.
#[derive(Copy, Clone, Debug)]
pub struct CommandStatus {
    /// Status of the command that has started.
    pub status: Status,

    /// Number of HCI Command packets that can be sent to the controller from the host.
    pub num_hci_command_packets: u8,

    /// Opcode of the command that generated this CommandStatus event. The controller can generate a
    /// spontaneous CommandStatus with opcode 0 if the number of allowed HCI commands has changed.
    pub op_code: OpCode,
}

/// What the parameters `p` of a Command Status event deserialize to.
pub open spec fn spec_command_status<VE>(p: Seq<u8>) -> Result<CommandStatus, Error<VE>> {
    if p.len() != 4 {
        Err(Error::BadLength(p.len() as usize, 4))
    } else if !crate::is_defined_status_code(p[0]) {
        Err(Error::BadStatus(p[0]))
    } else {
        Ok(
            CommandStatus {
                status: Status(p[0]),
                num_hci_command_packets: p[1],
                op_code: OpCode(le_u16(p[2], p[3])),
            },
        )
    }
}

impl CommandStatus {
    /// Length of the parameters of a Command Status event.
    const LENGTH: usize = 4;

    fn new<VE>(buffer: &[u8]) -> (r: Result<CommandStatus, Error<VE>>)
        ensures
            r == spec_command_status::<VE>(buffer@),
    {
        if buffer.len() != Self::LENGTH {
            return Err(Error::BadLength(buffer.len(), Self::LENGTH));
        }
        let status = match Status::try_from(buffer[0]) {
            Ok(s) => s,
            Err(e) => return Err(rewrap_bad_status(e)),
        };
        Ok(
            CommandStatus {
                status,
                num_hci_command_packets: buffer[1],
                op_code: OpCode(u16_at(buffer, 2)),
            },
        )
    }
}

/// Potential events that can be generated by the controller.
///
/// See the Bluetooth Spec v4.1, Vol 2, Part E, Section 7.7 for a description of each event.  The
/// events are the same for version 4.2 and 5.0 except where noted.
#[derive(Clone, Debug)]
pub enum Event<V> {
    /// Vol 2, Part E, Section 7.7.3
    ConnectionComplete(ConnectionComplete),

    /// Vol 2, Part E, Section 7.7.5
    DisconnectionComplete(DisconnectionComplete),

    /// Vol 2, Part E, Section 7.7.8
    EncryptionChange(EncryptionChange),

    /// Vol 2, Part E, Section 7.7.12
    ReadRemoteVersionInformationComplete(RemoteVersionInformation),

    /// Vol 2, Part E, Section 7.7.14
    CommandComplete(command::CommandComplete),

    /// Vol 2, Part E, Section 7.7.15
    CommandStatus(CommandStatus),

    /// Vendor-specific events (opcode 0xFF)
    Vendor(V),
}

/// Trait for vendor-specific events.
pub trait VendorEvent {
    /// Enumeration of vendor-specific errors that may occur when deserializing events. Generally,
    /// this means some values in the buffer are out of range for the event.
    type Error;

    /// Creates a new vendor-specific event from the contents of buffer. The buffer contains only
    /// the payload of the event, which does not include the BLE event type (which must be 0xFF) or
    /// the parameter length (which is provided by `buffer.len()`).
    ///
    /// # Errors
    ///
    /// - Shall return one of the appropriate error types (potentially including vendor-specific
    ///   errors) if the buffer does not describe a valid event.
    fn new(buffer: &[u8]) -> Result<Self, Error<Self::Error>> where Self: Sized;
}

/// Defines a newtype to indicate that the buffer is supposed to contain an HCI event.
pub struct Packet<'a>(pub &'a [u8]);

/// Length of the packet header: the event type byte and the parameter length byte.
const PACKET_HEADER_LENGTH: usize = 2;

const EVENT_TYPE_BYTE: usize = 0;

const PARAM_LEN_BYTE: usize = 1;

impl<'a> Packet<'a> {
    /// The length that the header declares for the whole packet.
    fn full_length(&self) -> (r: usize)
        requires
            self.0@.len() >= PACKET_HEADER_LENGTH,
        ensures
            r == PACKET_HEADER_LENGTH + self.0@[1],
    {
        PACKET_HEADER_LENGTH + self.0[PARAM_LEN_BYTE] as usize
    }
}

/// The length error, if any, of packet `p`: a packet must hold its two header bytes, and then
/// exactly as many parameter bytes as its second byte declares.
pub open spec fn packet_length_error<VE>(p: Seq<u8>) -> Option<Error<VE>> {
    if p.len() < 2 {
        Some(Error::BadLength(p.len() as usize, 2))
    } else if p.len() != 2 + p[1] {
        Some(Error::BadLength(p.len() as usize, (2 + p[1]) as usize))
    } else {
        None
    }
}

/// The parameters (payload) of packet `p`: what follows its two header bytes.
pub open spec fn packet_payload(p: Seq<u8>) -> Seq<u8> {
    p.subrange(2, p.len() as int)
}

/// The event types with a fixed parameter layout that this module deserializes.
pub open spec fn is_fixed_event_type(t: u8) -> bool {
    t == 0x03 || t == 0x05 || t == 0x08 || t == 0x0C || t == 0x0F
}

/// What the parameters `p` of an event of fixed-layout type `t` deserialize to.
pub open spec fn spec_fixed_event<V, VE>(t: u8, p: Seq<u8>) -> Result<Event<V>, Error<VE>> {
    if t == 0x03 {
        match spec_connection_complete::<VE>(p) {
            Ok(c) => Ok(Event::ConnectionComplete(c)),
            Err(e) => Err(e),
        }
    } else if t == 0x05 {
        match spec_disconnection_complete::<VE>(p) {
            Ok(c) => Ok(Event::DisconnectionComplete(c)),
            Err(e) => Err(e),
        }
    } else if t == 0x08 {
        match spec_encryption_change::<VE>(p) {
            Ok(c) => Ok(Event::EncryptionChange(c)),
            Err(e) => Err(e),
        }
    } else if t == 0x0C {
        match spec_remote_version_info::<VE>(p) {
            Ok(c) => Ok(Event::ReadRemoteVersionInformationComplete(c)),
            Err(e) => Err(e),
        }
    } else {
        match spec_command_status::<VE>(p) {
            Ok(c) => Ok(Event::CommandStatus(c)),
            Err(e) => Err(e),
        }
    }
}

/// Whether `r` is what deserializing packet `p` gives, for every packet whose event is not a
/// vendor event (type 0xFF with a well-formed header).
pub open spec fn packet_result<V, VE>(p: Seq<u8>, r: Result<Event<V>, Error<VE>>) -> bool {
    match packet_length_error::<VE>(p) {
        Some(e) => r == Err::<Event<V>, Error<VE>>(e),
        None => {
            let t = p[0];
            let payload = packet_payload(p);
            if is_fixed_event_type(t) {
                r == spec_fixed_event::<V, VE>(t, payload)
            } else if t == 0x0E {
                match r {
                    Ok(Event::CommandComplete(c)) => command::command_complete_result::<VE>(
                        payload,
                        Ok(c),
                    ),
                    Ok(_) => false,
                    Err(e) => command::command_complete_result::<VE>(payload, Err(e)),
                }
            } else {
                r == Err::<Event<V>, Error<VE>>(Error::UnknownEvent(t))
            }
        }
    }
}

/// What deserializing a vendor packet gives when the vendor's parser returned `vr`.
pub open spec fn vendor_result<V, VE>(vr: Result<V, Error<VE>>) -> Result<Event<V>, Error<VE>> {
    match vr {
        Ok(v) => Ok(Event::Vendor(v)),
        Err(e) => Err(e),
    }
}

/// Whether packet `p` has a well-formed header and announces a vendor event.
pub open spec fn is_vendor_packet(p: Seq<u8>) -> bool {
    p.len() >= 2 && p.len() == 2 + p[1] && p[0] == 0xFF
}

impl<VEvent, VError> Event<VEvent> where VEvent: VendorEvent<Error = VError> {
    /// Deserializes an event from the given packet. The packet should contain all of the data
    /// needed to deserialize the event.
    ///
    /// # Errors
    ///
    /// - Returns an UnknownEvent error if the first byte of the header is not a recognized event
    ///   type. This includes events that may be valid BLE events, but are not yet be implemented by
    ///   this crate.
    ///
    /// - Returns a BadLength error if the length of the packet is not sufficient to either (1)
    ///   contain a packet header, or (2) contain the packet data as defined by the header.
    ///
    /// - Returns other errors if the particular event cannot be correctly deserialized from the
    ///   packet. This includes vendor-specific errors for vendor events.
    pub fn new(packet: Packet) -> (r: Result<Event<VEvent>, Error<VError>>)
        ensures
            !is_vendor_packet(packet.0@) ==> packet_result(packet.0@, r),
            is_vendor_packet(packet.0@) ==> (r matches Ok(e) ==> e is Vendor),
            is_vendor_packet(packet.0@) ==> exists|buffer: &[u8], vr: Result<VEvent, Error<VError>>|
                #![trigger call_ensures(VEvent::new, (buffer,), vr)]
                buffer@ == packet_payload(packet.0@) && call_ensures(VEvent::new, (buffer,), vr)
                    && r == vendor_result(vr),
    {
        if packet.0.len() < PACKET_HEADER_LENGTH {
            return Err(Error::BadLength(packet.0.len(), PACKET_HEADER_LENGTH));
        }
        if packet.0.len() != packet.full_length() {
            return Err(Error::BadLength(packet.0.len(), packet.full_length()));
        }
        let event_type = packet.0[EVENT_TYPE_BYTE];
        let payload = slice_subrange(packet.0, PACKET_HEADER_LENGTH, packet.full_length());
        match event_type {
            0x03 => match to_connection_complete(payload) {
                Ok(c) => Ok(Event::ConnectionComplete(c)),
                Err(e) => Err(e),
            },
            0x05 => match to_disconnection_complete(payload) {
                Ok(c) => Ok(Event::DisconnectionComplete(c)),
                Err(e) => Err(e),
            },
            0x08 => match to_encryption_change(payload) {
                Ok(c) => Ok(Event::EncryptionChange(c)),
                Err(e) => Err(e),
            },
            0x0C => match to_remote_version_info(payload) {
                Ok(c) => Ok(Event::ReadRemoteVersionInformationComplete(c)),
                Err(e) => Err(e),
            },
            0x0E => match command::CommandComplete::new(payload) {
                Ok(c) => Ok(Event::CommandComplete(c)),
                Err(e) => Err(e),
            },
            0x0F => match CommandStatus::new(payload) {
                Ok(c) => Ok(Event::CommandStatus(c)),
                Err(e) => Err(e),
            },
            0xFF => match VEvent::new(payload) {
                Ok(v) => Ok(Event::Vendor(v)),
                Err(e) => Err(e),
            },
            _ => Err(Error::UnknownEvent(event_type)),
        }
    }
}

/// The two bytes of `x`, least significant first.
pub open spec fn u16_le_bytes(x: u16) -> Seq<u8> {
    seq![(x % 256) as u8, (x / 256) as u8]
}

/// The byte that encodes link type `l`.
pub open spec fn link_type_byte(l: LinkType) -> u8 {
    match l {
        LinkType::Sco => 0,
        LinkType::Acl => 1,
    }
}

/// The byte that encodes encryption type `e`.
pub open spec fn encryption_byte(e: Encryption) -> u8 {
    match e {
        Encryption::Off => 0,
        Encryption::On => 1,
        Encryption::OnAesCcmForBrEdr => 2,
    }
}

/// The packet that carries event `e`: type byte, parameter length byte, then the parameters in the
/// layout of the Bluetooth specification. Vendor events have no layout of this crate (empty).
pub open spec fn event_bytes<V>(e: Event<V>) -> Seq<u8> {
    match e {
        Event::ConnectionComplete(c) => seq![0x03u8, 11u8, c.status.0] + u16_le_bytes(
            c.conn_handle.0,
        ) + c.bdaddr.0@ + seq![
            link_type_byte(c.link_type),
            if c.encryption_enabled {
                1u8
            } else {
                0u8
            },
        ],
        Event::DisconnectionComplete(c) => seq![0x05u8, 4u8, c.status.0] + u16_le_bytes(
            c.conn_handle.0,
        ) + seq![c.reason.0],
        Event::EncryptionChange(c) => seq![0x08u8, 4u8, c.status.0] + u16_le_bytes(c.conn_handle.0)
            + seq![encryption_byte(c.encryption)],
        Event::ReadRemoteVersionInformationComplete(c) => seq![0x0Cu8, 8u8, c.status.0]
            + u16_le_bytes(c.conn_handle.0) + seq![c.version] + u16_le_bytes(c.mfgr_name)
            + u16_le_bytes(c.subversion),
        Event::CommandComplete(c) => seq![
            0x0Eu8,
            (3 + c.return_params@.len()) as u8,
            c.num_hci_command_packets,
        ] + u16_le_bytes(c.op_code.0) + c.return_params@,
        Event::CommandStatus(c) => seq![0x0Fu8, 4u8, c.status.0, c.num_hci_command_packets]
            + u16_le_bytes(c.op_code.0),
        Event::Vendor(_) => Seq::empty(),
    }
}

/// Whether `e` is an event that a packet can carry and this module deserializes: not a vendor
/// event, every status code defined, and the parameters no longer than a length byte can declare.
pub open spec fn is_well_formed_event<V>(e: Event<V>) -> bool {
    match e {
        Event::ConnectionComplete(c) => crate::is_defined_status_code(c.status.0),
        Event::DisconnectionComplete(c) => crate::is_defined_status_code(c.status.0)
            && crate::is_defined_status_code(c.reason.0),
        Event::EncryptionChange(c) => crate::is_defined_status_code(c.status.0),
        Event::ReadRemoteVersionInformationComplete(c) => crate::is_defined_status_code(
            c.status.0,
        ),
        Event::CommandComplete(c) => c.return_params@.len() <= 252,
        Event::CommandStatus(c) => crate::is_defined_status_code(c.status.0),
        Event::Vendor(_) => false,
    }
}

proof fn lemma_le_u16_split(lo: u8, hi: u8)
    ensures
        u16_le_bytes(le_u16(lo, hi)) == seq![lo, hi],
{
    assert(le_u16(lo, hi) == lo as int + 256 * hi as int);
    assert(u16_le_bytes(le_u16(lo, hi)) =~= seq![lo, hi]);
}

proof fn lemma_le_u16_join(x: u16)
    ensures
        le_u16(u16_le_bytes(x)[0], u16_le_bytes(x)[1]) == x,
{
}

/// Deserializing loses nothing: whenever a packet deserializes to an event (other than a vendor
/// event), the packet is exactly the encoding of that event, and the event is well formed.
pub proof fn lemma_packet_is_event_bytes<V, VE>(p: Seq<u8>, e: Event<V>)
    requires
        packet_result::<V, VE>(p, Ok(e)),
    ensures
        p == event_bytes(e),
        is_well_formed_event(e),
{
    let q = packet_payload(p);
    assert(p.len() == 2 + p[1]);
    assert(p =~= seq![p[0], p[1]] + q);
    lemma_le_u16_split(q[1], q[2]);
    match e {
        Event::ConnectionComplete(c) => {
            assert(c.bdaddr.0@ =~= q.subrange(3, 9));
            assert(p =~= event_bytes(e));
        },
        Event::DisconnectionComplete(c) => {
            assert(p =~= event_bytes(e));
        },
        Event::EncryptionChange(c) => {
            assert(p =~= event_bytes(e));
        },
        Event::ReadRemoteVersionInformationComplete(c) => {
            lemma_le_u16_split(q[4], q[5]);
            lemma_le_u16_split(q[6], q[7]);
            assert(p =~= event_bytes(e));
        },
        Event::CommandComplete(c) => {
            assert(p =~= event_bytes(e));
        },
        Event::CommandStatus(c) => {
            lemma_le_u16_split(q[2], q[3]);
            assert(p =~= event_bytes(e));
        },
        Event::Vendor(_) => {},
    }
}

/// Encoding then deserializing gives the event back: the encoding of every well-formed event is a
/// packet that is not a vendor packet and that deserializes to that event.
pub proof fn lemma_event_bytes_deserialize<V, VE>(e: Event<V>)
    requires
        is_well_formed_event(e),
    ensures
        !is_vendor_packet(event_bytes(e)),
        packet_result::<V, VE>(event_bytes(e), Ok(e)),
{
    let p = event_bytes(e);
    let q = packet_payload(p);
    match e {
        Event::ConnectionComplete(c) => {
            lemma_le_u16_join(c.conn_handle.0);
            assert(q =~= seq![c.status.0] + u16_le_bytes(c.conn_handle.0) + c.bdaddr.0@ + seq![
                link_type_byte(c.link_type),
                if c.encryption_enabled {
                    1u8
                } else {
                    0u8
                },
            ]);
            assert(c.bdaddr.0 == [q[3], q[4], q[5], q[6], q[7], q[8]]) by {
                assert(c.bdaddr.0@ =~= [q[3], q[4], q[5], q[6], q[7], q[8]]@);
            }
        },
        Event::DisconnectionComplete(c) => {
            lemma_le_u16_join(c.conn_handle.0);
        },
        Event::EncryptionChange(c) => {
            lemma_le_u16_join(c.conn_handle.0);
        },
        Event::ReadRemoteVersionInformationComplete(c) => {
            lemma_le_u16_join(c.conn_handle.0);
            lemma_le_u16_join(c.mfgr_name);
            lemma_le_u16_join(c.subversion);
        },
        Event::CommandComplete(c) => {
            lemma_le_u16_join(c.op_code.0);
            assert(q.subrange(3, q.len() as int) =~= c.return_params@);
        },
        Event::CommandStatus(c) => {
            lemma_le_u16_join(c.op_code.0);
        },
        Event::Vendor(_) => {},
    }
}

/// No two packets deserialize to the same event: if two packets both deserialize to event `e`
/// (other than a vendor event), they are the same packet.
pub proof fn lemma_deserialize_injective<V, VE>(p1: Seq<u8>, p2: Seq<u8>, e: Event<V>)
    requires
        packet_result::<V, VE>(p1, Ok(e)),
        packet_result::<V, VE>(p2, Ok(e)),
    ensures
        p1 == p2,
{
    lemma_packet_is_event_bytes::<V, VE>(p1, e);
    lemma_packet_is_event_bytes::<V, VE>(p2, e);
}

} // verus!
