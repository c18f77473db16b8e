//! Laws of event deserialization, stated over the bytes of a packet and the result that
//! [`Event::new`](super::Event::new) gives for it (through `packet_result`, its postcondition).
//!
//! Each law says, in terms of the packet's bytes alone, when a packet is accepted, what event it
//! becomes, and which error it is refused with.

use vstd::prelude::*;

use super::command::{command_complete_result, CommandComplete};
use super::{packet_result, Encryption, Error, Event, LinkType};
use crate::opcode::OpCode;
use crate::{is_defined_status_code, BadStatusError, ConnectionHandle, Status};

verus! {

/// Status codes: the codes 0x00 to 0x44 are defined except the reserved 0x2B, 0x31 and 0x33.
/// Converting a byte into a `Status` keeps a defined code as it is and refuses any other byte
/// with that same byte.
pub proof fn law_status_codes(v: u8)
    ensures
        is_defined_status_code(v) <==> (v <= 0x44 && v != 0x2B && v != 0x31 && v != 0x33),
        <Status as vstd::std_specs::convert::TryFromSpec<u8>>::obeys_try_from_spec(),
        (v <= 0x44 && v != 0x2B && v != 0x31 && v != 0x33) ==> <Status as vstd::std_specs::convert::TryFromSpec<u8>>::try_from_spec(v)
            == Ok::<Status, BadStatusError>(Status(v)),
        !(v <= 0x44 && v != 0x2B && v != 0x31 && v != 0x33) ==> <Status as vstd::std_specs::convert::TryFromSpec<u8>>::try_from_spec(v)
            == Err::<Status, BadStatusError>(BadStatusError::BadValue(v)),
{
}

/// Framing: a packet shorter than its two header bytes, or whose length differs from two plus
/// its declared parameter length, is refused with `BadLength(actual, expected)`; a well-framed
/// packet whose type byte is none of 0x03, 0x05, 0x08, 0x0C, 0x0E, 0x0F, 0xFF is refused with
/// `UnknownEvent` of that byte.
pub proof fn law_framing<V, VE>(p: Seq<u8>, r: Result<Event<V>, Error<VE>>)
    requires
        packet_result::<V, VE>(p, r),
    ensures
        p.len() < 2 ==> r == Err::<Event<V>, Error<VE>>(Error::BadLength(p.len() as usize, 2)),
        p.len() >= 2 && p.len() != 2 + p[1] ==> r == Err::<Event<V>, Error<VE>>(
            Error::BadLength(p.len() as usize, (2 + p[1]) as usize),
        ),
        p.len() >= 2 && p.len() == 2 + p[1] && p[0] != 0x03 && p[0] != 0x05 && p[0] != 0x08
            && p[0] != 0x0C && p[0] != 0x0E && p[0] != 0x0F && p[0] != 0xFF ==> r == Err::<
            Event<V>,
            Error<VE>,
        >(Error::UnknownEvent(p[0])),
{
}

/// Fixed parameter lengths: a well-framed packet of type 0x03, 0x05, 0x08, 0x0C or 0x0F whose
/// declared parameter length is not 11, 4, 4, 8 or 4 respectively is refused with
/// `BadLength(declared, required)`.
pub proof fn law_fixed_lengths<V, VE>(p: Seq<u8>, r: Result<Event<V>, Error<VE>>)
    requires
        packet_result::<V, VE>(p, r),
        p.len() >= 2,
        p.len() == 2 + p[1],
    ensures
        p[0] == 0x03 && p[1] != 11 ==> r == Err::<Event<V>, Error<VE>>(
            Error::BadLength(p[1] as usize, 11),
        ),
        p[0] == 0x05 && p[1] != 4 ==> r == Err::<Event<V>, Error<VE>>(
            Error::BadLength(p[1] as usize, 4),
        ),
        p[0] == 0x08 && p[1] != 4 ==> r == Err::<Event<V>, Error<VE>>(
            Error::BadLength(p[1] as usize, 4),
        ),
        p[0] == 0x0C && p[1] != 8 ==> r == Err::<Event<V>, Error<VE>>(
            Error::BadLength(p[1] as usize, 8),
        ),
        p[0] == 0x0F && p[1] != 4 ==> r == Err::<Event<V>, Error<VE>>(
            Error::BadLength(p[1] as usize, 4),
        ),
{
}

/// Connection Complete (type 0x03, 11 parameter bytes): accepted exactly when the status code is
/// defined and the link-type and encryption-enabled bytes are each 0 or 1; the event then holds
/// the bytes as they stand. Otherwise the first failing check, in the order status, link type,
/// encryption enabled, names the error and its byte.
pub proof fn law_connection_complete<V, VE>(p: Seq<u8>, r: Result<Event<V>, Error<VE>>)
    requires
        packet_result::<V, VE>(p, r),
        p.len() == 13,
        p[0] == 0x03,
        p[1] == 11,
    ensures
        (r is Ok) <==> (is_defined_status_code(p[2]) && p[11] <= 1 && p[12] <= 1),
        r is Ok ==> (r->Ok_0 matches Event::ConnectionComplete(c) && c.status == Status(p[2])
            && c.conn_handle.0 == p[3] + 256 * p[4] && c.bdaddr.0@ == p.subrange(5, 11) && (
        c.link_type == LinkType::Sco <==> p[11] == 0) && (c.link_type == LinkType::Acl <==> p[11]
            == 1) && (c.encryption_enabled <==> p[12] == 1)),
        !is_defined_status_code(p[2]) ==> r == Err::<Event<V>, Error<VE>>(Error::BadStatus(p[2])),
        is_defined_status_code(p[2]) && p[11] > 1 ==> r == Err::<Event<V>, Error<VE>>(
            Error::BadLinkType(p[11]),
        ),
        is_defined_status_code(p[2]) && p[11] <= 1 && p[12] > 1 ==> r == Err::<
            Event<V>,
            Error<VE>,
        >(Error::BadEncryptionEnabledValue(p[12])),
{
    if r is Ok {
        let c = r->Ok_0->ConnectionComplete_0;
        assert(c.bdaddr.0@ =~= p.subrange(5, 11));
    }
}

/// Disconnection Complete (type 0x05, 4 parameter bytes): accepted exactly when both the status
/// code and the reason code are defined status codes (any defined code is a valid reason); the
/// event then holds the status, the little-endian handle and the reason as they stand. A bad
/// status is reported before a bad reason.
pub proof fn law_disconnection_complete<V, VE>(p: Seq<u8>, r: Result<Event<V>, Error<VE>>)
    requires
        packet_result::<V, VE>(p, r),
        p.len() == 6,
        p[0] == 0x05,
        p[1] == 4,
    ensures
        (r is Ok) <==> (is_defined_status_code(p[2]) && is_defined_status_code(p[5])),
        r is Ok ==> r == Ok::<Event<V>, Error<VE>>(
            Event::DisconnectionComplete(
                super::DisconnectionComplete {
                    status: Status(p[2]),
                    conn_handle: ConnectionHandle((p[3] + 256 * p[4]) as u16),
                    reason: Status(p[5]),
                },
            ),
        ),
        !is_defined_status_code(p[2]) ==> r == Err::<Event<V>, Error<VE>>(Error::BadStatus(p[2])),
        is_defined_status_code(p[2]) && !is_defined_status_code(p[5]) ==> r == Err::<
            Event<V>,
            Error<VE>,
        >(Error::BadReason(p[5])),
{
}

/// Encryption Change (type 0x08, 4 parameter bytes): accepted exactly when the status code is
/// defined (success or not) and the encryption byte is 0, 1 or 2 (Off, On, OnAesCcmForBrEdr).
pub proof fn law_encryption_change<V, VE>(p: Seq<u8>, r: Result<Event<V>, Error<VE>>)
    requires
        packet_result::<V, VE>(p, r),
        p.len() == 6,
        p[0] == 0x08,
        p[1] == 4,
    ensures
        (r is Ok) <==> (is_defined_status_code(p[2]) && p[5] <= 2),
        r is Ok ==> r == Ok::<Event<V>, Error<VE>>(
            Event::EncryptionChange(
                super::EncryptionChange {
                    status: Status(p[2]),
                    conn_handle: ConnectionHandle((p[3] + 256 * p[4]) as u16),
                    encryption: if p[5] == 0 {
                        Encryption::Off
                    } else if p[5] == 1 {
                        Encryption::On
                    } else {
                        Encryption::OnAesCcmForBrEdr
                    },
                },
            ),
        ),
        !is_defined_status_code(p[2]) ==> r == Err::<Event<V>, Error<VE>>(Error::BadStatus(p[2])),
        is_defined_status_code(p[2]) && p[5] > 2 ==> r == Err::<Event<V>, Error<VE>>(
            Error::BadEncryptionType(p[5]),
        ),
{
}

/// Read Remote Version Information Complete (type 0x0C, 8 parameter bytes): accepted exactly
/// when the status code is defined; the event then holds status, handle, version, manufacturer
/// and subversion as they stand (16-bit fields little-endian).
pub proof fn law_remote_version_info<V, VE>(p: Seq<u8>, r: Result<Event<V>, Error<VE>>)
    requires
        packet_result::<V, VE>(p, r),
        p.len() == 10,
        p[0] == 0x0C,
        p[1] == 8,
    ensures
        (r is Ok) <==> is_defined_status_code(p[2]),
        r is Ok ==> r == Ok::<Event<V>, Error<VE>>(
            Event::ReadRemoteVersionInformationComplete(
                super::RemoteVersionInformation {
                    status: Status(p[2]),
                    conn_handle: ConnectionHandle((p[3] + 256 * p[4]) as u16),
                    version: p[5],
                    mfgr_name: (p[6] + 256 * p[7]) as u16,
                    subversion: (p[8] + 256 * p[9]) as u16,
                },
            ),
        ),
        !is_defined_status_code(p[2]) ==> r == Err::<Event<V>, Error<VE>>(Error::BadStatus(p[2])),
{
}

/// Command Status (type 0x0F, 4 parameter bytes): accepted exactly when the status code is
/// defined, whether the command began or not; the event then holds the status, the packet count
/// and the little-endian opcode as they stand.
pub proof fn law_command_status<V, VE>(p: Seq<u8>, r: Result<Event<V>, Error<VE>>)
    requires
        packet_result::<V, VE>(p, r),
        p.len() == 6,
        p[0] == 0x0F,
        p[1] == 4,
    ensures
        (r is Ok) <==> is_defined_status_code(p[2]),
        r is Ok ==> r == Ok::<Event<V>, Error<VE>>(
            Event::CommandStatus(
                super::CommandStatus {
                    status: Status(p[2]),
                    num_hci_command_packets: p[3],
                    op_code: OpCode((p[4] + 256 * p[5]) as u16),
                },
            ),
        ),
        !is_defined_status_code(p[2]) ==> r == Err::<Event<V>, Error<VE>>(Error::BadStatus(p[2])),
{
}

/// Command Complete parameters: every buffer of at least three bytes is accepted, whatever its
/// length and opcode, as the packet count, the little-endian opcode and all remaining bytes as
/// return parameters; a shorter buffer is refused with `BadLength(actual, 3)`.
pub proof fn law_command_complete_parameters<VE>(
    q: Seq<u8>,
    r: Result<CommandComplete, Error<VE>>,
)
    requires
        command_complete_result(q, r),
    ensures
        q.len() >= 3 ==> (r is Ok && r->Ok_0.num_hci_command_packets == q[0]
            && r->Ok_0.op_code.0 == q[1] + 256 * q[2] && r->Ok_0.return_params@ == q.subrange(
            3,
            q.len() as int,
        )),
        q.len() < 3 ==> r == Err::<CommandComplete, Error<VE>>(
            Error::BadLength(q.len() as usize, 3),
        ),
{
}

/// Command Complete (type 0x0E): every well-framed packet with at least three parameter bytes is
/// accepted as a Command Complete event holding the packet count, the little-endian opcode and
/// all remaining bytes as return parameters.
pub proof fn law_command_complete<V, VE>(p: Seq<u8>, r: Result<Event<V>, Error<VE>>)
    requires
        packet_result::<V, VE>(p, r),
        p.len() >= 5,
        p.len() == 2 + p[1],
        p[0] == 0x0E,
    ensures
        r matches Ok(Event::CommandComplete(c)) && c.num_hci_command_packets == p[2]
            && c.op_code.0 == p[3] + 256 * p[4] && c.return_params@ == p.subrange(5, p.len() as int),
{
    let c = r->Ok_0->CommandComplete_0;
    assert(c.return_params@ =~= p.subrange(5, p.len() as int));
}

/// Deserialization is a function of the packet: two results that both satisfy the contract of
/// `Event::new` for the same packet (other than a vendor packet) are equal, except that two
/// Command Complete results are only known to hold equal fields and equal return bytes.
pub proof fn law_result_is_determined<V, VE>(
    p: Seq<u8>,
    r1: Result<Event<V>, Error<VE>>,
    r2: Result<Event<V>, Error<VE>>,
)
    requires
        packet_result::<V, VE>(p, r1),
        packet_result::<V, VE>(p, r2),
    ensures
        !(p.len() >= 5 && p.len() == 2 + p[1] && p[0] == 0x0E) ==> r1 == r2,
        p.len() >= 5 && p.len() == 2 + p[1] && p[0] == 0x0E ==> (r1 matches Ok(
            Event::CommandComplete(c1),
        ) && r2 matches Ok(Event::CommandComplete(c2))
            && c1.num_hci_command_packets == c2.num_hci_command_packets && c1.op_code == c2.op_code
            && c1.return_params@ == c2.return_params@),
{
}

} // verus!
