use std::convert::TryFrom;

use bluetooth_hci::event::command::CommandComplete;
use bluetooth_hci::event::{
    rewrap_bad_reason, rewrap_bad_status, try_into_encryption_enabled, Encryption, Error, Event,
    LinkType, Packet, VendorEvent,
};
use bluetooth_hci::opcode::OpCode;
use bluetooth_hci::{BadStatusError, ConnectionHandle, Status};

#[derive(Debug)]
struct RecordedVendorEvent {
    payload: Vec<u8>,
}

#[derive(Debug, PartialEq)]
enum VendorError {
    Empty,
}

impl VendorEvent for RecordedVendorEvent {
    type Error = VendorError;

    fn new(buffer: &[u8]) -> Result<Self, Error<Self::Error>> {
        if buffer.is_empty() {
            return Err(Error::Vendor(VendorError::Empty));
        }
        Ok(RecordedVendorEvent {
            payload: buffer.to_vec(),
        })
    }
}

type TestEvent = Event<RecordedVendorEvent>;

fn parse(bytes: &[u8]) -> Result<TestEvent, Error<VendorError>> {
    TestEvent::new(Packet(bytes))
}

#[test]
fn connection_complete() {
    let bytes = [
        0x03, 11, 0x00, 0x01, 0x02, 0x10, 0x20, 0x30, 0x40, 0x50, 0x60, 0x01, 0x01,
    ];
    match parse(&bytes) {
        Ok(Event::ConnectionComplete(event)) => {
            assert_eq!(event.status, Status(0x00));
            assert_eq!(event.conn_handle, ConnectionHandle(0x0201));
            assert_eq!(event.bdaddr.0, [0x10, 0x20, 0x30, 0x40, 0x50, 0x60]);
            assert_eq!(event.link_type, LinkType::Acl);
            assert!(event.encryption_enabled);
        }
        other => panic!("Did not get connection complete event: {:?}", other),
    }
}

#[test]
fn connection_complete_sco_unencrypted() {
    let bytes = [
        0x03, 11, 0x05, 0xFF, 0xFF, 1, 2, 3, 4, 5, 6, 0x00, 0x00,
    ];
    match parse(&bytes) {
        Ok(Event::ConnectionComplete(event)) => {
            assert_eq!(event.status, Status(0x05));
            assert_eq!(event.conn_handle, ConnectionHandle(0xFFFF));
            assert_eq!(event.link_type, LinkType::Sco);
            assert!(!event.encryption_enabled);
        }
        other => panic!("Did not get connection complete event: {:?}", other),
    }
}

#[test]
fn connection_complete_failed_bad_link_type() {
    let bytes = [
        0x03, 11, 0x00, 0x01, 0x02, 1, 2, 3, 4, 5, 6, 0x02, 0x01,
    ];
    match parse(&bytes) {
        Err(Error::BadLinkType(value)) => assert_eq!(value, 0x02),
        other => panic!("Did not get bad link type: {:?}", other),
    }
}

#[test]
fn connection_complete_failed_bad_encryption_enabled() {
    let bytes = [
        0x03, 11, 0x00, 0x01, 0x02, 1, 2, 3, 4, 5, 6, 0x01, 0x02,
    ];
    match parse(&bytes) {
        Err(Error::BadEncryptionEnabledValue(value)) => assert_eq!(value, 0x02),
        other => panic!("Did not get bad encryption enabled value: {:?}", other),
    }
}

#[test]
fn connection_complete_failed_bad_status() {
    let bytes = [
        0x03, 11, 0x45, 0x01, 0x02, 1, 2, 3, 4, 5, 6, 0x01, 0x01,
    ];
    match parse(&bytes) {
        Err(Error::BadStatus(value)) => assert_eq!(value, 0x45),
        other => panic!("Did not get bad status: {:?}", other),
    }
}

#[test]
fn connection_complete_failed_bad_length() {
    let bytes = [0x03, 10, 0x00, 0x01, 0x02, 1, 2, 3, 4, 5, 6, 0x01];
    match parse(&bytes) {
        Err(Error::BadLength(actual, expected)) => {
            assert_eq!(actual, 10);
            assert_eq!(expected, 11);
        }
        other => panic!("Did not get bad length: {:?}", other),
    }
}

#[test]
fn disconnection_complete() {
    let bytes = [0x05, 4, 0x00, 0x01, 0x02, 0x13];
    match parse(&bytes) {
        Ok(Event::DisconnectionComplete(event)) => {
            assert_eq!(event.status, Status(0x00));
            assert_eq!(event.conn_handle, ConnectionHandle(0x0201));
            assert_eq!(event.reason, Status(0x13));
        }
        other => panic!("Did not get disconnection complete event: {:?}", other),
    }
}

#[test]
fn disconnection_complete_failed_bad_reason() {
    let bytes = [0x05, 4, 0x00, 0x01, 0x02, 0x2B];
    match parse(&bytes) {
        Err(Error::BadReason(value)) => assert_eq!(value, 0x2B),
        other => panic!("Did not get bad reason: {:?}", other),
    }
}

#[test]
fn disconnection_complete_failed_bad_status() {
    let bytes = [0x05, 4, 0x31, 0x01, 0x02, 0x2B];
    match parse(&bytes) {
        Err(Error::BadStatus(value)) => assert_eq!(value, 0x31),
        other => panic!("Did not get bad status: {:?}", other),
    }
}

#[test]
fn encryption_change() {
    let bytes = [0x08, 4, 0x00, 0x01, 0x02, 0x02];
    match parse(&bytes) {
        Ok(Event::EncryptionChange(event)) => {
            assert_eq!(event.status, Status(0x00));
            assert_eq!(event.conn_handle, ConnectionHandle(0x0201));
            assert_eq!(event.encryption, Encryption::OnAesCcmForBrEdr);
        }
        other => panic!("Did not get encryption change event: {:?}", other),
    }
}

#[test]
fn encryption_change_off_and_on() {
    match parse(&[0x08, 4, 0x00, 0x01, 0x02, 0x00]) {
        Ok(Event::EncryptionChange(event)) => assert_eq!(event.encryption, Encryption::Off),
        other => panic!("Did not get encryption change event: {:?}", other),
    }
    match parse(&[0x08, 4, 0x00, 0x01, 0x02, 0x01]) {
        Ok(Event::EncryptionChange(event)) => assert_eq!(event.encryption, Encryption::On),
        other => panic!("Did not get encryption change event: {:?}", other),
    }
}

#[test]
fn encryption_change_failed_bad_encryption_type() {
    let bytes = [0x08, 4, 0x00, 0x01, 0x02, 0x03];
    match parse(&bytes) {
        Err(Error::BadEncryptionType(value)) => assert_eq!(value, 0x03),
        other => panic!("Did not get bad encryption type: {:?}", other),
    }
}

#[test]
fn read_remote_version_complete() {
    let bytes = [0x0C, 8, 0x00, 0x01, 0x02, 0x03, 0x04, 0x05, 0x06, 0x07];
    match parse(&bytes) {
        Ok(Event::ReadRemoteVersionInformationComplete(event)) => {
            assert_eq!(event.status, Status(0x00));
            assert_eq!(event.conn_handle, ConnectionHandle(0x0201));
            assert_eq!(event.version, 0x03);
            assert_eq!(event.mfgr_name, 0x0504);
            assert_eq!(event.subversion, 0x0706);
        }
        other => panic!("Did not get read remote version info event: {:?}", other),
    }
}

#[test]
fn read_remote_version_complete_failed_bad_length() {
    let bytes = [0x0C, 7, 0x00, 0x01, 0x02, 0x03, 0x04, 0x05, 0x06];
    match parse(&bytes) {
        Err(Error::BadLength(actual, expected)) => {
            assert_eq!(actual, 7);
            assert_eq!(expected, 8);
        }
        other => panic!("Did not get bad length: {:?}", other),
    }
}

#[test]
fn command_complete() {
    let bytes = [0x0E, 4, 1, 0x03, 0x0C, 0x00];
    match parse(&bytes) {
        Ok(Event::CommandComplete(event)) => {
            assert_eq!(event.num_hci_command_packets, 1);
            assert_eq!(event.op_code, OpCode(0x0C03));
            assert_eq!(event.return_params, vec![0x00]);
        }
        other => panic!("Did not get command complete event: {:?}", other),
    }
}

#[test]
fn command_complete_spontaneous() {
    let bytes = [0x0E, 3, 8, 0x00, 0x00];
    match parse(&bytes) {
        Ok(Event::CommandComplete(event)) => {
            assert_eq!(event.num_hci_command_packets, 8);
            assert_eq!(event.op_code, OpCode(0x0000));
            assert!(event.return_params.is_empty());
        }
        other => panic!("Did not get command complete event: {:?}", other),
    }
}

#[test]
fn command_complete_failed_bad_length() {
    let bytes = [0x0E, 2, 1, 0x03];
    match parse(&bytes) {
        Err(Error::BadLength(actual, expected)) => {
            assert_eq!(actual, 2);
            assert_eq!(expected, 3);
        }
        other => panic!("Did not get bad length: {:?}", other),
    }
}

#[test]
fn command_complete_new_directly() {
    let result: Result<CommandComplete, Error<VendorError>> =
        CommandComplete::new(&[2, 0x01, 0x10, 0xAA, 0xBB]);
    let event = result.unwrap();
    assert_eq!(event.num_hci_command_packets, 2);
    assert_eq!(event.op_code, OpCode(0x1001));
    assert_eq!(event.return_params, vec![0xAA, 0xBB]);
}

#[test]
fn command_status() {
    let bytes = [0x0F, 4, 0x00, 1, 0x06, 0x04];
    match parse(&bytes) {
        Ok(Event::CommandStatus(event)) => {
            assert_eq!(event.status, Status(0x00));
            assert_eq!(event.num_hci_command_packets, 1);
            assert_eq!(event.op_code, OpCode(0x0406));
        }
        other => panic!("Did not get command status event: {:?}", other),
    }
}

#[test]
fn command_status_spontaneous_opcode_zero() {
    let bytes = [0x0F, 4, 0x00, 5, 0x00, 0x00];
    match parse(&bytes) {
        Ok(Event::CommandStatus(event)) => {
            assert_eq!(event.num_hci_command_packets, 5);
            assert_eq!(event.op_code, OpCode(0x0000));
        }
        other => panic!("Did not get command status event: {:?}", other),
    }
}

#[test]
fn command_status_failed_bad_status() {
    let bytes = [0x0F, 4, 0x33, 1, 0x06, 0x04];
    match parse(&bytes) {
        Err(Error::BadStatus(value)) => assert_eq!(value, 0x33),
        other => panic!("Did not get bad status: {:?}", other),
    }
}

#[test]
fn command_status_failed_bad_length() {
    let bytes = [0x0F, 5, 0x00, 1, 0x06, 0x04, 0x00];
    match parse(&bytes) {
        Err(Error::BadLength(actual, expected)) => {
            assert_eq!(actual, 5);
            assert_eq!(expected, 4);
        }
        other => panic!("Did not get bad length: {:?}", other),
    }
}

#[test]
fn vendor_event_gets_payload_only() {
    let bytes = [0xFF, 3, 0xAA, 0xBB, 0xCC];
    match parse(&bytes) {
        Ok(Event::Vendor(event)) => assert_eq!(event.payload, vec![0xAA, 0xBB, 0xCC]),
        other => panic!("Did not get vendor event: {:?}", other),
    }
}

#[test]
fn vendor_event_error_is_passed_on() {
    let bytes = [0xFF, 0];
    match parse(&bytes) {
        Err(Error::Vendor(e)) => assert_eq!(e, VendorError::Empty),
        other => panic!("Did not get vendor error: {:?}", other),
    }
}

#[test]
fn unknown_event() {
    let bytes = [0x02, 0];
    match parse(&bytes) {
        Err(Error::UnknownEvent(value)) => assert_eq!(value, 0x02),
        other => panic!("Did not get unknown event: {:?}", other),
    }
}

#[test]
fn packet_too_short_for_header() {
    match parse(&[0x05]) {
        Err(Error::BadLength(actual, expected)) => {
            assert_eq!(actual, 1);
            assert_eq!(expected, 2);
        }
        other => panic!("Did not get bad length: {:?}", other),
    }
    match parse(&[]) {
        Err(Error::BadLength(actual, expected)) => {
            assert_eq!(actual, 0);
            assert_eq!(expected, 2);
        }
        other => panic!("Did not get bad length: {:?}", other),
    }
}

#[test]
fn packet_shorter_than_declared() {
    match parse(&[0x05, 4, 0x00, 0x01, 0x02]) {
        Err(Error::BadLength(actual, expected)) => {
            assert_eq!(actual, 5);
            assert_eq!(expected, 6);
        }
        other => panic!("Did not get bad length: {:?}", other),
    }
}

#[test]
fn packet_with_trailing_bytes_is_refused() {
    match parse(&[0x05, 4, 0x00, 0x01, 0x02, 0x13, 0x00]) {
        Err(Error::BadLength(actual, expected)) => {
            assert_eq!(actual, 7);
            assert_eq!(expected, 6);
        }
        other => panic!("Did not get bad length: {:?}", other),
    }
}

#[test]
fn length_checked_before_event_type() {
    match parse(&[0x02, 1]) {
        Err(Error::BadLength(actual, expected)) => {
            assert_eq!(actual, 2);
            assert_eq!(expected, 3);
        }
        other => panic!("Did not get bad length: {:?}", other),
    }
}

#[test]
fn status_try_from() {
    assert_eq!(Status::try_from(0x00), Ok(Status(0x00)));
    assert_eq!(Status::try_from(0x44), Ok(Status(0x44)));
    assert_eq!(Status::try_from(0x2A), Ok(Status(0x2A)));
    assert_eq!(Status::try_from(0x2B), Err(BadStatusError::BadValue(0x2B)));
    assert_eq!(Status::try_from(0x31), Err(BadStatusError::BadValue(0x31)));
    assert_eq!(Status::try_from(0x33), Err(BadStatusError::BadValue(0x33)));
    assert_eq!(Status::try_from(0x45), Err(BadStatusError::BadValue(0x45)));
    assert_eq!(Status::try_from(0xFF), Err(BadStatusError::BadValue(0xFF)));
}

#[test]
fn link_type_try_from() {
    assert_eq!(LinkType::try_from(0).ok(), Some(LinkType::Sco));
    assert_eq!(LinkType::try_from(1).ok(), Some(LinkType::Acl));
    assert!(matches!(LinkType::try_from(2), Err(Error::BadLinkType(2))));
}

#[test]
fn encryption_try_from() {
    assert_eq!(Encryption::try_from(0).ok(), Some(Encryption::Off));
    assert_eq!(Encryption::try_from(1).ok(), Some(Encryption::On));
    assert_eq!(Encryption::try_from(2).ok(), Some(Encryption::OnAesCcmForBrEdr));
    assert!(matches!(Encryption::try_from(3), Err(Error::BadEncryptionType(3))));
}

#[test]
fn encryption_enabled_values() {
    assert_eq!(try_into_encryption_enabled(0).ok(), Some(false));
    assert_eq!(try_into_encryption_enabled(1).ok(), Some(true));
    assert!(matches!(
        try_into_encryption_enabled(7),
        Err(Error::BadEncryptionEnabledValue(7))
    ));
}

#[test]
fn rewrap_status_errors() {
    assert!(matches!(
        rewrap_bad_status::<VendorError>(BadStatusError::BadValue(0x50)),
        Error::BadStatus(0x50)
    ));
    assert!(matches!(
        rewrap_bad_reason::<VendorError>(BadStatusError::BadValue(0x51)),
        Error::BadReason(0x51)
    ));
}

// Deserializing loses nothing, and encoding an event gives a packet that deserializes back to it:
// re-encoding the parsed fields of a packet gives the packet again.
#[test]
fn encode_of_parsed_event_is_the_packet() {
    let bytes = [0x0C, 8, 0x13, 0x34, 0x12, 0x09, 0x0F, 0x00, 0xCD, 0xAB];
    match parse(&bytes) {
        Ok(Event::ReadRemoteVersionInformationComplete(event)) => {
            let handle = event.conn_handle.0;
            let encoded = [
                0x0C,
                8,
                event.status.0,
                (handle % 256) as u8,
                (handle / 256) as u8,
                event.version,
                (event.mfgr_name % 256) as u8,
                (event.mfgr_name / 256) as u8,
                (event.subversion % 256) as u8,
                (event.subversion / 256) as u8,
            ];
            assert_eq!(encoded, bytes);
        }
        other => panic!("Did not get read remote version info event: {:?}", other),
    }
}

// Two different packets never deserialize to the same event: changing any byte of a valid packet
// either changes the event or makes the packet invalid.
#[test]
fn distinct_packets_give_distinct_events() {
    let base = [0x05, 4, 0x00, 0x01, 0x02, 0x13];
    let base_event = match parse(&base) {
        Ok(Event::DisconnectionComplete(event)) => event,
        other => panic!("Did not get disconnection complete event: {:?}", other),
    };
    for i in 0..base.len() {
        let mut changed = base;
        changed[i] = changed[i].wrapping_add(1);
        if let Ok(Event::DisconnectionComplete(event)) = parse(&changed) {
            assert!(
                event.status != base_event.status
                    || event.conn_handle != base_event.conn_handle
                    || event.reason != base_event.reason
            );
        }
    }
}
