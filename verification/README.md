# bluetooth-hci

Deserialization of Bluetooth HCI events, with every parser proved against a specification of its byte layout.

- `src/lib.rs`: values shared by commands and events (`Status`, `ConnectionHandle`, `BdAddr`).
- `src/opcode.rs`: HCI command opcodes.
- `src/event/mod.rs`: the event types, `Event::new` (packet to event), the spec functions that
  define each event's byte layout, and the proved laws (decoding loses nothing, encoding is
  decoded back, distinct packets give distinct events).
- `src/event/command.rs`: the Command Complete event. Its return parameters are kept as raw
  bytes; every opcode is accepted, so `Error::UnknownOpCode` is never produced.
- `tests/event.rs`: tests on concrete packets.

Little-endian fields are read with the `byteorder` crate.
