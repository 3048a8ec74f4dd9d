# mycelink

The core of the Mycelink messenger, verified with Verus: the Freenet client protocol
(FCP) that Mycelink speaks to a Hyphanet node, and the data of Mycelink accounts,
contacts, chats and channels.

## Layout

- `src/text.rs` — character-level helpers (decimal numbers, booleans, splitting,
  replacing) with their mathematical models.
- `src/fcp/` — the protocol:
  - `model/` — message types, fields, messages and their wire encoding, request
    identifiers, URIs, media types and the small enums of request options;
  - `messages/` — the messages the library sends (encoded from their values) and
    the node messages it reads (decoded from messages);
  - `decoder.rs` — decoding a message one line at a time; `roundtrip.rs` proves that
    decoding the lines of an encoded message gives the message back;
  - `peekable_reader.rs` — the look-ahead buffer of a line reader;
  - `connector.rs` — message filters and the priority-ordered listener registry.
- `src/mycelink/` — accounts, contacts and their published details, chat and channel
  messages, the key bookkeeping of channels, and the texts channel keys derive from.
- `app/` — the network side: the asynchronous line reader and message reader, the
  connection to the node, and CBOR encoding of chat values.
- `tests/` — tests of the library on concrete values.
