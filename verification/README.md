# webrtc

Verified pieces of a WebRTC stack, written in Verus.

`src/` is the verified library:

- `sctp`: chunk and parameter headers, the SHUTDOWN, SHUTDOWN COMPLETE and
  unknown chunks, and the heartbeat information, random and state cookie
  parameters, over the `bytes` crate's buffers.
- `mdns`: fixed-size fields, domain names with suffix compression, and the
  A, AAAA, CNAME, NS, PTR and SRV record bodies.
- `dtls`: application data, the extended master secret extension, the
  server hello done message, the TLS 1.2 key expansion (HMAC-SHA256 from the
  `hmac` and `sha2` crates) and the key setup of two cipher suites.
- `srtp`, `turn`, `webrtc`, `interceptor`, `util`: protection profiles,
  TURN addresses and their text forms, ICE candidate pairs and the
  statistics collector, a test clock, exact-size buffers and network
  interfaces with their `ipnet` networks.
- `buf` and `text`: network byte order and the `bytes` crate's buffers, and
  decimal text.

Each encoder and decoder states its result exactly, and proof functions
state the laws that tie them together (what is written reads back as
itself).

`app/` holds what the library does not: `std::io` streams, the tokio UDP
connection, and conversions from `std::net` addresses and `std::time`
values to the library's own.
