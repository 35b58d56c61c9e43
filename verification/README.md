# webrtc_direct

The logic of a libp2p transport over WebRTC, verified with [Verus](https://github.com/verus-lang/verus):
listening and dialling without a signalling server, opening connections from STUN messages, data
channels as substreams, and the Noise upgrade that ends with an open connection. A second part is
the browser's side of the same transport, and a third the ping test that runs one against the other.

The library does no I/O. Every state machine takes an event and says what is to be done; the sockets,
the timers and the browser's objects belong to whoever drives it.

- `src/net.rs`, `src/time.rs`, `src/text.rs`, `src/buffer.rs`, `src/addr_map.rs`: addresses, the
  clock, text, byte buffers and maps by address.
- `src/fingerprint.rs`, `src/certificate.rs`, `src/multiaddr.rs`: certificates, their fingerprints,
  and the multiaddresses that carry them.
- `src/stun.rs`, `src/rtc.rs`, `src/rtc_client.rs`: telling datagrams apart, and the WebRTC stack
  below a connection.
- `src/connection.rs`, `src/channel.rs`, `src/poll_data_channel.rs`, `src/stream.rs`: connections,
  their channels and streams.
- `src/udp_manager.rs`, `src/upgrade.rs`, `src/transport.rs`: the socket with its connections, the
  upgrade of a connection, and the transport.
- `src/websys/`: the browser's side.
- `src/interop/`, `src/diagnostics.rs`: the ping test and what it logs.
- `app/`: sockets, tasks and browser objects around the library.
- `tests/`: examples with real certificates, real STUN messages and a real peer.

What the outside crates do is stated next to the calls, in functions and declarations marked
`external_body` or `assume_specification`; everything else is proved. Proof functions whose names
start with `law_` state what holds across functions.
