pub mod addr_map;
pub mod buffer;
pub mod certificate;
pub mod channel;
pub mod connection;
pub mod diagnostics;
pub mod error;
pub mod fingerprint;
pub mod interop;
pub mod multiaddr;
pub mod net;
pub mod opening;
pub mod poll_data_channel;
pub mod rtc;
pub mod rtc_client;
pub mod stream;
pub mod stun;
pub mod text;
pub mod time;
pub mod transport;
pub mod udp_manager;
pub mod upgrade;
pub mod websys;
