[package]
name = "webrtc_direct"
version = "0.1.0"
edition = "2021"
publish = false

[dependencies]
anyhow = "1"
axum = "0.7"
bytes = "=1.12.1"
futures = "0.3"
futures-timer = "3"
hex = "=0.4.3"
if-watch = { version = "3", features = ["tokio"] }
js-sys = "0.3"
libp2p = { version = "=0.56.0", default-features = false, features = ["identify", "macros", "ping"] }
libp2p-core = "=0.43.2"
libp2p-identity = { version = "=0.2.14", features = ["ed25519", "peerid", "rand"] }
libp2p-webrtc-utils = "=0.4.0"
mime_guess = "=2.0.5"
multihash = "=0.19.5"
redis = { version = "0.24", default-features = false, features = ["tokio-comp"] }
reqwest = { version = "0.12", default-features = false, features = ["json"] }
rust-embed = "8"
send_wrapper = { version = "0.6", features = ["futures"] }
serde = { version = "1", features = ["derive"] }
serde_json = "1"
socket2 = { version = "0.5", features = ["all"] }
str0m = "=0.6.3"
thirtyfour = { version = "0.32", default-features = false, features = ["reqwest"] }
tokio = { version = "1", features = ["io-util", "macros", "net", "process", "rt-multi-thread", "sync", "time"] }
tower-http = { version = "0.5", features = ["cors", "trace"] }
tracing = "0.1"
tracing-subscriber = { version = "0.3", features = ["env-filter"] }
wasm-bindgen = "0.2"
wasm-bindgen-futures = "0.4"
web-sys = { version = "0.3", features = ["Event", "MessageEvent", "RtcCertificate", "RtcConfiguration", "RtcDataChannel", "RtcDataChannelEvent", "RtcDataChannelInit", "RtcDataChannelState", "RtcDataChannelType", "RtcIceConnectionState", "RtcPeerConnection", "RtcSdpType", "RtcSessionDescription", "RtcSessionDescriptionInit", "Window"] }
