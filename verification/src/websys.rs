//! WebRTC in the browser.
pub mod connection;
pub mod error;
pub mod poll_data_channel;
pub mod sdp;
pub mod stream;
