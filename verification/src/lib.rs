//! Verified core of a browser-capture streaming relay.
//!
//! The crate covers the two subsystems with real design content: the
//! event-stream session client (session state machine, subscription
//! reconciliation, token refresh, user cache, outbound message encoding)
//! and the bounded media relay pipeline. Socket, HTTP and process I/O live
//! outside the library; the library decides, the surrounding program acts.

pub mod cache;
pub mod config;
pub mod outbound;
pub mod refresh;
pub mod registry;
pub mod relay;
pub mod session;
pub mod upstream;
