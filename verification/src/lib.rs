//! The core of a chat client on top of Matrix: what a sync leads to, what the client
//! remembers, and how another device is verified.
pub mod channel;
pub mod client;
pub mod client_laws;
pub mod cross_signing;
pub mod event_laws;
pub mod executor;
pub mod handlers;
pub mod laws;
pub mod report;
pub mod rooms;
pub mod state;
pub mod sync;
pub mod text;
pub mod verification;
pub mod wire;
