//! Client-side state reconciliation for a federated chat client.
//!
//! The library keeps a local mirror of guilds, channels, members and
//! messages, applies server events to it, reconciles optimistically sent
//! messages with their confirmed copies, and decides what the event-stream
//! and send loops do next. It performs no I/O: the caller runs the network
//! operations that the library asks for and hands their results back.
pub mod message;
pub mod channel;
pub mod client;
pub mod create_channel;
pub mod event;
pub mod manager;
pub mod screen;
pub mod send;
pub mod session;
pub mod supervisor;
pub mod thumbnail;
