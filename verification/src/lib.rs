//! Per-client terminal sessions streamed over WebSocket connections.

pub mod channel;
pub mod connection;
pub mod inbound;
pub mod parse_frame;
pub mod poller;
pub mod rendezvous;
pub mod session_store;
pub mod text;
pub mod tui;
pub mod tui_2;
