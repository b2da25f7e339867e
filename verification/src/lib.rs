//! Core of a localhost-tunneling relay: a wire protocol for frames exchanged
//! between a tunnel client and the relay server, a registry of active client
//! sessions with request/response correlation, the public gateway's routing
//! and reply rules, the control-channel handshake, and the client-side agent
//! state machine. All I/O (sockets, terminal, files) lives outside this crate;
//! these modules hold the data structures and decision logic, verified.

pub mod agent;
pub mod appstate;
pub mod codec;
pub mod config;
pub mod errors;
pub mod gateway;
pub mod listener;
pub mod msg;
pub mod registry;
pub mod text;
