//! Conductor's core: a broker between clients and the Steam client's
//! embedded browser.
//!
//! Clients send requests over WebSocket; the broker gives each request an id
//! of its own, passes it to the one connection that the injected payload
//! holds, and routes each reply back to the client that asked, with the id
//! that the client had chosen. Everything here is a function from values to
//! values: the sockets, clocks and files are the caller's.

pub mod config;
pub mod inject;
pub mod json;
pub mod laws;
pub mod message;
pub mod payload;
pub mod process;
pub mod secrets;
pub mod server;
pub mod supervisor;
pub mod text;
