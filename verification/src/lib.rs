//! Decision logic of a reverse proxy that relays HTTP exchanges to a daemon
//! behind a Unix domain socket, together with the browser-origin policy that
//! guards it.

pub mod config;
pub mod dial;
pub mod engine;
pub mod fault;
pub mod gate;
pub mod headers;
pub mod ipv4;
pub mod mock;
pub mod origin;
pub mod text;
pub mod wire;
