//! The command line of a remote session: what a terminal asks of the editor that opened it, and the
//! server that passes it on.

pub mod client;
pub mod launcher;
pub mod paths;
pub mod server;
pub mod wire;
