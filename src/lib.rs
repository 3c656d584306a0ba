//! The core of a line-oriented chat server: the registry of live sessions,
//! the broadcast actor's step, the session reader's step, and the handshake
//! decisions of the accept loop.

pub mod broadcast;
pub mod client;
pub mod event;
pub mod handshake;
pub mod laws;
pub mod names;
pub mod registry;
pub mod session;
