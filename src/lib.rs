//! Recording and replay of keyboard macros for a remote-input desktop host.
pub mod keys;
pub mod types;
pub mod hook;
pub mod session;
pub mod replay;
pub mod input;
pub mod server;
pub mod settings;
pub mod pairing;
pub mod commands;
