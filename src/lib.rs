//! Maps an identity authenticated by a RADIUS server onto a local account,
//! keeps the resulting session in a small SQLite store, and hands it over to
//! a privileged helper by means of a one-time token.

pub mod attr;
pub mod builder;
pub mod bytes;
pub mod client;
pub mod config;
pub mod handoff;
pub mod hex;
pub mod nss;
pub mod remote;
pub mod session;
pub mod store;
