//! Session, tunnel and terminal logic for a multi-session remote-access engine.
pub mod auth;
pub mod error;
pub mod forward;
pub mod keygen;
pub mod listing;
pub mod local;
pub mod model;
pub mod rdp;
pub mod registry;
pub mod reader;
pub mod session;
pub mod socks5;
pub mod text;
pub mod transport;
