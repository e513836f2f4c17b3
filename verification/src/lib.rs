//! Verified core of an authenticated reverse tunnel: the handshake wire
//! format, the session state machines of server and agent, the token
//! authorization rules, the registry of connected agents and the capture of
//! request cycles.

pub mod agent;
pub mod auth;
pub mod dispatch;
pub mod error;
pub mod handshake;
pub mod interceptor;
pub mod key_store;
pub mod mode;
pub mod probe;
pub mod refresh;
pub mod registry;
pub mod session;
pub mod session_laws;
pub mod settings;
pub mod text;
pub mod token;
pub mod traffic_log;
pub mod tunnel_id;
