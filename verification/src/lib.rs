//! Gateway between a browser-hosted DX cluster and a transceiver on the
//! operator's desk: the radio abstraction and its backends' protocol logic,
//! the CAT control session, the WebSocket tunnel and message bridge, and the
//! status datagram that logging software listens for.

pub mod bridge;
pub mod cat;
pub mod config;
pub mod dummy;
pub mod freq;
pub mod health;
pub mod lifecycle;
pub mod omnirig;
pub mod reporting;
pub mod rig;
pub mod rigctld;
pub mod server;
pub mod text;
pub mod tunnel;
