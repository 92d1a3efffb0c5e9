//! A gateway between raw TCP clients and a Telnet backend: the option
//! negotiation table, the per-event decisions of a connection bridge, the
//! decoding of backend text, and the registry of live sessions.
pub mod bridge;
pub mod encoding;
pub mod manager;
pub mod negotiation;
pub mod session;
