//! Core of a bridge between a user interface and a remote host spoken to
//! over a raw Telnet byte stream.
//!
//! The library holds the decision logic of the bridge: the bounded
//! first-in first-out queue of user commands ([`channel`]), the validation
//! of a connection request ([`connect`]), and the per-iteration decisions
//! of the connection loop — framing outbound commands and decoding inbound
//! payloads ([`session`]).
//!
//! The surrounding program owns the socket, the task scheduler and the
//! user interface; it drives the loop by calling into this library and
//! performing the transmissions and publications the library decides on.

pub mod channel;
pub mod connect;
pub mod session;
