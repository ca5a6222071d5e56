//! Client side of an SMPP session that submits one short message: the
//! rules on outbound fields, the requests the client sends, the framing
//! of the byte stream that comes back, and the session's state machine.

pub mod codec;
pub mod command;
pub mod config;
pub mod delivery;
pub mod fields;
pub mod laws;
pub mod smppclient;
