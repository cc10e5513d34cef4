//! Message routing for a chat bot.
//!
//! Incoming chat messages pass through a chain of responders ordered by
//! priority; the first one that accepts a message and handles it decides the
//! reply. The default responder bridges the message to an agent service over a
//! publish/subscribe bus, correlating the service's answers by request id.
//!
//! Everything here is plain data and decisions: connecting, publishing,
//! receiving and sending chat messages are left to the caller, which feeds the
//! outcomes back in.

pub mod text;
pub mod responder;
pub mod responder_manager;
pub mod pingpong;
pub mod verji_agent;
pub mod builtin;
pub mod bridge;
pub mod session;
