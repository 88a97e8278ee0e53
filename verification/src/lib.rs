//! Relay core of a collaborative editing session.
//!
//! A registry of live connections, a single host slot and the state machine
//! that drives them: every step takes an event and returns what the
//! transport has to deliver. The replicated document and the sockets stay
//! outside; the session is told what the document answered.

pub mod editor;
pub mod host;
pub mod laws;
pub mod outbound;
pub mod protocol;
pub mod registry;
pub mod session;
