//! The guest connection: credential retrieval, the client link it produces and the retry state
//! machine around both, plus the recovery of sessions that the platform suspended.
pub mod connection;
pub mod recovery;
