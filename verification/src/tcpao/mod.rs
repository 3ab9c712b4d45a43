//! The TCP Authentication Option: which policy applies to a peer, and what
//! the host kernel is told for a socket.

pub mod linux;
pub mod policy;
pub mod record;
