//! A fragment of a DNS resolver toolkit: an event-driven UDP client
//! transport that drains a closable outbound queue through a single
//! pending-send slot, and the NSEC3 owner-name hash of DNSSEC
//! denial-of-existence proofs.

pub mod error;
pub mod name;
pub mod net;
pub mod nsec3;
pub mod udp;
