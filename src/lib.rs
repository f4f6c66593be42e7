//! Addressing and session rules of a single-shot DTN bundle client: parsing
//! partial endpoint identifiers, checking a send or listen request before any
//! network traffic, and choosing the local agent identity.

pub mod endpoint;
pub mod session;
