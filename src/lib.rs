//! Chatroom relay of a terminal chat client: the registry of active rooms,
//! the per-room bus, the pumps between each room's socket and its bus, the
//! connection supervisor with its backoff, and the reaper.

pub mod endpoints;
pub mod envelope;
pub mod codec;
pub mod backoff;
pub mod supervisor;
pub mod bus;
pub mod registry;
pub mod pumps;
pub mod errors;
