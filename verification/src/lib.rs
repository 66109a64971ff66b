//! A minimal in-memory key-value server core: a shared store mapping textual
//! keys to binary values, a command executor for the Set/Get operations, and a
//! per-connection session state machine. Wire-level framing and parsing are
//! delegated to the `mini_redis` crate; the surrounding process (socket
//! handling, task spawning) lives outside this library.

pub mod command;
pub mod history;
pub mod session;
pub mod store;
pub mod wire;
